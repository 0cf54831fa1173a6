# tiny_adventure

The verified logic of a small set of macroquad games and of a Solana wallet
adapter, written in Verus.

- `src/input.rs`: the movement keys a player holds and the direction they ask for.
- `src/rpg.rs`: the role-playing game's decisions: facing, sprite animations,
  attacks, enemy attacks, and the player's health (kept a multiple of ten
  between 0 and 100, alive exactly while some is left).
- `src/animations.rs`: the sprite-sheet tables and the macroquad sprites built
  from them.
- `src/bubbles.rs`: which touched bubble carries Bubble Pop's chain reaction on.
- `src/shooter.rs`: the space shooter's enemy-spawn roll.
- `src/game.rs`: the tiny adventure's game (seed and entity world).
- `src/wallet.rs`: wallet kinds, the adapter traits, the browser wallet's
  connect/disconnect state machine and the local keypair wallet.

`app/` holds what runs around the library: the game loops, drawing, everything
measured in floating-point pixels or seconds (the timers), keyboard reading,
the awaits on the browser wallet's JavaScript promises and keypair files.
