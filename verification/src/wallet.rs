//! Wallets a game can connect to: the kinds of wallet, the adapter
//! interface, the browser wallet's connection state machine and the local
//! keypair wallet.

use emitter_rs::EventEmitter;
use solana_keypair::Keypair;
use solana_pubkey::{ParsePubkeyError, Pubkey};
use solana_signer::Signer;
use std::str::FromStr;
use vstd::prelude::*;

verus! {

#[verifier::external_type_specification]
#[verifier::external_body]
pub struct ExPubkey(Pubkey);

#[verifier::external_type_specification]
#[verifier::external_body]
pub struct ExParsePubkeyError(ParsePubkeyError);

#[verifier::external_type_specification]
#[verifier::external_body]
pub struct ExKeypair(Keypair);

#[verifier::external_type_specification]
#[verifier::external_body]
pub struct ExEventEmitter(EventEmitter);

/// The wallets a game knows of.
#[derive(Debug, Clone, Copy, PartialEq, Eq, Structural)]
pub enum Wallet {
    Local,
    Phantom,
    Solflare,
}

/// Why a text is not a public key.
#[derive(Debug, Clone, Copy, PartialEq, Eq, Structural)]
pub enum PubkeyError {
    /// The text, or what it decodes to, has the wrong length.
    WrongSize,
    /// The text holds a character outside the base-58 alphabet.
    Invalid,
}

/// What `Pubkey::from_str` answers for a text: a function of the text alone.
pub uninterp spec fn parse_pubkey(text: Seq<char>) -> Result<Pubkey, PubkeyError>;

/// Calls `<solana_pubkey::Pubkey as FromStr>::from_str`, with its error turned
/// variant for variant into `PubkeyError`. Trusted: the answer is the one
/// named `parse_pubkey` of the text; and a text of more than 44 characters
/// (so of more than 44 bytes) is refused as of the wrong size, since
/// `from_str` checks the byte length against 44 before decoding. Which other
/// texts are refused, and with which error, is left unsaid (base-58 decoding).
#[verifier::external_body]
fn pubkey_from_str(text: &str) -> (r: Result<Pubkey, PubkeyError>)
    ensures
        r == parse_pubkey(text@),
        text@.len() > 44 ==> r is Err && r->Err_0 == PubkeyError::WrongSize,
{
    match Pubkey::from_str(text) {
        Ok(k) => Ok(k),
        Err(ParsePubkeyError::WrongSize) => Err(PubkeyError::WrongSize),
        Err(ParsePubkeyError::Invalid) => Err(PubkeyError::Invalid),
    }
}

/// An emitter's listeners: for each event name, its listeners in order,
/// each as its id and how many more calls it takes (`None`: no limit).
pub type Listeners = Map<Seq<char>, Seq<(Seq<char>, Option<u64>)>>;

/// The listeners an emitter holds (its `listeners` map).
pub uninterp spec fn emitter_listeners(emitter: EventEmitter) -> Listeners;

/// The listeners of an event after it is emitted once: a listener with no
/// calls left is dropped, one with a limit has it counted down, one without a
/// limit stays as it is; the order stays.
pub open spec fn counted_down(listeners: Seq<(Seq<char>, Option<u64>)>) -> Seq<(Seq<char>, Option<u64>)>
    decreases listeners.len(),
{
    if listeners.len() == 0 {
        Seq::empty()
    } else {
        let rest = counted_down(listeners.drop_first());
        match listeners[0].1 {
            None => seq![listeners[0]] + rest,
            Some(n) => if n == 0 {
                rest
            } else {
                seq![(listeners[0].0, Some((n - 1) as u64))] + rest
            },
        }
    }
}

/// An emitter's listeners after `event` is emitted: only that event's
/// listeners change, and only if it has any entry.
pub open spec fn after_emit(listeners: Listeners, event: Seq<char>) -> Listeners {
    if listeners.dom().contains(event) {
        listeners.insert(event, counted_down(listeners[event]))
    } else {
        listeners
    }
}

/// Calls `emitter_rs::EventEmitter::new`. Trusted: the new emitter holds no
/// listeners (`new` gives `Default`, an empty map).
#[verifier::external_body]
fn new_emitter() -> (r: EventEmitter)
    ensures
        emitter_listeners(r).dom() == Set::<Seq<char>>::empty(),
{
    EventEmitter::new()
}

/// Calls `emitter_rs::EventEmitter::emit` with a public key as the payload.
/// Trusted: as `emit` does, the listeners of `event` are counted down
/// (`after_emit`) and nothing else of the emitter changes. That the listeners
/// are called, each on a thread of its own, is left unsaid.
#[verifier::external_body]
fn emit_pubkey(emitter: &mut EventEmitter, event: &str, value: Pubkey)
    ensures
        emitter_listeners(*final(emitter)) == after_emit(emitter_listeners(*old(emitter)), event@),
{
    emitter.emit(event, value)
}

/// Calls `emitter_rs::EventEmitter::emit` with the unit payload. Trusted: as
/// `emit` does, the listeners of `event` are counted down (`after_emit`)
/// and nothing else of the emitter changes. That the listeners are called,
/// each on a thread of its own, is left unsaid.
#[verifier::external_body]
fn emit_unit(emitter: &mut EventEmitter, event: &str)
    ensures
        emitter_listeners(*final(emitter)) == after_emit(emitter_listeners(*old(emitter)), event@),
{
    emitter.emit(event, ())
}

/// The public key of a keypair: its public half, a function of the keypair
/// alone.
pub uninterp spec fn keypair_public_key(keypair: Keypair) -> Pubkey;

/// Calls `<solana_keypair::Keypair as Signer>::pubkey`. Trusted: the key is
/// the one named `keypair_public_key` of the keypair (`pubkey` returns the
/// public half the keypair stores).
#[verifier::external_body]
fn keypair_pubkey(keypair: &Keypair) -> (r: Pubkey)
    ensures
        r == keypair_public_key(*keypair),
{
    keypair.pubkey()
}

/// The text `{:?}` gives of a public key (`Pubkey`'s `Debug` writes its base-58 form).
pub uninterp spec fn pubkey_debug_text(key: Pubkey) -> Seq<char>;

/// The text `{:?}` gives of an optional public key.
pub open spec fn pubkey_option_debug(value: Option<Pubkey>) -> Seq<char> {
    match value {
        None => "None"@,
        Some(key) => "Some("@ + pubkey_debug_text(key) + ")"@,
    }
}

/// The text of a struct of one optional-key field, as `#[derive(Debug)]`
/// writes it: `Name { field: value }`.
pub open spec fn debug_struct_spec(struct_name: Seq<char>, field_name: Seq<char>, value: Option<Pubkey>) -> Seq<char> {
    struct_name + " { "@ + field_name + ": "@ + pubkey_option_debug(value) + " }"@
}

/// Calls `format!` with `{:?}` to render a wallet and its published key the
/// way `#[derive(Debug)]` renders a struct of one field. Trusted: the text is
/// the name, ` { `, the field's name, `: `, the value as `Option`'s `Debug`
/// writes it (`None`, or `Some(` the key's text `)`), and ` }`.
#[verifier::external_body]
fn debug_struct_text(struct_name: &str, field_name: &str, value: &Option<Pubkey>) -> (r: String)
    ensures
        r@ == struct_name@ + " { "@ + field_name@ + ": "@ + (if value is Some {
            "Some("@ + pubkey_debug_text(value->Some_0) + ")"@
        } else {
            "None"@
        }) + " }"@,
{
    format!("{} {{ {}: {:?} }}", struct_name, field_name, value)
}

/// What every wallet tells about its connection.
pub trait WalletAdapter {
    /// The key of the connected account, if any.
    spec fn spec_public_key(&self) -> Option<Pubkey>;

    /// Whether a connection is under way.
    spec fn spec_connecting(&self) -> bool;

    fn public_key(&self) -> (r: Option<Pubkey>)
        ensures
            r == self.spec_public_key(),
    ;

    fn connecting(&self) -> (r: bool)
        ensures
            r == self.spec_connecting(),
    ;

    /// A wallet is connected exactly when it has a public key.
    fn connected(&self) -> (r: bool)
        ensures
            r == (self.spec_public_key() is Some),
    {
        self.public_key().is_some()
    }
}

/// The events a wallet sends to its listeners.
pub trait WalletAdapterEvents {
    fn emit_connect(&mut self, public_key: Pubkey);

    fn emit_disconnect(&mut self);
}

/// The first step of a browser wallet's `connect`: what the game must do next.
#[derive(Debug, Clone, Copy, PartialEq, Eq, Structural)]
pub enum ConnectStart {
    /// A connection is already under way: `connect` answers `false` at once.
    Busy,
    /// Ask the wallet to sign in, then hand its reply to `finish_connect`.
    SignIn,
}

/// What the browser wallet answered to a sign-in request.
#[derive(Debug)]
pub enum SignInReply {
    /// The request failed.
    Rejected,
    /// The request succeeded but the wallet shows no public key.
    KeyUndefined,
    /// The request succeeded and the wallet shows this public key, in base 58.
    Key(String),
}

/// What a browser wallet is: its kind, its key, whether it is connecting,
/// and the listeners of its emitter.
pub struct BrowserWalletView {
    pub name: Wallet,
    pub public_key: Option<Pubkey>,
    pub connecting: bool,
    pub listeners: Listeners,
}

/// A wallet that lives in the web page, reached through its JavaScript API.
/// Only the Phantom wallet's API is known: the others cannot be asked to sign
/// in or out.
pub struct BrowserWallet {
    name: Wallet,
    public_key: Option<Pubkey>,
    connecting: bool,
    pub emitter: EventEmitter,
}

impl View for BrowserWallet {
    type V = BrowserWalletView;

    closed spec fn view(&self) -> BrowserWalletView {
        BrowserWalletView {
            name: self.name,
            public_key: self.public_key,
            connecting: self.connecting,
            listeners: emitter_listeners(self.emitter),
        }
    }
}

/// The state after the first step of `connect`, and what it asks for.
pub open spec fn begin_connect_spec(v: BrowserWalletView) -> (BrowserWalletView, ConnectStart) {
    if v.connecting {
        (v, ConnectStart::Busy)
    } else {
        (BrowserWalletView { connecting: true, ..v }, ConnectStart::SignIn)
    }
}

/// The state once the wallet signed in with `key`: connected, no longer
/// connecting, and the `"connect"` listeners told.
pub open spec fn accept_key_spec(v: BrowserWalletView, key: Pubkey) -> BrowserWalletView {
    BrowserWalletView {
        public_key: Some(key),
        connecting: false,
        listeners: after_emit(v.listeners, "connect"@),
        ..v
    }
}

/// The state after the wallet answered a disconnect request: when it
/// confirmed, no key, and the `"disconnect"` listeners told; otherwise as
/// before.
pub open spec fn finish_disconnect_spec(v: BrowserWalletView, confirmed: bool) -> BrowserWalletView {
    if confirmed {
        BrowserWalletView { public_key: None, listeners: after_emit(v.listeners, "disconnect"@), ..v }
    } else {
        v
    }
}

impl BrowserWallet {
    /// A wallet of the given kind, not connected, not connecting, with no
    /// listeners.
    pub fn new(name: Wallet) -> (r: Self)
        ensures
            r@ == (BrowserWalletView { name, public_key: None, connecting: false, listeners: Listeners::empty() }),
    {
        let r = BrowserWallet { name, public_key: None, connecting: false, emitter: new_emitter() };
        assert(r@.listeners =~= Listeners::empty());
        r
    }

    /// The kind of wallet.
    pub fn name(&self) -> (r: Wallet)
        ensures
            r == self@.name,
    {
        self.name
    }

    /// First step of `connect`: refuses when a connection is under way,
    /// otherwise marks the wallet as connecting and asks for a sign-in. A
    /// wallet that is not connecting must be one that can sign in (Phantom).
    pub fn begin_connect(&mut self) -> (r: ConnectStart)
        requires
            old(self)@.connecting || old(self)@.name == Wallet::Phantom,
        ensures
            (final(self)@, r) == begin_connect_spec(old(self)@),
    {
        if self.connecting {
            return ConnectStart::Busy;
        }
        self.connecting = true;
        ConnectStart::SignIn
    }

    /// Records the key of a wallet that signed in: the wallet is connected,
    /// no longer connecting, and its `"connect"` listeners hear of the key.
    pub fn accept_public_key(&mut self, key: Pubkey) -> (r: bool)
        ensures
            r,
            final(self)@ == accept_key_spec(old(self)@, key),
    {
        self.public_key = Some(key);
        self.emit_connect(key);
        self.connecting = false;
        !self.connecting
    }

    /// Last step of `connect`, with the wallet's reply. A reply without a key
    /// changes nothing (the wallet stays connecting) and the answer is whether
    /// the wallet is not connecting. A key is parsed: when it parses, the
    /// wallet takes it (as `accept_public_key` does) and the answer is `true`;
    /// when it does not, the parse error comes back and nothing changes.
    pub fn finish_connect(&mut self, reply: SignInReply) -> (r: Result<bool, PubkeyError>)
        ensures
            match reply {
                SignInReply::Key(text) => match parse_pubkey(text@) {
                    Ok(key) => r == Ok::<bool, PubkeyError>(true) && final(self)@ == accept_key_spec(old(self)@, key),
                    Err(e) => r == Err::<bool, PubkeyError>(e) && final(self)@ == old(self)@,
                },
                _ => r == Ok::<bool, PubkeyError>(!old(self)@.connecting) && final(self)@ == old(self)@,
            },
    {
        match reply {
            SignInReply::Key(text) => match pubkey_from_str(text.as_str()) {
                Ok(key) => Ok(self.accept_public_key(key)),
                Err(e) => Err(e),
            },
            _ => Ok(!self.connecting),
        }
    }

    /// Last step of `disconnect` (only a Phantom wallet can be asked): when
    /// the wallet confirmed, it forgets its key and its `"disconnect"`
    /// listeners hear of it. The answer is whether it confirmed.
    pub fn finish_disconnect(&mut self, confirmed: bool) -> (r: bool)
        requires
            old(self)@.name == Wallet::Phantom,
        ensures
            r == confirmed,
            final(self)@ == finish_disconnect_spec(old(self)@, confirmed),
    {
        if confirmed {
            self.public_key = None;
            self.emit_disconnect();
        }
        confirmed
    }
}

impl WalletAdapter for BrowserWallet {
    open spec fn spec_public_key(&self) -> Option<Pubkey> {
        self@.public_key
    }

    open spec fn spec_connecting(&self) -> bool {
        self@.connecting
    }

    fn public_key(&self) -> (r: Option<Pubkey>)
        ensures
            r == self@.public_key,
    {
        self.public_key
    }

    fn connecting(&self) -> (r: bool)
        ensures
            r == self@.connecting,
    {
        self.connecting
    }
}

impl WalletAdapterEvents for BrowserWallet {
    /// Tells the `"connect"` listeners the key.
    fn emit_connect(&mut self, public_key: Pubkey)
        ensures
            final(self)@ == (BrowserWalletView { listeners: after_emit(old(self)@.listeners, "connect"@), ..old(self)@ }),
    {
        emit_pubkey(&mut self.emitter, "connect", public_key);
    }

    /// Tells the `"disconnect"` listeners.
    fn emit_disconnect(&mut self)
        ensures
            final(self)@ == (BrowserWalletView { listeners: after_emit(old(self)@.listeners, "disconnect"@), ..old(self)@ }),
    {
        emit_unit(&mut self.emitter, "disconnect");
    }
}

/// What a local wallet is: its keypair and that keypair's public key, the
/// key it publishes while connected, and the listeners of its emitter.
pub struct LocalWalletView {
    pub keypair: Keypair,
    pub signer: Pubkey,
    pub public_key: Option<Pubkey>,
    pub listeners: Listeners,
}

/// A wallet backed by a keypair held by the game itself.
pub struct LocalWallet {
    #[allow(dead_code)]
    keypair: Keypair,
    signer: Pubkey,
    pubkey: Option<Pubkey>,
    pub emitter: EventEmitter,
}

impl View for LocalWallet {
    type V = LocalWalletView;

    closed spec fn view(&self) -> LocalWalletView {
        LocalWalletView {
            keypair: self.keypair,
            signer: self.signer,
            public_key: self.pubkey,
            listeners: emitter_listeners(self.emitter),
        }
    }
}

/// A local wallet after `connect`: it publishes its keypair's key and its
/// `"connect"` listeners are told.
pub open spec fn local_connect_spec(v: LocalWalletView) -> LocalWalletView {
    LocalWalletView {
        public_key: Some(v.signer),
        listeners: after_emit(v.listeners, "connect"@),
        ..v
    }
}

/// A local wallet after `disconnect`: it publishes nothing and its
/// `"disconnect"` listeners are told.
pub open spec fn local_disconnect_spec(v: LocalWalletView) -> LocalWalletView {
    LocalWalletView { public_key: None, listeners: after_emit(v.listeners, "disconnect"@), ..v }
}

impl LocalWallet {
    /// A wallet for the keypair: not connected, with no listeners.
    pub fn from_keypair(keypair: Keypair) -> (r: Self)
        ensures
            r@ == (LocalWalletView {
                keypair,
                signer: keypair_public_key(keypair),
                public_key: None,
                listeners: Listeners::empty(),
            }),
    {
        let signer = keypair_pubkey(&keypair);
        let r = LocalWallet { keypair, signer, pubkey: None, emitter: new_emitter() };
        assert(r@.listeners =~= Listeners::empty());
        r
    }

    /// The public key of the wallet's keypair, connected or not.
    pub fn pubkey(&self) -> (r: Pubkey)
        ensures
            r == self@.signer,
    {
        self.signer
    }

    /// The wallet as debugging output shows it: its published key only,
    /// never the keypair.
    pub fn debug_string(&self) -> (r: String)
        ensures
            r@ == debug_struct_spec("LocalWallet"@, "pubkey"@, self@.public_key),
    {
        debug_struct_text("LocalWallet", "pubkey", &self.pubkey)
    }

    /// Publishes the keypair's public key and tells the `"connect"`
    /// listeners. Always succeeds.
    pub fn connect(&mut self) -> (r: bool)
        ensures
            r,
            final(self)@ == local_connect_spec(old(self)@),
    {
        let pubkey = self.signer;
        self.pubkey = Some(pubkey);
        self.emit_connect(pubkey);
        true
    }

    /// Forgets the published key and tells the `"disconnect"` listeners.
    /// Always succeeds.
    pub fn disconnect(&mut self) -> (r: bool)
        ensures
            r,
            final(self)@ == local_disconnect_spec(old(self)@),
    {
        self.pubkey = None;
        self.emit_disconnect();
        true
    }
}

impl WalletAdapter for LocalWallet {
    open spec fn spec_public_key(&self) -> Option<Pubkey> {
        self@.public_key
    }

    /// A local wallet never waits on anything.
    open spec fn spec_connecting(&self) -> bool {
        false
    }

    fn public_key(&self) -> (r: Option<Pubkey>) {
        self.pubkey
    }

    fn connecting(&self) -> (r: bool) {
        false
    }
}

impl WalletAdapterEvents for LocalWallet {
    /// Tells the `"connect"` listeners the key.
    fn emit_connect(&mut self, public_key: Pubkey)
        ensures
            final(self)@ == (LocalWalletView { listeners: after_emit(old(self)@.listeners, "connect"@), ..old(self)@ }),
    {
        emit_pubkey(&mut self.emitter, "connect", public_key);
    }

    /// Tells the `"disconnect"` listeners.
    fn emit_disconnect(&mut self)
        ensures
            final(self)@ == (LocalWalletView { listeners: after_emit(old(self)@.listeners, "disconnect"@), ..old(self)@ }),
    {
        emit_unit(&mut self.emitter, "disconnect");
    }
}

/// While a browser wallet is connecting, `connect` is refused and changes
/// nothing, its listeners included.
pub proof fn lemma_connect_refused_while_connecting(v: BrowserWalletView)
    requires
        v.connecting,
    ensures
        begin_connect_spec(v) == (v, ConnectStart::Busy),
{
}

/// A wallet that is not connecting asks to sign in; until the reply comes, a
/// second `connect` is refused. A reply without a key, or a failed request,
/// changes nothing, so the wallet stays connecting, every later `connect` is
/// refused too, and no listener hears of anything.
pub proof fn lemma_failed_sign_in_keeps_connecting(v: BrowserWalletView)
    requires
        !v.connecting,
    ensures
        begin_connect_spec(v).1 == ConnectStart::SignIn,
        begin_connect_spec(v).0.connecting,
        begin_connect_spec(v).0.listeners == v.listeners,
        begin_connect_spec(begin_connect_spec(v).0) == (begin_connect_spec(v).0, ConnectStart::Busy),
{
}

/// Starting to connect changes only the connecting flag: the kind, the key
/// and the listeners stay, so a connected wallet stays connected with its key
/// while it signs in again, and through a failed or keyless reply after it.
pub proof fn lemma_begin_connect_keeps_key(v: BrowserWalletView)
    ensures
        begin_connect_spec(v).0.public_key == v.public_key,
        begin_connect_spec(v).0.name == v.name,
        begin_connect_spec(v).0.listeners == v.listeners,
        begin_connect_spec(v).0.connecting,
        (begin_connect_spec(v).1 == ConnectStart::SignIn) == !v.connecting,
{
}

/// Signing in with a key connects the wallet with that key and tells the
/// `"connect"` listeners; a confirmed disconnect then leaves it unconnected,
/// not connecting, ready to sign in again, with the `"disconnect"` listeners
/// told as well.
pub proof fn lemma_sign_in_then_out(v: BrowserWalletView, key: Pubkey)
    requires
        !v.connecting,
    ensures
        ({
            let signing = begin_connect_spec(v).0;
            let connected = accept_key_spec(signing, key);
            let out = finish_disconnect_spec(connected, true);
            &&& connected.public_key == Some(key)
            &&& !connected.connecting
            &&& connected.name == v.name
            &&& connected.listeners == after_emit(v.listeners, "connect"@)
            &&& out.public_key is None
            &&& !out.connecting
            &&& out.listeners == after_emit(after_emit(v.listeners, "connect"@), "disconnect"@)
            &&& begin_connect_spec(out).1 == ConnectStart::SignIn
        }),
{
}

/// A refused disconnect changes nothing; a confirmed one drops the key and
/// tells the `"disconnect"` listeners, and keeps the rest.
pub proof fn lemma_disconnect_keeps_rest(v: BrowserWalletView, confirmed: bool)
    ensures
        finish_disconnect_spec(v, false) == v,
        finish_disconnect_spec(v, confirmed).name == v.name,
        finish_disconnect_spec(v, confirmed).connecting == v.connecting,
        confirmed ==> finish_disconnect_spec(v, confirmed).public_key is None,
        confirmed ==> finish_disconnect_spec(v, confirmed).listeners == after_emit(v.listeners, "disconnect"@),
{
}

/// A local wallet publishes its keypair's key after `connect`, publishes
/// nothing after `disconnect`, keeps its keypair's key throughout, and tells
/// the matching listeners each time; `disconnect` after `connect` publishes
/// what a fresh wallet does.
pub proof fn lemma_local_connect_disconnect(v: LocalWalletView)
    ensures
        local_connect_spec(v).public_key == Some(v.signer),
        local_connect_spec(local_connect_spec(v)).public_key == local_connect_spec(v).public_key,
        local_disconnect_spec(local_disconnect_spec(v)).public_key is None,
        local_disconnect_spec(local_connect_spec(v)).public_key is None,
        local_disconnect_spec(local_connect_spec(v)).signer == v.signer,
        local_disconnect_spec(local_connect_spec(v)).keypair == v.keypair,
        local_disconnect_spec(local_connect_spec(v)).listeners == after_emit(after_emit(v.listeners, "connect"@), "disconnect"@),
{
}

} // verus!
