use solana_keypair::Keypair;
use solana_pubkey::Pubkey;
use solana_signer::Signer;
use std::str::FromStr;
use std::sync::atomic::{AtomicUsize, Ordering};
use std::sync::Arc;
use tiny_adventure::wallet::{
    BrowserWallet, ConnectStart, LocalWallet, PubkeyError,
    SignInReply, Wallet, WalletAdapter,
};

const SYSTEM_PROGRAM: &str = "11111111111111111111111111111111";
const SOME_KEY: &str = "4Nd1mBQtrMJVYVfKf2PJy9NZUZdTAsp7D4xWLs4gDB4T";

fn connect_with(text: &str) -> (BrowserWallet, Result<bool, PubkeyError>) {
    let mut wallet = BrowserWallet::new(Wallet::Phantom);
    assert_eq!(wallet.begin_connect(), ConnectStart::SignIn);
    let answer = wallet.finish_connect(SignInReply::Key(text.to_string()));
    (wallet, answer)
}

#[test]
fn sign_in_parses_the_public_key() {
    let (wallet, answer) = connect_with(SYSTEM_PROGRAM);
    assert_eq!(answer, Ok(true));
    assert_eq!(wallet.public_key(), Some(Pubkey::default()));

    let (wallet, answer) = connect_with(SOME_KEY);
    assert_eq!(answer, Ok(true));
    let key = wallet.public_key().unwrap();
    assert_eq!(key, Pubkey::from_str(SOME_KEY).unwrap());
    assert_ne!(key, Pubkey::default());
    assert_eq!(key.to_string(), SOME_KEY);
}

#[test]
fn sign_in_refuses_bad_public_keys() {
    let (wallet, answer) = connect_with(&"1".repeat(45));
    assert_eq!(answer, Err(PubkeyError::WrongSize));
    assert!(wallet.connecting());
    assert_eq!(connect_with("0OIl").1, Err(PubkeyError::Invalid));
    assert_eq!(connect_with("abc").1, Err(PubkeyError::WrongSize));
}

#[test]
fn browser_wallet_starts_disconnected() {
    let wallet = BrowserWallet::new(Wallet::Phantom);
    assert_eq!(wallet.name(), Wallet::Phantom);
    assert_eq!(wallet.public_key(), None);
    assert!(!wallet.connecting());
    assert!(!wallet.connected());
}

#[test]
fn browser_wallet_connects_and_disconnects() {
    let mut wallet = BrowserWallet::new(Wallet::Phantom);
    let heard = Arc::new(AtomicUsize::new(0));
    let heard_connect = heard.clone();
    wallet.emitter.on("connect", move |key: Pubkey| {
        assert_eq!(key, Pubkey::default());
        heard_connect.fetch_add(1, Ordering::SeqCst);
    });
    let heard_disconnect = heard.clone();
    wallet.emitter.on("disconnect", move |_: ()| {
        heard_disconnect.fetch_add(10, Ordering::SeqCst);
    });

    assert_eq!(wallet.begin_connect(), ConnectStart::SignIn);
    assert!(wallet.connecting());
    assert_eq!(wallet.begin_connect(), ConnectStart::Busy);
    assert_eq!(wallet.finish_connect(SignInReply::Key(SYSTEM_PROGRAM.to_string())), Ok(true));
    assert!(wallet.connected());
    assert!(!wallet.connecting());
    assert_eq!(wallet.public_key(), Some(Pubkey::default()));
    assert_eq!(heard.load(Ordering::SeqCst), 1);

    assert!(!wallet.finish_disconnect(false));
    assert!(wallet.connected());
    assert!(wallet.finish_disconnect(true));
    assert!(!wallet.connected());
    assert_eq!(heard.load(Ordering::SeqCst), 11);
    assert_eq!(wallet.begin_connect(), ConnectStart::SignIn);
}

#[test]
fn failed_sign_in_leaves_wallet_connecting() {
    let mut wallet = BrowserWallet::new(Wallet::Phantom);
    wallet.emitter.once("connect", |_: Pubkey| {});
    assert_eq!(wallet.begin_connect(), ConnectStart::SignIn);
    assert_eq!(wallet.finish_connect(SignInReply::Rejected), Ok(false));
    assert!(wallet.connecting());
    assert!(!wallet.connected());
    assert_eq!(wallet.begin_connect(), ConnectStart::Busy);
    assert_eq!(wallet.finish_connect(SignInReply::KeyUndefined), Ok(false));
    assert!(wallet.connecting());
    assert_eq!(wallet.emitter.listeners["connect"][0].limit, Some(1));
    assert_eq!(wallet.finish_connect(SignInReply::Key("0OIl".to_string())), Err(PubkeyError::Invalid));
    assert_eq!(wallet.emitter.listeners["connect"][0].limit, Some(1));
    assert_eq!(wallet.finish_connect(SignInReply::Key(SYSTEM_PROGRAM.to_string())), Ok(true));
    assert_eq!(wallet.emitter.listeners["connect"][0].limit, Some(0));
}

#[test]
fn unparsable_key_changes_nothing() {
    let mut wallet = BrowserWallet::new(Wallet::Phantom);
    wallet.begin_connect();
    assert_eq!(
        wallet.finish_connect(SignInReply::Key("not a key".to_string())),
        Err(PubkeyError::Invalid)
    );
    assert!(wallet.connecting());
    assert!(!wallet.connected());
}

#[test]
fn wallet_kinds() {
    assert_eq!(BrowserWallet::new(Wallet::Solflare).name(), Wallet::Solflare);
    assert_eq!(BrowserWallet::new(Wallet::Local).name(), Wallet::Local);
    assert!(!BrowserWallet::new(Wallet::Solflare).connected());
}

#[test]
fn accepting_a_key_connects() {
    let mut wallet = BrowserWallet::new(Wallet::Phantom);
    let key = Pubkey::from_str(SOME_KEY).unwrap();
    assert!(wallet.accept_public_key(key));
    assert_eq!(wallet.public_key(), Some(key));
}

#[test]
fn local_wallet_connects_with_its_keypair() {
    let keypair = Keypair::new();
    let expected = keypair.pubkey();
    let mut wallet = LocalWallet::from_keypair(keypair);
    assert_eq!(wallet.pubkey(), expected);
    assert!(!wallet.connected());
    assert!(!wallet.connecting());
    assert_eq!(wallet.debug_string(), "LocalWallet { pubkey: None }");

    let heard = Arc::new(AtomicUsize::new(0));
    let heard_connect = heard.clone();
    wallet.emitter.on("connect", move |key: Pubkey| {
        assert_eq!(key, expected);
        heard_connect.fetch_add(1, Ordering::SeqCst);
    });

    assert!(wallet.connect());
    assert_eq!(wallet.public_key(), Some(expected));
    assert!(wallet.connected());
    assert!(!wallet.connecting());
    assert_eq!(heard.load(Ordering::SeqCst), 1);
    assert_eq!(wallet.debug_string(), format!("LocalWallet {{ pubkey: Some({:?}) }}", expected));

    assert!(wallet.connect());
    assert_eq!(wallet.public_key(), Some(expected));
    assert!(wallet.disconnect());
    assert_eq!(wallet.public_key(), None);
    assert!(wallet.disconnect());
    assert!(!wallet.connected());
    assert_eq!(wallet.pubkey(), expected);
}

#[test]
fn emitting_counts_listener_limits_down() {
    let mut wallet = LocalWallet::from_keypair(Keypair::new());
    assert!(wallet.emitter.listeners.is_empty());
    let heard = Arc::new(AtomicUsize::new(0));
    let heard_once = heard.clone();
    wallet.emitter.once("connect", move |_: Pubkey| {
        heard_once.fetch_add(1, Ordering::SeqCst);
    });
    let heard_twice = heard.clone();
    wallet.emitter.on_limited("connect", Some(2), move |_: Pubkey| {
        heard_twice.fetch_add(100, Ordering::SeqCst);
    });
    wallet.emitter.on("disconnect", |_: ()| {});

    wallet.connect();
    assert_eq!(heard.load(Ordering::SeqCst), 101);
    let limits: Vec<Option<u64>> = wallet.emitter.listeners["connect"].iter().map(|l| l.limit).collect();
    assert_eq!(limits, vec![Some(0), Some(1)]);

    wallet.connect();
    assert_eq!(heard.load(Ordering::SeqCst), 201);
    let limits: Vec<Option<u64>> = wallet.emitter.listeners["connect"].iter().map(|l| l.limit).collect();
    assert_eq!(limits, vec![Some(0)]);

    wallet.connect();
    assert_eq!(heard.load(Ordering::SeqCst), 201);
    assert!(wallet.emitter.listeners["connect"].is_empty());
    assert_eq!(wallet.emitter.listeners["disconnect"][0].limit, None);

    let mut browser = BrowserWallet::new(Wallet::Phantom);
    browser.emitter.once("disconnect", |_: ()| {});
    browser.finish_disconnect(true);
    assert_eq!(browser.emitter.listeners["disconnect"][0].limit, Some(0));
}
