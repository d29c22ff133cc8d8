use wallet_session::error::{
    ErrorKind, GQL_TRANSPORT_NOT_FOUND, KEY_STORE_NOT_FOUND, TON_WALLET_NOT_FOUND,
    UNSIGNED_MESSAGE_NOT_FOUND,
};
use wallet_session::handle::{acquire_pair, restore_pair, Attempt, Registry, ResourceKind};

fn granted<T>(r: Attempt<Result<T, wallet_session::error::NativeError>>) -> T {
    match r {
        Attempt::Done(Ok(t)) => t,
        Attempt::Done(Err(e)) => panic!("not granted: {}", e.info),
        Attempt::Wait => panic!("not granted: wait"),
    }
}

fn not_found<T>(r: Attempt<Result<T, wallet_session::error::NativeError>>) -> String {
    match r {
        Attempt::Done(Err(e)) => {
            assert_eq!(e.kind, ErrorKind::HandleNotFound);
            e.info
        }
        Attempt::Done(Ok(_)) => panic!("found"),
        Attempt::Wait => panic!("wait"),
    }
}

#[test]
fn handles_count_up_from_zero() {
    let mut r: Registry<String> = Registry::new(ResourceKind::Wallet);
    assert_eq!(r.len(), 0);
    assert_eq!(r.register("a".to_string()), 0);
    assert_eq!(r.register("b".to_string()), 1);
    assert_eq!(r.len(), 2);
}

#[test]
fn acquire_hands_the_resource_out_once() {
    let mut r: Registry<String> = Registry::new(ResourceKind::Wallet);
    let h = r.register("w".to_string());
    assert_eq!(granted(r.acquire(h)), "w");
    assert!(matches!(r.acquire(h), Attempt::Wait));
    assert!(matches!(r.inspect(h), Attempt::Wait));
    assert!(matches!(r.release(h), Attempt::Wait));
}

#[test]
fn restore_makes_the_resource_free_again() {
    let mut r: Registry<String> = Registry::new(ResourceKind::Wallet);
    let h = r.register("w".to_string());
    let w = granted(r.acquire(h));
    assert!(r.restore(h, format!("{}!", w)).is_none());
    assert_eq!(granted(r.acquire(h)), "w!");
}

#[test]
fn restore_is_refused_where_nobody_holds_the_handle() {
    let mut r: Registry<String> = Registry::new(ResourceKind::Wallet);
    let h = r.register("w".to_string());
    assert_eq!(r.restore(h, "x".to_string()), Some("x".to_string()));
    assert_eq!(r.restore(7, "y".to_string()), Some("y".to_string()));
    assert_eq!(granted(r.acquire(h)), "w");
}

#[test]
fn release_is_permanent() {
    let mut r: Registry<String> = Registry::new(ResourceKind::Wallet);
    let h = r.register("w".to_string());
    assert!(matches!(r.release(h), Attempt::Done(Ok(()))));
    for _ in 0..3 {
        assert_eq!(not_found(r.acquire(h)), TON_WALLET_NOT_FOUND);
        assert_eq!(not_found(r.release(h)), TON_WALLET_NOT_FOUND);
        assert_eq!(not_found(r.inspect(h)), TON_WALLET_NOT_FOUND);
        assert_eq!(r.restore(h, "again".to_string()), Some("again".to_string()));
        let other = r.register("other".to_string());
        assert_ne!(other, h);
    }
}

#[test]
fn a_handle_that_was_never_given_out_is_not_found() {
    let mut r: Registry<u8> = Registry::new(ResourceKind::Transport);
    assert_eq!(not_found(r.acquire(0)), GQL_TRANSPORT_NOT_FOUND);
    assert_eq!(not_found(r.acquire(u64::MAX)), GQL_TRANSPORT_NOT_FOUND);
    assert_eq!(not_found(r.release(3)), GQL_TRANSPORT_NOT_FOUND);
}

#[test]
fn not_found_texts_follow_the_sort_of_resource() {
    assert_eq!(ResourceKind::Wallet.not_found().info, TON_WALLET_NOT_FOUND);
    assert_eq!(ResourceKind::Transport.not_found().info, GQL_TRANSPORT_NOT_FOUND);
    assert_eq!(ResourceKind::KeyStore.not_found().info, KEY_STORE_NOT_FOUND);
    assert_eq!(ResourceKind::Message.not_found().info, UNSIGNED_MESSAGE_NOT_FOUND);
    assert_eq!(TON_WALLET_NOT_FOUND, "Ton wallet not found");
}

#[test]
fn handles_are_independent_of_each_other() {
    let mut r: Registry<u32> = Registry::new(ResourceKind::Wallet);
    let a = r.register(1);
    let b = r.register(2);
    assert_eq!(granted(r.acquire(a)), 1);
    assert_eq!(granted(r.acquire(b)), 2);
    assert!(r.restore(b, 20).is_none());
    assert!(matches!(r.acquire(a), Attempt::Wait));
    assert_eq!(granted(r.acquire(b)), 20);
}

#[test]
fn inspect_shows_without_taking() {
    let mut r: Registry<u32> = Registry::new(ResourceKind::Message);
    let h = r.register(5);
    assert!(matches!(r.inspect(h), Attempt::Done(Ok(&5))));
    assert!(matches!(r.inspect(h), Attempt::Done(Ok(&5))));
    assert_eq!(granted(r.acquire(h)), 5);
}

#[test]
fn acquire_pair_takes_both_or_neither() {
    let mut wallets: Registry<u32> = Registry::new(ResourceKind::Wallet);
    let mut transports: Registry<u8> = Registry::new(ResourceKind::Transport);
    let w = wallets.register(10);
    let t = transports.register(20);

    let (a, b) = granted(acquire_pair(&mut wallets, w, &mut transports, t));
    assert_eq!((a, b), (10, 20));
    assert!(matches!(acquire_pair(&mut wallets, w, &mut transports, t), Attempt::Wait));
    restore_pair(&mut wallets, w, a, &mut transports, t, b);

    // The second handle is held: the first one is put back.
    let held = granted(transports.acquire(t));
    assert!(matches!(acquire_pair(&mut wallets, w, &mut transports, t), Attempt::Wait));
    assert_eq!(granted(wallets.acquire(w)), 10);
    assert!(wallets.restore(w, 10).is_none());
    assert!(transports.restore(t, held).is_none());

    // The second handle names nothing: the first one is put back.
    assert_eq!(
        not_found(acquire_pair(&mut wallets, w, &mut transports, 9)),
        GQL_TRANSPORT_NOT_FOUND
    );
    assert_eq!(granted(wallets.acquire(w)), 10);
    assert!(wallets.restore(w, 10).is_none());

    // The first handle answers first.
    assert_eq!(
        not_found(acquire_pair(&mut wallets, 9, &mut transports, 9)),
        TON_WALLET_NOT_FOUND
    );
}
