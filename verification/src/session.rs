//! Operations on handles: what is taken out for an operation, and what is
//! put back when it ends.
//!
//! An operation that has to wait for others in its middle is begun here
//! and finished here. Beginning takes the resources out of their
//! registries and checks the inputs; finishing puts every resource back,
//! whatever the operation came to, and only then gives the result.

use vstd::prelude::*;

use crate::error::NativeError;
use crate::handle::{is_not_found, reply_to, slots_after, Attempt, Op, Registry, Reply, Slot};
use crate::model::{ExistingWalletInfo, WalletType};
use crate::subscribe::{
    internal_find_existing_wallets, internal_get_ton_wallet_info, internal_ton_wallet_subscribe,
    internal_ton_wallet_subscribe_by_address, internal_ton_wallet_subscribe_by_existing, Search,
    Subscription,
};
use crate::wallet::{TonWalletInfo, Wallet};

verus! {

/// An operation under way that holds one resource.
#[derive(Debug)]
pub struct Single<A, R> {
    /// The handle that the resource was taken from.
    pub handle: u64,
    /// The resource, held for this operation alone.
    pub resource: A,
    /// The step that the operation has reached.
    pub run: R,
}

/// An operation under way that holds two resources.
#[derive(Debug)]
pub struct Pair<A, B, R> {
    pub first_handle: u64,
    pub first: A,
    pub second_handle: u64,
    pub second: B,
    /// The step that the operation has reached.
    pub run: R,
}

/// Whether `r` answers the taking of one resource for an operation whose
/// first step is described by `begins`: a session with the resource and a
/// first step, [`Attempt::Wait`] for a held handle, or the "not found"
/// error.
pub open spec fn begins_single<A, R>(
    r: Attempt<Result<Single<A, R>, NativeError>>,
    before: Registry<A>,
    after: Registry<A>,
    handle: u64,
    begins: spec_fn(A, R) -> bool,
) -> bool {
    &&& after.kind() == before.kind()
    &&& after@ == slots_after(before@, Op::<A>::Acquire(handle))
    &&& match reply_to(before@, Op::<A>::Acquire(handle)) {
        Reply::Granted(resource) => r matches Attempt::Done(Ok(session)) && session.handle == handle
            && session.resource == resource && begins(resource, session.run),
        Reply::Wait => r is Wait,
        _ => is_not_found(r, before.kind()),
    }
}

/// Begins a subscription by public key and kind of contract: takes the
/// transport out and checks the inputs as
/// [`internal_ton_wallet_subscribe`] does.
pub fn ton_wallet_subscribe<T>(
    transports: &mut Registry<T>,
    transport: u64,
    port: i64,
    workchain: i8,
    public_key: &str,
    contract: Result<WalletType, String>,
) -> (r: Attempt<Result<Single<T, Subscription>, NativeError>>)
    ensures
        begins_single(
            r,
            *old(transports),
            *final(transports),
            transport,
            |t: T, run: Subscription|
                call_ensures(
                    internal_ton_wallet_subscribe,
                    (port, workchain, public_key, contract),
                    run,
                ),
        ),
{
    match transports.acquire(transport) {
        Attempt::Done(Ok(resource)) => Attempt::Done(
            Ok(
                Single {
                    handle: transport,
                    resource,
                    run: internal_ton_wallet_subscribe(port, workchain, public_key, contract),
                },
            ),
        ),
        Attempt::Done(Err(e)) => Attempt::Done(Err(e)),
        Attempt::Wait => Attempt::Wait,
    }
}

/// Whether `r` answers the taking of two resources for an operation whose
/// first step is described by `begins`: both are taken or neither, and the
/// answers are those of [`acquire_pair`].
pub open spec fn begins_pair<A, B, R>(
    r: Attempt<Result<Pair<A, B, R>, NativeError>>,
    first_before: Registry<A>,
    first_after: Registry<A>,
    first_handle: u64,
    second_before: Registry<B>,
    second_after: Registry<B>,
    second_handle: u64,
    begins: spec_fn(A, R) -> bool,
) -> bool {
    let a = reply_to(first_before@, Op::<A>::Acquire(first_handle));
    let b = reply_to(second_before@, Op::<B>::Acquire(second_handle));
    &&& first_after.kind() == first_before.kind()
    &&& second_after.kind() == second_before.kind()
    &&& if a is Granted && b is Granted {
        &&& r matches Attempt::Done(Ok(session))
        &&& r->Done_0->Ok_0.first_handle == first_handle
        &&& r->Done_0->Ok_0.second_handle == second_handle
        &&& r->Done_0->Ok_0.first == a->Granted_0
        &&& r->Done_0->Ok_0.second == b->Granted_0
        &&& begins(a->Granted_0, r->Done_0->Ok_0.run)
        &&& first_after@ == slots_after(first_before@, Op::<A>::Acquire(first_handle))
        &&& second_after@ == slots_after(second_before@, Op::<B>::Acquire(second_handle))
    } else {
        &&& first_after@ == first_before@
        &&& second_after@ == second_before@
        &&& if a is Wait {
            r is Wait
        } else if a is NotFound {
            is_not_found(r, first_before.kind())
        } else if b is Wait {
            r is Wait
        } else {
            is_not_found(r, second_before.kind())
        }
    }
}

/// Begins a subscription by address: takes the transport out and checks
/// the inputs as [`internal_ton_wallet_subscribe_by_address`] does.
pub fn ton_wallet_subscribe_by_address<T>(
    transports: &mut Registry<T>,
    transport: u64,
    port: i64,
    address: Result<String, String>,
) -> (r: Attempt<Result<Single<T, Subscription>, NativeError>>)
    ensures
        begins_single(
            r,
            *old(transports),
            *final(transports),
            transport,
            |t: T, run: Subscription|
                call_ensures(internal_ton_wallet_subscribe_by_address, (port, address), run),
        ),
{
    match transports.acquire(transport) {
        Attempt::Done(Ok(resource)) => Attempt::Done(
            Ok(
                Single {
                    handle: transport,
                    resource,
                    run: internal_ton_wallet_subscribe_by_address(port, address),
                },
            ),
        ),
        Attempt::Done(Err(e)) => Attempt::Done(Err(e)),
        Attempt::Wait => Attempt::Wait,
    }
}

/// Begins a subscription to a wallet that was found before: takes the
/// transport out and checks the inputs as
/// [`internal_ton_wallet_subscribe_by_existing`] does.
pub fn ton_wallet_subscribe_by_existing<T>(
    transports: &mut Registry<T>,
    transport: u64,
    port: i64,
    existing_wallet: Result<ExistingWalletInfo, String>,
) -> (r: Attempt<Result<Single<T, Subscription>, NativeError>>)
    ensures
        begins_single(
            r,
            *old(transports),
            *final(transports),
            transport,
            |t: T, run: Subscription|
                call_ensures(
                    internal_ton_wallet_subscribe_by_existing,
                    (port, existing_wallet),
                    run,
                ),
        ),
{
    match transports.acquire(transport) {
        Attempt::Done(Ok(resource)) => Attempt::Done(
            Ok(
                Single {
                    handle: transport,
                    resource,
                    run: internal_ton_wallet_subscribe_by_existing(port, existing_wallet),
                },
            ),
        ),
        Attempt::Done(Err(e)) => Attempt::Done(Err(e)),
        Attempt::Wait => Attempt::Wait,
    }
}

/// Begins a look at the wallet at an address: takes the transport out and
/// checks the inputs as [`internal_get_ton_wallet_info`] does.
pub fn get_ton_wallet_info<T>(
    transports: &mut Registry<T>,
    transport: u64,
    address: Result<String, String>,
) -> (r: Attempt<Result<Single<T, Subscription>, NativeError>>)
    ensures
        begins_single(
            r,
            *old(transports),
            *final(transports),
            transport,
            |t: T, run: Subscription| call_ensures(internal_get_ton_wallet_info, (address,), run),
        ),
{
    match transports.acquire(transport) {
        Attempt::Done(Ok(resource)) => Attempt::Done(
            Ok(Single { handle: transport, resource, run: internal_get_ton_wallet_info(address) }),
        ),
        Attempt::Done(Err(e)) => Attempt::Done(Err(e)),
        Attempt::Wait => Attempt::Wait,
    }
}

/// Begins a search for the wallets of a public key: takes the transport
/// out and checks the inputs as [`internal_find_existing_wallets`] does.
pub fn find_existing_wallets<T>(
    transports: &mut Registry<T>,
    transport: u64,
    public_key: &str,
    workchain_id: i8,
) -> (r: Attempt<Result<Single<T, Search>, NativeError>>)
    ensures
        begins_single(
            r,
            *old(transports),
            *final(transports),
            transport,
            |t: T, run: Search|
                call_ensures(internal_find_existing_wallets, (public_key, workchain_id), run),
        ),
{
    match transports.acquire(transport) {
        Attempt::Done(Ok(resource)) => Attempt::Done(
            Ok(
                Single {
                    handle: transport,
                    resource,
                    run: internal_find_existing_wallets(public_key, workchain_id),
                },
            ),
        ),
        Attempt::Done(Err(e)) => Attempt::Done(Err(e)),
        Attempt::Wait => Attempt::Wait,
    }
}

/// Ends a subscription. The transport is put back first. A run that began
/// a session gives the wallet a handle, which is the result; a rejected
/// run gives its error. A run that has not ended gives `None`, and then
/// as after an error there is no new wallet.
pub fn finish_subscription<T>(
    session: Single<T, Subscription>,
    transports: &mut Registry<T>,
    wallets: &mut Registry<Wallet>,
) -> (r: Option<Result<u64, NativeError>>)
    ensures
        final(transports).kind() == old(transports).kind(),
        final(wallets).kind() == old(wallets).kind(),
        final(transports)@ == slots_after(
            old(transports)@,
            Op::Restore(session.handle, session.resource),
        ),
        match session.run {
            Subscription::Subscribed(wallet) => r == Some(
                Ok::<u64, NativeError>(old(wallets)@.len() as u64),
            ) && final(wallets)@ == old(wallets)@.push(Slot::Available(wallet)),
            Subscription::Rejected(e) => r == Some(Err::<u64, NativeError>(e)) && final(wallets)@
                == old(wallets)@,
            _ => r is None && final(wallets)@ == old(wallets)@,
        },
{
    let left = transports.restore(session.handle, session.resource);
    match session.run {
        Subscription::Subscribed(wallet) => Some(Ok(wallets.register(wallet))),
        Subscription::Rejected(e) => Some(Err(e)),
        _ => None,
    }
}

/// Ends a look at a wallet. The transport is put back first. A run that
/// began a session gives the wallet in one piece, as [`Wallet::info`]
/// makes it, and the session is dropped; a rejected run gives its error; a
/// run that has not ended gives `None`.
pub fn finish_wallet_info<T>(session: Single<T, Subscription>, transports: &mut Registry<T>) -> (r:
    Option<Result<TonWalletInfo, NativeError>>)
    ensures
        final(transports).kind() == old(transports).kind(),
        final(transports)@ == slots_after(
            old(transports)@,
            Op::Restore(session.handle, session.resource),
        ),
        match session.run {
            Subscription::Subscribed(wallet) => r matches Some(Ok(info)) && call_ensures(
                Wallet::info,
                (&wallet,),
                info,
            ),
            Subscription::Rejected(e) => r == Some(Err::<TonWalletInfo, NativeError>(e)),
            _ => r is None,
        },
{
    let left = transports.restore(session.handle, session.resource);
    match session.run {
        Subscription::Subscribed(wallet) => Some(Ok(wallet.info())),
        Subscription::Rejected(e) => Some(Err(e)),
        _ => None,
    }
}

/// Ends a search. The transport is put back first. A run that found its
/// wallets gives their list; a rejected run gives its error; a run that
/// has not ended gives `None`.
pub fn finish_search<T>(session: Single<T, Search>, transports: &mut Registry<T>) -> (r: Option<
    Result<Vec<ExistingWalletInfo>, NativeError>,
>)
    ensures
        final(transports).kind() == old(transports).kind(),
        final(transports)@ == slots_after(
            old(transports)@,
            Op::Restore(session.handle, session.resource),
        ),
        match session.run {
            Search::Found(list) => r == Some(Ok::<Vec<ExistingWalletInfo>, NativeError>(list)),
            Search::Rejected(e) => r == Some(Err::<Vec<ExistingWalletInfo>, NativeError>(e)),
            _ => r is None,
        },
{
    let left = transports.restore(session.handle, session.resource);
    match session.run {
        Search::Found(list) => Some(Ok(list)),
        Search::Rejected(e) => Some(Err(e)),
        _ => None,
    }
}

} // verus!
