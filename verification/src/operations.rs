//! The operations on a wallet that change something or wait for others:
//! preparing a message, estimating fees, submitting, refreshing, loading
//! older transactions, handling a block, and letting the wallet go.

use vstd::prelude::*;

use crate::error::{ErrorKind, NativeError, WalletFailure};
use crate::handle::{
    acquire_pair, is_available, is_held, is_not_found, reply_to, resource_of, restore_pair,
    slots_after, Attempt, Op, Registry, Reply, Slot,
};
use crate::model::{BlockRecord, ContractState, Expiration, PendingTransaction, TransactionId};
use crate::prepare::{
    internal_ton_wallet_prepare_confirm_transaction, internal_ton_wallet_prepare_deploy,
    internal_ton_wallet_prepare_deploy_with_multiple_owners, internal_ton_wallet_prepare_transfer,
    Preparation,
};
use crate::session::{begins_pair, begins_single, Pair, Single};
use crate::submit::{
    internal_ton_wallet_estimate_fees, internal_ton_wallet_send, Estimation, Submission,
};
use crate::wallet::{deliveries, Delivery, Wallet, WalletView};

verus! {

/// Begins the preparation of a deployment: takes the wallet out and checks
/// the inputs as [`internal_ton_wallet_prepare_deploy`] does.
pub fn ton_wallet_prepare_deploy<P, A, M>(
    wallets: &mut Registry<Wallet>,
    ton_wallet: u64,
    expiration: Result<Expiration, String>,
) -> (r: Attempt<Result<Single<Wallet, Preparation<P, A, M>>, NativeError>>)
    ensures
        begins_single(
            r,
            *old(wallets),
            *final(wallets),
            ton_wallet,
            |w: Wallet, run: Preparation<P, A, M>|
                call_ensures(internal_ton_wallet_prepare_deploy::<P, A, M>, (expiration,), run),
        ),
{
    match wallets.acquire(ton_wallet) {
        Attempt::Done(Ok(resource)) => Attempt::Done(
            Ok(
                Single {
                    handle: ton_wallet,
                    resource,
                    run: internal_ton_wallet_prepare_deploy(expiration),
                },
            ),
        ),
        Attempt::Done(Err(e)) => Attempt::Done(Err(e)),
        Attempt::Wait => Attempt::Wait,
    }
}

/// Begins the preparation of a deployment with several owners: takes the
/// wallet out and checks the inputs as
/// [`internal_ton_wallet_prepare_deploy_with_multiple_owners`] does.
pub fn ton_wallet_prepare_deploy_with_multiple_owners<P, A, M>(
    wallets: &mut Registry<Wallet>,
    ton_wallet: u64,
    expiration: Result<Expiration, String>,
    custodians: &str,
    req_confirms: u8,
) -> (r: Attempt<Result<Single<Wallet, Preparation<P, A, M>>, NativeError>>)
    ensures
        begins_single(
            r,
            *old(wallets),
            *final(wallets),
            ton_wallet,
            |w: Wallet, run: Preparation<P, A, M>|
                call_ensures(
                    internal_ton_wallet_prepare_deploy_with_multiple_owners::<P, A, M>,
                    (expiration, custodians, req_confirms),
                    run,
                ),
        ),
{
    match wallets.acquire(ton_wallet) {
        Attempt::Done(Ok(resource)) => Attempt::Done(
            Ok(
                Single {
                    handle: ton_wallet,
                    resource,
                    run: internal_ton_wallet_prepare_deploy_with_multiple_owners(
                        expiration,
                        custodians,
                        req_confirms,
                    ),
                },
            ),
        ),
        Attempt::Done(Err(e)) => Attempt::Done(Err(e)),
        Attempt::Wait => Attempt::Wait,
    }
}

/// Begins the preparation of a transfer: takes the wallet and the
/// transport out, both or neither, and checks the inputs as
/// [`internal_ton_wallet_prepare_transfer`] does.
pub fn ton_wallet_prepare_transfer<T, P, A, M>(
    wallets: &mut Registry<Wallet>,
    transports: &mut Registry<T>,
    ton_wallet: u64,
    transport: u64,
    public_key: &str,
    destination: Result<String, String>,
    amount: u64,
    body: Option<Result<P, String>>,
    expiration: Result<Expiration, String>,
) -> (r: Attempt<Result<Pair<Wallet, T, Preparation<P, A, M>>, NativeError>>)
    ensures
        begins_pair(
            r,
            *old(wallets),
            *final(wallets),
            ton_wallet,
            *old(transports),
            *final(transports),
            transport,
            |w: Wallet, run: Preparation<P, A, M>|
                call_ensures(
                    internal_ton_wallet_prepare_transfer::<P, A, M>,
                    (&w, public_key, destination, amount, body, expiration),
                    run,
                ),
        ),
{
    match acquire_pair(wallets, ton_wallet, transports, transport) {
        Attempt::Done(Ok((first, second))) => {
            let run = internal_ton_wallet_prepare_transfer(
                &first,
                public_key,
                destination,
                amount,
                body,
                expiration,
            );
            Attempt::Done(
                Ok(Pair { first_handle: ton_wallet, first, second_handle: transport, second, run }),
            )
        },
        Attempt::Done(Err(e)) => Attempt::Done(Err(e)),
        Attempt::Wait => Attempt::Wait,
    }
}

/// Begins the preparation of the confirmation of a multisig proposal:
/// takes the wallet and the transport out, both or neither, and checks the
/// inputs as [`internal_ton_wallet_prepare_confirm_transaction`] does.
pub fn ton_wallet_prepare_confirm_transaction<T, P, A, M>(
    wallets: &mut Registry<Wallet>,
    transports: &mut Registry<T>,
    ton_wallet: u64,
    transport: u64,
    public_key: &str,
    transaction_id: &str,
    expiration: Result<Expiration, String>,
) -> (r: Attempt<Result<Pair<Wallet, T, Preparation<P, A, M>>, NativeError>>)
    ensures
        begins_pair(
            r,
            *old(wallets),
            *final(wallets),
            ton_wallet,
            *old(transports),
            *final(transports),
            transport,
            |w: Wallet, run: Preparation<P, A, M>|
                call_ensures(
                    internal_ton_wallet_prepare_confirm_transaction::<P, A, M>,
                    (&w, public_key, transaction_id, expiration),
                    run,
                ),
        ),
{
    match acquire_pair(wallets, ton_wallet, transports, transport) {
        Attempt::Done(Ok((first, second))) => {
            let run = internal_ton_wallet_prepare_confirm_transaction(
                &first,
                public_key,
                transaction_id,
                expiration,
            );
            Attempt::Done(
                Ok(Pair { first_handle: ton_wallet, first, second_handle: transport, second, run }),
            )
        },
        Attempt::Done(Err(e)) => Attempt::Done(Err(e)),
        Attempt::Wait => Attempt::Wait,
    }
}

/// What the end of a preparation gives, and what it does to the messages:
/// a run that is done gives its message a handle, which is the result; a
/// rejected run gives its error and no handle is made; a run that has not
/// ended gives `None`, and no handle is made either.
pub open spec fn ends_preparation<P, A, M>(
    run: Preparation<P, A, M>,
    before: Seq<Slot<M>>,
    after: Seq<Slot<M>>,
    r: Option<Result<u64, NativeError>>,
) -> bool {
    match run {
        Preparation::Done(message) => r == Some(Ok::<u64, NativeError>(before.len() as u64))
            && after == before.push(Slot::Available(message)),
        Preparation::Rejected(e) => r == Some(Err::<u64, NativeError>(e)) && after == before,
        _ => r is None && after == before,
    }
}

/// Ends a preparation that held the wallet alone. The wallet is put back
/// first, as it was taken; then the run gives what [`ends_preparation`]
/// says.
pub fn finish_preparation<P, A, M>(
    session: Single<Wallet, Preparation<P, A, M>>,
    wallets: &mut Registry<Wallet>,
    messages: &mut Registry<M>,
) -> (r: Option<Result<u64, NativeError>>)
    ensures
        final(wallets).kind() == old(wallets).kind(),
        final(messages).kind() == old(messages).kind(),
        final(wallets)@ == slots_after(
            old(wallets)@,
            Op::Restore(session.handle, session.resource),
        ),
        ends_preparation(session.run, old(messages)@, final(messages)@, r),
{
    let left = wallets.restore(session.handle, session.resource);
    match session.run {
        Preparation::Done(message) => Some(Ok(messages.register(message))),
        Preparation::Rejected(e) => Some(Err(e)),
        _ => None,
    }
}

/// Ends a preparation that held the wallet and the transport. Both are
/// put back first, as they were taken; then the run gives what
/// [`ends_preparation`] says.
pub fn finish_preparation_with_transport<T, P, A, M>(
    session: Pair<Wallet, T, Preparation<P, A, M>>,
    wallets: &mut Registry<Wallet>,
    transports: &mut Registry<T>,
    messages: &mut Registry<M>,
) -> (r: Option<Result<u64, NativeError>>)
    ensures
        final(wallets).kind() == old(wallets).kind(),
        final(transports).kind() == old(transports).kind(),
        final(messages).kind() == old(messages).kind(),
        final(wallets)@ == slots_after(
            old(wallets)@,
            Op::Restore(session.first_handle, session.first),
        ),
        final(transports)@ == slots_after(
            old(transports)@,
            Op::Restore(session.second_handle, session.second),
        ),
        ends_preparation(session.run, old(messages)@, final(messages)@, r),
{
    restore_pair(
        wallets,
        session.first_handle,
        session.first,
        transports,
        session.second_handle,
        session.second,
    );
    match session.run {
        Preparation::Done(message) => Some(Ok(messages.register(message))),
        Preparation::Rejected(e) => Some(Err(e)),
        _ => None,
    }
}

/// Begins an estimation of fees: takes the wallet out, looks at the
/// message without taking it out, and copies it as
/// [`internal_ton_wallet_estimate_fees`] does.
///
/// The wallet's answer comes first. Where the message names no resource
/// or is held, the wallet is put back before that is answered, so that
/// nothing changes.
pub fn ton_wallet_estimate_fees<M: Clone, S>(
    wallets: &mut Registry<Wallet>,
    messages: &Registry<M>,
    ton_wallet: u64,
    message: u64,
) -> (r: Attempt<Result<Single<Wallet, Estimation<M, S>>, NativeError>>)
    ensures
        final(wallets).kind() == old(wallets).kind(),
        ({
            let a = reply_to(old(wallets)@, Op::<Wallet>::Acquire(ton_wallet));
            let m = reply_to(messages@, Op::<M>::Inspect(message));
            if a is Granted && m is Shown {
                &&& r matches Attempt::Done(Ok(session))
                &&& r->Done_0->Ok_0.handle == ton_wallet
                &&& r->Done_0->Ok_0.resource == a->Granted_0
                &&& call_ensures(
                    internal_ton_wallet_estimate_fees::<M, S>,
                    (&m->Shown_0,),
                    r->Done_0->Ok_0.run,
                )
                &&& final(wallets)@ == slots_after(old(wallets)@, Op::<Wallet>::Acquire(ton_wallet))
            } else {
                &&& final(wallets)@ == old(wallets)@
                &&& if a is Wait {
                    r is Wait
                } else if a is NotFound {
                    is_not_found(r, old(wallets).kind())
                } else if m is Wait {
                    r is Wait
                } else {
                    is_not_found(r, messages.kind())
                }
            }
        }),
{
    let wallet = match wallets.acquire(ton_wallet) {
        Attempt::Done(Ok(wallet)) => wallet,
        Attempt::Done(Err(e)) => {
            return Attempt::Done(Err(e));
        },
        Attempt::Wait => {
            return Attempt::Wait;
        },
    };
    match messages.inspect(message) {
        Attempt::Done(Ok(unsigned)) => Attempt::Done(
            Ok(
                Single {
                    handle: ton_wallet,
                    resource: wallet,
                    run: internal_ton_wallet_estimate_fees(unsigned),
                },
            ),
        ),
        Attempt::Done(Err(e)) => {
            let left = wallets.restore(ton_wallet, wallet);
            assert(wallets@ =~= old(wallets)@);
            Attempt::Done(Err(e))
        },
        Attempt::Wait => {
            let left = wallets.restore(ton_wallet, wallet);
            assert(wallets@ =~= old(wallets)@);
            Attempt::Wait
        },
    }
}

/// Ends an estimation of fees. The wallet is put back first, as it was
/// taken; then a run that is done gives its fee, a rejected run its error,
/// and a run that has not ended `None`.
pub fn finish_estimation<M, S>(
    session: Single<Wallet, Estimation<M, S>>,
    wallets: &mut Registry<Wallet>,
) -> (r: Option<Result<u64, NativeError>>)
    ensures
        final(wallets).kind() == old(wallets).kind(),
        final(wallets)@ == slots_after(
            old(wallets)@,
            Op::Restore(session.handle, session.resource),
        ),
        match session.run {
            Estimation::Done(fee) => r == Some(Ok::<u64, NativeError>(fee)),
            Estimation::Rejected(e) => r == Some(Err::<u64, NativeError>(e)),
            _ => r is None,
        },
{
    let left = wallets.restore(session.handle, session.resource);
    session.run.outcome()
}

/// Begins a submission: takes the wallet and the key store out, both or
/// neither, looks at the message without taking it out, and begins as
/// [`internal_ton_wallet_send`] does.
///
/// The answers of the wallet and the key store come first, as in
/// [`acquire_pair`]. Where the message names no resource or is held, both
/// are put back before that is answered, so that nothing changes.
pub fn ton_wallet_send<K, M: Clone, S, E, D>(
    wallets: &mut Registry<Wallet>,
    keystores: &mut Registry<K>,
    messages: &Registry<M>,
    ton_wallet: u64,
    keystore: u64,
    message: u64,
    encrypted: Option<E>,
    derived: Option<D>,
) -> (r: Attempt<Result<Pair<Wallet, K, Submission<M, S, E, D>>, NativeError>>)
    ensures
        final(wallets).kind() == old(wallets).kind(),
        final(keystores).kind() == old(keystores).kind(),
        ({
            let a = reply_to(old(wallets)@, Op::<Wallet>::Acquire(ton_wallet));
            let b = reply_to(old(keystores)@, Op::<K>::Acquire(keystore));
            let m = reply_to(messages@, Op::<M>::Inspect(message));
            if a is Granted && b is Granted && m is Shown {
                &&& r matches Attempt::Done(Ok(session))
                &&& r->Done_0->Ok_0.first_handle == ton_wallet
                &&& r->Done_0->Ok_0.second_handle == keystore
                &&& r->Done_0->Ok_0.first == a->Granted_0
                &&& r->Done_0->Ok_0.second == b->Granted_0
                &&& call_ensures(
                    internal_ton_wallet_send::<M, S, E, D>,
                    (&m->Shown_0, encrypted, derived),
                    r->Done_0->Ok_0.run,
                )
                &&& final(wallets)@ == slots_after(old(wallets)@, Op::<Wallet>::Acquire(ton_wallet))
                &&& final(keystores)@ == slots_after(old(keystores)@, Op::<K>::Acquire(keystore))
            } else {
                &&& final(wallets)@ == old(wallets)@
                &&& final(keystores)@ == old(keystores)@
                &&& if a is Wait {
                    r is Wait
                } else if a is NotFound {
                    is_not_found(r, old(wallets).kind())
                } else if b is Wait {
                    r is Wait
                } else if b is NotFound {
                    is_not_found(r, old(keystores).kind())
                } else if m is Wait {
                    r is Wait
                } else {
                    is_not_found(r, messages.kind())
                }
            }
        }),
{
    let (wallet, store) = match acquire_pair(wallets, ton_wallet, keystores, keystore) {
        Attempt::Done(Ok(pair)) => pair,
        Attempt::Done(Err(e)) => {
            return Attempt::Done(Err(e));
        },
        Attempt::Wait => {
            return Attempt::Wait;
        },
    };
    match messages.inspect(message) {
        Attempt::Done(Ok(unsigned)) => Attempt::Done(
            Ok(
                Pair {
                    first_handle: ton_wallet,
                    first: wallet,
                    second_handle: keystore,
                    second: store,
                    run: internal_ton_wallet_send(unsigned, encrypted, derived),
                },
            ),
        ),
        Attempt::Done(Err(e)) => {
            restore_pair(wallets, ton_wallet, wallet, keystores, keystore, store);
            assert(wallets@ =~= old(wallets)@);
            assert(keystores@ =~= old(keystores)@);
            Attempt::Done(Err(e))
        },
        Attempt::Wait => {
            restore_pair(wallets, ton_wallet, wallet, keystores, keystore, store);
            assert(wallets@ =~= old(wallets)@);
            assert(keystores@ =~= old(keystores)@);
            Attempt::Wait
        },
    }
}

/// Ends a submission. The wallet, as the run left it, and the key store
/// are put back first; then a run that is done gives its message in
/// flight, a rejected run its error, and a run that has not ended `None`.
pub fn finish_send<K, M, S, E, D>(
    session: Pair<Wallet, K, Submission<M, S, E, D>>,
    wallets: &mut Registry<Wallet>,
    keystores: &mut Registry<K>,
) -> (r: Option<Result<PendingTransaction, NativeError>>)
    ensures
        final(wallets).kind() == old(wallets).kind(),
        final(keystores).kind() == old(keystores).kind(),
        final(wallets)@ == slots_after(
            old(wallets)@,
            Op::Restore(session.first_handle, session.first),
        ),
        final(keystores)@ == slots_after(
            old(keystores)@,
            Op::Restore(session.second_handle, session.second),
        ),
        match session.run {
            Submission::Done(pending) => r == Some(Ok::<PendingTransaction, NativeError>(pending)),
            Submission::Rejected(e) => r == Some(Err::<PendingTransaction, NativeError>(e)),
            _ => r is None,
        },
{
    restore_pair(
        wallets,
        session.first_handle,
        session.first,
        keystores,
        session.second_handle,
        session.second,
    );
    session.run.outcome()
}

/// Whether a registry got a wallet back behind a held handle: the handle
/// is free again with a wallet whose value is `view`, and no other handle
/// changed. Where nobody held the handle, nothing changed.
pub open spec fn gets_back(
    before: Seq<Slot<Wallet>>,
    after: Seq<Slot<Wallet>>,
    handle: u64,
    view: WalletView,
) -> bool {
    if is_held(before, handle) {
        &&& is_available(after, handle)
        &&& resource_of(after, handle)@ == view
        &&& after == before.update(handle as int, after[handle as int])
    } else {
        after == before
    }
}

/// Begins a refresh: takes the wallet out.
pub fn ton_wallet_refresh(wallets: &mut Registry<Wallet>, ton_wallet: u64) -> (r: Attempt<
    Result<Single<Wallet, ()>, NativeError>,
>)
    ensures
        begins_single(r, *old(wallets), *final(wallets), ton_wallet, |w: Wallet, run: ()| true),
{
    match wallets.acquire(ton_wallet) {
        Attempt::Done(Ok(resource)) => Attempt::Done(
            Ok(Single { handle: ton_wallet, resource, run: () }),
        ),
        Attempt::Done(Err(e)) => Attempt::Done(Err(e)),
        Attempt::Wait => Attempt::Wait,
    }
}

/// What a refresh makes of a wallet: with a fresh snapshot, the contract
/// state is replaced as a whole, the listener is told of a change, and
/// the result is zero; where the refresh failed, the wallet stays as it
/// was, nobody is told anything, and the result is a wallet error.
pub fn internal_ton_wallet_refresh(
    ton_wallet: &mut Wallet,
    refreshed: Result<ContractState, String>,
) -> (r: (Result<u64, NativeError>, Vec<Delivery>))
    ensures
        ({
            let before = old(ton_wallet)@;
            let after = final(ton_wallet)@;
            match refreshed {
                Ok(state) => r.0 == Ok::<u64, NativeError>(0) && after == before.after_refresh(state)
                    && r.1@ == deliveries(before.listener, before.change_notes(after)),
                Err(text) => r.0 matches Err(e) && e@.kind == ErrorKind::WalletProtocolError(
                    WalletFailure::Plain,
                ) && e@.info == text@ && after == before && r.1@.len() == 0,
            }
        }),
{
    match refreshed {
        Ok(state) => {
            let told = ton_wallet.refresh(state);
            (Ok(0), told)
        },
        Err(text) => (
            Err(NativeError { kind: ErrorKind::WalletProtocolError(WalletFailure::Plain), info: text }),
            Vec::new(),
        ),
    }
}

/// Ends a refresh: does to the wallet what
/// [`internal_ton_wallet_refresh`] says, puts the wallet back, and gives
/// the result with what is to be told to the listener.
pub fn finish_refresh(
    session: Single<Wallet, ()>,
    wallets: &mut Registry<Wallet>,
    refreshed: Result<ContractState, String>,
) -> (r: (Result<u64, NativeError>, Vec<Delivery>))
    ensures
        final(wallets).kind() == old(wallets).kind(),
        ({
            let before = session.resource@;
            match refreshed {
                Ok(state) => r.0 == Ok::<u64, NativeError>(0) && gets_back(
                    old(wallets)@,
                    final(wallets)@,
                    session.handle,
                    before.after_refresh(state),
                ) && r.1@ == deliveries(
                    before.listener,
                    before.change_notes(before.after_refresh(state)),
                ),
                Err(text) => r.0 matches Err(e) && e@.kind == ErrorKind::WalletProtocolError(
                    WalletFailure::Plain,
                ) && e@.info == text@ && gets_back(
                    old(wallets)@,
                    final(wallets)@,
                    session.handle,
                    before,
                ) && r.1@.len() == 0,
            }
        }),
{
    let mut wallet = session.resource;
    let r = internal_ton_wallet_refresh(&mut wallet, refreshed);
    let left = wallets.restore(session.handle, wallet);
    r
}

/// Checks the inputs of a load of older transactions: the transaction to
/// start from must have been read, else that is a conversion error.
pub fn internal_ton_wallet_preload_transactions(from: Result<TransactionId, String>) -> (r: Result<
    TransactionId,
    NativeError,
>)
    ensures
        match from {
            Ok(id) => r == Ok::<TransactionId, NativeError>(id),
            Err(text) => r matches Err(e) && e@.kind == ErrorKind::ConversionError && e@.info
                == text@,
        },
{
    match from {
        Ok(id) => Ok(id),
        Err(text) => Err(NativeError { kind: ErrorKind::ConversionError, info: text }),
    }
}

/// Begins a load of older transactions: takes the wallet out and checks
/// the inputs as [`internal_ton_wallet_preload_transactions`] does.
pub fn ton_wallet_preload_transactions(
    wallets: &mut Registry<Wallet>,
    ton_wallet: u64,
    from: Result<TransactionId, String>,
) -> (r: Attempt<Result<Single<Wallet, Result<TransactionId, NativeError>>, NativeError>>)
    ensures
        begins_single(
            r,
            *old(wallets),
            *final(wallets),
            ton_wallet,
            |w: Wallet, run: Result<TransactionId, NativeError>|
                call_ensures(internal_ton_wallet_preload_transactions, (from,), run),
        ),
{
    match wallets.acquire(ton_wallet) {
        Attempt::Done(Ok(resource)) => Attempt::Done(
            Ok(
                Single {
                    handle: ton_wallet,
                    resource,
                    run: internal_ton_wallet_preload_transactions(from),
                },
            ),
        ),
        Attempt::Done(Err(e)) => Attempt::Done(Err(e)),
        Attempt::Wait => Attempt::Wait,
    }
}

/// Ends a load of older transactions. The wallet is put back as it was
/// taken: a load does not touch the cached view. Where the inputs were
/// refused, that error is the result, whatever was loaded; else the
/// result is zero, or a wallet error where the load failed.
pub fn finish_preload_transactions(
    session: Single<Wallet, Result<TransactionId, NativeError>>,
    wallets: &mut Registry<Wallet>,
    loaded: Result<(), String>,
) -> (r: Result<u64, NativeError>)
    ensures
        final(wallets).kind() == old(wallets).kind(),
        final(wallets)@ == slots_after(
            old(wallets)@,
            Op::Restore(session.handle, session.resource),
        ),
        match session.run {
            Err(e) => r == Err::<u64, NativeError>(e),
            Ok(_) => match loaded {
                Ok(_) => r == Ok::<u64, NativeError>(0),
                Err(text) => r matches Err(e) && e@.kind == ErrorKind::WalletProtocolError(
                    WalletFailure::Plain,
                ) && e@.info == text@,
            },
        },
{
    let left = wallets.restore(session.handle, session.resource);
    match session.run {
        Err(e) => Err(e),
        Ok(_) => match loaded {
            Ok(_) => Ok(0),
            Err(text) => Err(
                NativeError { kind: ErrorKind::WalletProtocolError(WalletFailure::Plain), info: text },
            ),
        },
    }
}

/// Begins the handling of a block: takes the wallet and the transport
/// out, both or neither.
pub fn ton_wallet_handle_block<T>(
    wallets: &mut Registry<Wallet>,
    transports: &mut Registry<T>,
    ton_wallet: u64,
    transport: u64,
) -> (r: Attempt<Result<Pair<Wallet, T, ()>, NativeError>>)
    ensures
        begins_pair(
            r,
            *old(wallets),
            *final(wallets),
            ton_wallet,
            *old(transports),
            *final(transports),
            transport,
            |w: Wallet, run: ()| true,
        ),
{
    match acquire_pair(wallets, ton_wallet, transports, transport) {
        Attempt::Done(Ok((first, second))) => Attempt::Done(
            Ok(Pair { first_handle: ton_wallet, first, second_handle: transport, second, run: () }),
        ),
        Attempt::Done(Err(e)) => Attempt::Done(Err(e)),
        Attempt::Wait => Attempt::Wait,
    }
}

/// What the handling of a block makes of a wallet.
///
/// `fetched` is what came of fetching the block and of reading from it
/// what it says of the wallet's account. Where the fetch failed, the
/// result is a transport error; where the reading failed, a wallet error;
/// either way the wallet stays as it was and nobody is told anything.
/// Else the block is fed to the wallet as [`Wallet::handle_block`] says,
/// and the result is zero.
pub fn internal_ton_wallet_handle_block(
    ton_wallet: &mut Wallet,
    fetched: Result<Result<BlockRecord, String>, String>,
) -> (r: (Result<u64, NativeError>, Vec<Delivery>))
    ensures
        ({
            let before = old(ton_wallet)@;
            let after = final(ton_wallet)@;
            match fetched {
                Ok(Ok(block)) => r.0 == Ok::<u64, NativeError>(0) && after == before.after_block(
                    block@,
                ) && r.1@ == deliveries(before.listener, before.block_notes(block@)),
                Ok(Err(text)) => r.0 matches Err(e) && e@.kind == ErrorKind::WalletProtocolError(
                    WalletFailure::Plain,
                ) && e@.info == text@ && after == before && r.1@.len() == 0,
                Err(text) => r.0 matches Err(e) && e@.kind == ErrorKind::TransportError && e@.info
                    == text@ && after == before && r.1@.len() == 0,
            }
        }),
{
    match fetched {
        Ok(Ok(block)) => {
            let told = ton_wallet.handle_block(&block);
            (Ok(0), told)
        },
        Ok(Err(text)) => (
            Err(NativeError { kind: ErrorKind::WalletProtocolError(WalletFailure::Plain), info: text }),
            Vec::new(),
        ),
        Err(text) => (
            Err(NativeError { kind: ErrorKind::TransportError, info: text }),
            Vec::new(),
        ),
    }
}

/// Ends the handling of a block: does to the wallet what
/// [`internal_ton_wallet_handle_block`] says, puts the wallet and the
/// transport back, and gives the result with what is to be told to the
/// listener.
pub fn finish_handle_block<T>(
    session: Pair<Wallet, T, ()>,
    wallets: &mut Registry<Wallet>,
    transports: &mut Registry<T>,
    fetched: Result<Result<BlockRecord, String>, String>,
) -> (r: (Result<u64, NativeError>, Vec<Delivery>))
    ensures
        final(wallets).kind() == old(wallets).kind(),
        final(transports).kind() == old(transports).kind(),
        final(transports)@ == slots_after(
            old(transports)@,
            Op::Restore(session.second_handle, session.second),
        ),
        ({
            let before = session.first@;
            match fetched {
                Ok(Ok(block)) => r.0 == Ok::<u64, NativeError>(0) && gets_back(
                    old(wallets)@,
                    final(wallets)@,
                    session.first_handle,
                    before.after_block(block@),
                ) && r.1@ == deliveries(before.listener, before.block_notes(block@)),
                Ok(Err(text)) => r.0 matches Err(e) && e@.kind == ErrorKind::WalletProtocolError(
                    WalletFailure::Plain,
                ) && e@.info == text@ && gets_back(
                    old(wallets)@,
                    final(wallets)@,
                    session.first_handle,
                    before,
                ) && r.1@.len() == 0,
                Err(text) => r.0 matches Err(e) && e@.kind == ErrorKind::TransportError && e@.info
                    == text@ && gets_back(
                    old(wallets)@,
                    final(wallets)@,
                    session.first_handle,
                    before,
                ) && r.1@.len() == 0,
            }
        }),
{
    let mut wallet = session.first;
    let r = internal_ton_wallet_handle_block(&mut wallet, fetched);
    restore_pair(
        wallets,
        session.first_handle,
        wallet,
        transports,
        session.second_handle,
        session.second,
    );
    r
}

/// Lets a wallet go: the session ends and the handle is dead for good.
/// The result is zero; a held handle answers [`Attempt::Wait`], and a
/// handle that names no wallet the "not found" error.
pub fn free_ton_wallet(wallets: &mut Registry<Wallet>, ton_wallet: u64) -> (r: Attempt<
    Result<u64, NativeError>,
>)
    ensures
        final(wallets).kind() == old(wallets).kind(),
        final(wallets)@ == slots_after(old(wallets)@, Op::<Wallet>::Release(ton_wallet)),
        match reply_to(old(wallets)@, Op::<Wallet>::Release(ton_wallet)) {
            Reply::Released => r == Attempt::Done(Ok::<u64, NativeError>(0)),
            Reply::Wait => r is Wait,
            _ => is_not_found(r, old(wallets).kind()),
        },
{
    match wallets.release(ton_wallet) {
        Attempt::Done(Ok(_)) => Attempt::Done(Ok(0)),
        Attempt::Done(Err(e)) => Attempt::Done(Err(e)),
        Attempt::Wait => Attempt::Wait,
    }
}

} // verus!
