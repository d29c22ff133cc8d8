//! What can be read of a wallet behind its handle.
//!
//! Every function here looks at the wallet without taking it out: the
//! registry and the wallet stay as they are. A handle that is held by a
//! running operation answers [`Attempt::Wait`], and a handle that names no
//! wallet answers the "not found" error.

use vstd::prelude::*;

use crate::error::{ErrorKind, NativeError};
use crate::handle::{inspects, is_not_found, reply_to, Attempt, Op, Registry, Reply};
use crate::json::{json_of_text_list, render_text_list};
use crate::keys::{custodian_texts, hex_encode, keys_view};
use crate::model::{
    ContractState, PendingTransaction, PollingMethod, TonWalletDetails, UnconfirmedTransaction,
    WalletType,
};
use crate::wallet::{Wallet, WalletView};

verus! {

/// The workchain of the wallet's account.
pub fn get_ton_wallet_workchain(wallets: &Registry<Wallet>, ton_wallet: u64) -> (r: Attempt<
    Result<i8, NativeError>,
>)
    ensures
        inspects(r, wallets@, ton_wallet, wallets.kind(), |w: Wallet, v: i8| v == w@.workchain),
{
    match wallets.inspect(ton_wallet) {
        Attempt::Done(Ok(wallet)) => Attempt::Done(Ok(wallet.workchain())),
        Attempt::Done(Err(e)) => Attempt::Done(Err(e)),
        Attempt::Wait => Attempt::Wait,
    }
}

/// The address of the wallet's account.
pub fn get_ton_wallet_address(wallets: &Registry<Wallet>, ton_wallet: u64) -> (r: Attempt<
    Result<String, NativeError>,
>)
    ensures
        inspects(r, wallets@, ton_wallet, wallets.kind(), |w: Wallet, v: String| v@ == w@.address),
{
    match wallets.inspect(ton_wallet) {
        Attempt::Done(Ok(wallet)) => Attempt::Done(Ok(wallet.address().clone())),
        Attempt::Done(Err(e)) => Attempt::Done(Err(e)),
        Attempt::Wait => Attempt::Wait,
    }
}

/// The public key of the wallet's owner, as text.
pub fn get_ton_wallet_public_key(wallets: &Registry<Wallet>, ton_wallet: u64) -> (r: Attempt<
    Result<String, NativeError>,
>)
    ensures
        inspects(
            r,
            wallets@,
            ton_wallet,
            wallets.kind(),
            |w: Wallet, v: String| v@ == hex_encode(w@.public_key@),
        ),
{
    match wallets.inspect(ton_wallet) {
        Attempt::Done(Ok(wallet)) => Attempt::Done(Ok(wallet.public_key().to_hex_string())),
        Attempt::Done(Err(e)) => Attempt::Done(Err(e)),
        Attempt::Wait => Attempt::Wait,
    }
}

/// The kind of the wallet's contract.
pub fn get_ton_wallet_wallet_type(wallets: &Registry<Wallet>, ton_wallet: u64) -> (r: Attempt<
    Result<WalletType, NativeError>,
>)
    ensures
        inspects(
            r,
            wallets@,
            ton_wallet,
            wallets.kind(),
            |w: Wallet, v: WalletType| v == w@.wallet_type,
        ),
{
    match wallets.inspect(ton_wallet) {
        Attempt::Done(Ok(wallet)) => Attempt::Done(Ok(wallet.wallet_type())),
        Attempt::Done(Err(e)) => Attempt::Done(Err(e)),
        Attempt::Wait => Attempt::Wait,
    }
}

/// The cached contract state of the wallet.
pub fn get_ton_wallet_contract_state(wallets: &Registry<Wallet>, ton_wallet: u64) -> (r: Attempt<
    Result<ContractState, NativeError>,
>)
    ensures
        inspects(
            r,
            wallets@,
            ton_wallet,
            wallets.kind(),
            |w: Wallet, v: ContractState| v == w@.contract_state,
        ),
{
    match wallets.inspect(ton_wallet) {
        Attempt::Done(Ok(wallet)) => Attempt::Done(Ok(wallet.contract_state())),
        Attempt::Done(Err(e)) => Attempt::Done(Err(e)),
        Attempt::Wait => Attempt::Wait,
    }
}

/// The wallet's messages in flight, in the order they were submitted.
pub fn get_ton_wallet_pending_transactions(wallets: &Registry<Wallet>, ton_wallet: u64) -> (r:
    Attempt<Result<Vec<PendingTransaction>, NativeError>>)
    ensures
        inspects(
            r,
            wallets@,
            ton_wallet,
            wallets.kind(),
            |w: Wallet, v: Vec<PendingTransaction>| v@ == w@.pending,
        ),
{
    match wallets.inspect(ton_wallet) {
        Attempt::Done(Ok(wallet)) => Attempt::Done(Ok(wallet.pending_transactions().clone())),
        Attempt::Done(Err(e)) => Attempt::Done(Err(e)),
        Attempt::Wait => Attempt::Wait,
    }
}

/// The polling hint of the wallet: reliable while messages are in flight.
pub fn get_ton_wallet_polling_method(wallets: &Registry<Wallet>, ton_wallet: u64) -> (r: Attempt<
    Result<PollingMethod, NativeError>,
>)
    ensures
        inspects(
            r,
            wallets@,
            ton_wallet,
            wallets.kind(),
            |w: Wallet, v: PollingMethod| v == w@.polling_method(),
        ),
{
    match wallets.inspect(ton_wallet) {
        Attempt::Done(Ok(wallet)) => Attempt::Done(Ok(wallet.polling_method())),
        Attempt::Done(Err(e)) => Attempt::Done(Err(e)),
        Attempt::Wait => Attempt::Wait,
    }
}

/// What the wallet's contract can do.
pub fn get_ton_wallet_details(wallets: &Registry<Wallet>, ton_wallet: u64) -> (r: Attempt<
    Result<TonWalletDetails, NativeError>,
>)
    ensures
        inspects(
            r,
            wallets@,
            ton_wallet,
            wallets.kind(),
            |w: Wallet, v: TonWalletDetails| v == w@.details,
        ),
{
    match wallets.inspect(ton_wallet) {
        Attempt::Done(Ok(wallet)) => Attempt::Done(Ok(wallet.details())),
        Attempt::Done(Err(e)) => Attempt::Done(Err(e)),
        Attempt::Wait => Attempt::Wait,
    }
}

/// The wallet's multisig proposals that wait for confirmations.
pub fn get_ton_wallet_unconfirmed_transactions(wallets: &Registry<Wallet>, ton_wallet: u64) -> (r:
    Attempt<Result<Vec<UnconfirmedTransaction>, NativeError>>)
    ensures
        inspects(
            r,
            wallets@,
            ton_wallet,
            wallets.kind(),
            |w: Wallet, v: Vec<UnconfirmedTransaction>| v@ == w@.unconfirmed,
        ),
{
    match wallets.inspect(ton_wallet) {
        Attempt::Done(Ok(wallet)) => Attempt::Done(
            Ok(wallet.get_unconfirmed_transactions().clone()),
        ),
        Attempt::Done(Err(e)) => Attempt::Done(Err(e)),
        Attempt::Wait => Attempt::Wait,
    }
}

/// The texts of a wallet's custodians, in their order, or `None` for a
/// wallet without custodians.
pub open spec fn custodian_texts_of(wallet: WalletView) -> Option<Seq<Seq<char>>> {
    match wallet.custodians {
        Some(keys) => Some(custodian_texts(keys_view(keys))),
        None => None,
    }
}

/// The custodians of a wallet as JSON: the list of their texts, in their
/// order, or what stands for no list where the wallet has no custodians.
/// Where the writer fails, that is a conversion error.
pub fn internal_get_ton_wallet_custodians(ton_wallet: &Wallet) -> (r: Result<String, NativeError>)
    ensures
        match r {
            Ok(text) => json_of_text_list(custodian_texts_of(ton_wallet@)) == Some(text@),
            Err(e) => json_of_text_list(custodian_texts_of(ton_wallet@)) is None && e@.kind
                == ErrorKind::ConversionError,
        },
{
    let info = ton_wallet.info();
    render_text_list(&info.custodians)
}

/// The custodians of the wallet behind a handle, as
/// [`internal_get_ton_wallet_custodians`] writes them.
pub fn get_ton_wallet_custodians(wallets: &Registry<Wallet>, ton_wallet: u64) -> (r: Attempt<
    Result<String, NativeError>,
>)
    ensures
        match reply_to(wallets@, Op::<Wallet>::Inspect(ton_wallet)) {
            Reply::Shown(w) => match json_of_text_list(custodian_texts_of(w@)) {
                Some(text) => r matches Attempt::Done(Ok(v)) && v@ == text,
                None => r matches Attempt::Done(Err(e)) && e@.kind == ErrorKind::ConversionError,
            },
            Reply::Wait => r is Wait,
            _ => is_not_found(r, wallets.kind()),
        },
{
    match wallets.inspect(ton_wallet) {
        Attempt::Done(Ok(wallet)) => Attempt::Done(internal_get_ton_wallet_custodians(wallet)),
        Attempt::Done(Err(e)) => Attempt::Done(Err(e)),
        Attempt::Wait => Attempt::Wait,
    }
}

} // verus!
