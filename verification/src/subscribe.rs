//! Subscription: how a wallet session begins.
//!
//! A subscription names an account by the owner's public key and the kind
//! of contract, by its address, or by the description of a wallet that was
//! found before. The network work is done by others: a run says what is
//! to be subscribed to and for which listener, and takes the report.

use vstd::prelude::*;

use crate::error::{ErrorKind, NativeError, WalletFailure, INVALID_SUBSCRIPTION};
use crate::keys::{hex_decode, is_public_key_text, parse_public_key, PublicKey};
use crate::model::{ExistingWalletInfo, WalletType};
use crate::wallet::{initial_wallet, Listener, Subscribed, Wallet};

verus! {

/// The account that a subscription names.
#[derive(Debug)]
pub enum SubscribeRequest {
    /// The wallet of this kind that this key owns in this workchain.
    ByPublicKey { workchain: i8, public_key: PublicKey, contract: WalletType },
    /// The wallet at this address.
    ByAddress { address: String },
    /// A wallet that was found before.
    ByExisting { existing: ExistingWalletInfo },
}

/// One subscription, at the step it has reached.
#[derive(Debug)]
pub enum Subscription {
    /// The run waits for the report of the subscription.
    Subscribe { request: SubscribeRequest, listener: Listener },
    /// The session of the wallet has begun.
    Subscribed(Wallet),
    /// The run has failed.
    Rejected(NativeError),
}

/// Whether a run was rejected with exactly this kind and detail text.
pub open spec fn refused_with(run: Subscription, kind: ErrorKind, info: Seq<char>) -> bool {
    run matches Subscription::Rejected(e) && e@.kind == kind && e@.info == info
}

/// Begins a subscription by public key and kind of contract, with a
/// listener at `port`.
///
/// The inputs are checked in this order, a conversion error each: the
/// public key, then the kind of contract.
pub fn internal_ton_wallet_subscribe(
    port: i64,
    workchain: i8,
    public_key: &str,
    contract: Result<WalletType, String>,
) -> (run: Subscription)
    ensures
        if !is_public_key_text(public_key@) {
            run matches Subscription::Rejected(e) && e@.kind == ErrorKind::ConversionError
        } else {
            match contract {
                Err(text) => refused_with(run, ErrorKind::ConversionError, text@),
                Ok(kind) => run matches Subscription::Subscribe {
                    request: SubscribeRequest::ByPublicKey { workchain: w, public_key: k, contract: c },
                    listener,
                } && w == workchain && k@ == hex_decode(public_key@) && c == kind && listener
                    == (Listener { port: Some(port) }),
            }
        },
{
    let key = match parse_public_key(public_key) {
        Ok(key) => key,
        Err(e) => {
            return Subscription::Rejected(e);
        },
    };
    match contract {
        Ok(kind) => Subscription::Subscribe {
            request: SubscribeRequest::ByPublicKey { workchain, public_key: key, contract: kind },
            listener: Listener { port: Some(port) },
        },
        Err(text) => Subscription::Rejected(
            NativeError { kind: ErrorKind::ConversionError, info: text },
        ),
    }
}

/// Begins a subscription by address, with a listener at `port`. An address
/// that could not be read is a conversion error.
pub fn internal_ton_wallet_subscribe_by_address(port: i64, address: Result<String, String>) -> (run:
    Subscription)
    ensures
        match address {
            Err(text) => refused_with(run, ErrorKind::ConversionError, text@),
            Ok(a) => run matches Subscription::Subscribe {
                request: SubscribeRequest::ByAddress { address: b },
                listener,
            } && b == a && listener == (Listener { port: Some(port) }),
        },
{
    match address {
        Ok(a) => Subscription::Subscribe {
            request: SubscribeRequest::ByAddress { address: a },
            listener: Listener { port: Some(port) },
        },
        Err(text) => Subscription::Rejected(
            NativeError { kind: ErrorKind::ConversionError, info: text },
        ),
    }
}

/// Begins a subscription to a wallet that was found before, with a
/// listener at `port`. A description that could not be read is a
/// conversion error.
pub fn internal_ton_wallet_subscribe_by_existing(
    port: i64,
    existing_wallet: Result<ExistingWalletInfo, String>,
) -> (run: Subscription)
    ensures
        match existing_wallet {
            Err(text) => refused_with(run, ErrorKind::ConversionError, text@),
            Ok(found) => run matches Subscription::Subscribe {
                request: SubscribeRequest::ByExisting { existing },
                listener,
            } && existing == found && listener == (Listener { port: Some(port) }),
        },
{
    match existing_wallet {
        Ok(found) => Subscription::Subscribe {
            request: SubscribeRequest::ByExisting { existing: found },
            listener: Listener { port: Some(port) },
        },
        Err(text) => Subscription::Rejected(
            NativeError { kind: ErrorKind::ConversionError, info: text },
        ),
    }
}

/// Begins a look at the wallet at an address: a subscription by address
/// without any listener. An address that could not be read is a
/// conversion error.
pub fn internal_get_ton_wallet_info(address: Result<String, String>) -> (run: Subscription)
    ensures
        match address {
            Err(text) => refused_with(run, ErrorKind::ConversionError, text@),
            Ok(a) => run matches Subscription::Subscribe {
                request: SubscribeRequest::ByAddress { address: b },
                listener,
            } && b == a && listener == (Listener { port: None }),
        },
{
    match address {
        Ok(a) => Subscription::Subscribe {
            request: SubscribeRequest::ByAddress { address: a },
            listener: Listener { port: None },
        },
        Err(text) => Subscription::Rejected(
            NativeError { kind: ErrorKind::ConversionError, info: text },
        ),
    }
}

impl Subscription {
    /// Takes the report of the subscription.
    ///
    /// A run that waits for it begins the session with what was reported
    /// and with the run's listener, as [`Wallet::subscribe`] says; it is
    /// rejected with a wallet error where the subscription failed or the
    /// report makes no well-formed wallet. A run at any other step stays
    /// as it is.
    pub fn on_subscribed(self, report: Result<Subscribed, String>) -> (next: Subscription)
        ensures
            match self {
                Subscription::Subscribe { request, listener } => match report {
                    Ok(subscribed) => if initial_wallet(subscribed, listener).wf() {
                        next matches Subscription::Subscribed(wallet) && wallet@ == initial_wallet(
                            subscribed,
                            listener,
                        )
                    } else {
                        refused_with(
                            next,
                            ErrorKind::WalletProtocolError(WalletFailure::Plain),
                            INVALID_SUBSCRIPTION@,
                        )
                    },
                    Err(text) => refused_with(
                        next,
                        ErrorKind::WalletProtocolError(WalletFailure::Plain),
                        text@,
                    ),
                },
                _ => next == self,
            },
    {
        match self {
            Subscription::Subscribe { request, listener } => match report {
                Ok(subscribed) => match Wallet::subscribe(subscribed, listener) {
                    Ok(wallet) => Subscription::Subscribed(wallet),
                    Err(e) => Subscription::Rejected(e),
                },
                Err(text) => Subscription::Rejected(
                    NativeError {
                        kind: ErrorKind::WalletProtocolError(WalletFailure::Plain),
                        info: text,
                    },
                ),
            },
            other => other,
        }
    }
}

/// One search for the wallets of a public key, at the step it has reached.
#[derive(Debug)]
pub enum Search {
    /// The run waits for the wallets that this key owns in this workchain.
    Find { public_key: PublicKey, workchain_id: i8 },
    /// The wallets that were found.
    Found(Vec<ExistingWalletInfo>),
    /// The run has failed.
    Rejected(NativeError),
}

/// Begins a search for the wallets of a public key. A text that is not the
/// text of a public key is a conversion error.
pub fn internal_find_existing_wallets(public_key: &str, workchain_id: i8) -> (run: Search)
    ensures
        if is_public_key_text(public_key@) {
            run matches Search::Find { public_key: k, workchain_id: w } && k@ == hex_decode(
                public_key@,
            ) && w == workchain_id
        } else {
            run matches Search::Rejected(e) && e@.kind == ErrorKind::ConversionError
        },
{
    match parse_public_key(public_key) {
        Ok(key) => Search::Find { public_key: key, workchain_id },
        Err(e) => Search::Rejected(e),
    }
}

impl Search {
    /// Takes the wallets that were found. A run that waits for them ends
    /// with exactly that list, or is rejected with a wallet error where
    /// the search failed. A run at any other step stays as it is.
    pub fn on_found(self, found: Result<Vec<ExistingWalletInfo>, String>) -> (next: Search)
        ensures
            match self {
                Search::Find { public_key, workchain_id } => match found {
                    Ok(list) => next == Search::Found(list),
                    Err(text) => next matches Search::Rejected(e) && e@.kind
                        == ErrorKind::WalletProtocolError(WalletFailure::Plain) && e@.info == text@,
                },
                _ => next == self,
            },
    {
        match self {
            Search::Find { public_key, workchain_id } => match found {
                Ok(list) => Search::Found(list),
                Err(text) => Search::Rejected(
                    NativeError {
                        kind: ErrorKind::WalletProtocolError(WalletFailure::Plain),
                        info: text,
                    },
                ),
            },
            other => other,
        }
    }
}

} // verus!
