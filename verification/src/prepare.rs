//! The pipeline that prepares an unsigned message.
//!
//! One run prepares one message: a deployment, a deployment with several
//! owners, a transfer or the confirmation of a multisig proposal. A run
//! first checks its inputs, then (for a transfer or a confirmation) waits
//! for a snapshot of the account that was fetched for this very run, then
//! waits for the builder of the wallet's contract, and ends done or
//! rejected. The fetching and the building are the work of others: the run
//! says what it waits for, and takes what came back.

use vstd::prelude::*;

use crate::error::{ErrorKind, NativeError, WalletFailure, DEPLOY_FIRST, NOT_EXISTS};
use crate::json::{json_text_list, parse_text_list};
use crate::keys::{
    are_public_key_texts, custodian_keys, hex_decode, is_public_key_text, keys_view,
    parse_custodians, parse_public_key, PublicKey,
};
use crate::model::Expiration;
use crate::numbers::{parse_u64, u64_of_text};
use crate::wallet::Wallet;

verus! {

/// What the transport says of an account: absent, or there with its record.
#[derive(Debug)]
pub enum RawContractState<A> {
    NotExists,
    Exists(A),
}

/// What the builder of a transfer answers.
#[derive(Debug)]
pub enum TransferAction<M> {
    /// The wallet must be deployed before it can send this transfer.
    DeployFirst,
    /// The unsigned message of the transfer.
    Sign(M),
}

/// How the body of a transfer is to be read.
#[derive(Clone, Copy, Debug, PartialEq, Eq, Structural)]
pub enum PayloadKind {
    /// A short comment in free text.
    Comment,
    /// A payload that was encoded beforehand.
    Blob,
}

/// How the body of a transfer is to be encoded: not at all without a
/// body, else as a comment or as a blob, by the flag.
pub fn payload_kind(has_body: bool, is_comment: bool) -> (kind: Option<PayloadKind>)
    ensures
        kind == if !has_body {
            None
        } else if is_comment {
            Some(PayloadKind::Comment)
        } else {
            Some(PayloadKind::Blob)
        },
{
    if !has_body {
        None
    } else if is_comment {
        Some(PayloadKind::Comment)
    } else {
        Some(PayloadKind::Blob)
    }
}

/// What the builder is to build, with inputs that have been checked.
#[derive(Debug)]
pub enum BuildOrder<P> {
    Deploy { expiration: Expiration },
    DeployMultisig { expiration: Expiration, custodians: Vec<PublicKey>, req_confirms: u8 },
    Transfer {
        public_key: PublicKey,
        destination: String,
        amount: u64,
        body: Option<P>,
        expiration: Expiration,
    },
    Confirm { public_key: PublicKey, transaction_id: u64, expiration: Expiration },
}

/// One run of the pipeline, at the step it has reached.
#[derive(Debug)]
pub enum Preparation<P, A, M> {
    /// The run waits for a fresh snapshot of the account at `address`.
    FetchSnapshot { address: String, order: BuildOrder<P> },
    /// The run waits for the builder, which gets the account record that
    /// was fetched for this run, if one was.
    BuildMessage { account: Option<A>, order: BuildOrder<P> },
    /// The message is prepared.
    Done(M),
    /// The run has failed.
    Rejected(NativeError),
}

/// Whether a run was rejected with exactly this kind and detail text.
pub open spec fn rejected_with<P, A, M>(
    run: Preparation<P, A, M>,
    kind: ErrorKind,
    info: Seq<char>,
) -> bool {
    run matches Preparation::Rejected(e) && e@.kind == kind && e@.info == info
}

/// Whether a run was rejected with this kind, whatever the detail.
pub open spec fn rejected_as<P, A, M>(run: Preparation<P, A, M>, kind: ErrorKind) -> bool {
    run matches Preparation::Rejected(e) && e@.kind == kind
}

/// Begins the preparation of a deployment of the wallet.
///
/// The expiration must have been read; no snapshot is fetched, and the
/// run waits for the builder at once.
pub fn internal_ton_wallet_prepare_deploy<P, A, M>(expiration: Result<Expiration, String>) -> (run:
    Preparation<P, A, M>)
    ensures
        match expiration {
            Ok(policy) => run matches Preparation::BuildMessage {
                account: None,
                order: BuildOrder::Deploy { expiration: e },
            } && e == policy,
            Err(text) => rejected_with(run, ErrorKind::ConversionError, text@),
        },
{
    match expiration {
        Ok(policy) => Preparation::BuildMessage {
            account: None,
            order: BuildOrder::Deploy { expiration: policy },
        },
        Err(text) => Preparation::Rejected(
            NativeError { kind: ErrorKind::ConversionError, info: text },
        ),
    }
}

/// What [`custodians_from_json`] makes of the list that was read from JSON:
/// the keys of the texts, if every text is one of a public key.
pub open spec fn custodians_of_list(list: Option<Seq<Seq<char>>>) -> Option<Seq<Seq<u8>>> {
    match list {
        Some(texts) => if are_public_key_texts(texts) {
            Some(custodian_keys(texts))
        } else {
            None
        },
        None => None,
    }
}

/// Reads the custodians of a deployment from a JSON list of key texts. The
/// order of the list and its duplicates are kept. A text that is no JSON
/// list of texts, or a list with a text that is not the text of a public
/// key, is a conversion error.
pub fn custodians_from_json(custodians: &str) -> (r: Result<Vec<PublicKey>, NativeError>)
    ensures
        match r {
            Ok(keys) => custodians_of_list(json_text_list(custodians@)) == Some(keys_view(keys@)),
            Err(e) => custodians_of_list(json_text_list(custodians@)) is None && e@.kind
                == ErrorKind::ConversionError,
        },
{
    match parse_text_list(custodians) {
        Ok(texts) => parse_custodians(&texts),
        Err(e) => Err(e),
    }
}

/// Begins the preparation of a deployment with several owners.
///
/// The inputs are checked in this order: the expiration, then the
/// custodians. The number of confirmations is handed to the builder as it
/// is; a number that the contract cannot hold is for the builder to refuse.
pub fn internal_ton_wallet_prepare_deploy_with_multiple_owners<P, A, M>(
    expiration: Result<Expiration, String>,
    custodians: &str,
    req_confirms: u8,
) -> (run: Preparation<P, A, M>)
    ensures
        match expiration {
            Err(text) => rejected_with(run, ErrorKind::ConversionError, text@),
            Ok(policy) => match custodians_of_list(json_text_list(custodians@)) {
                None => rejected_as(run, ErrorKind::ConversionError),
                Some(keys) => run matches Preparation::BuildMessage {
                    account: None,
                    order: BuildOrder::DeployMultisig { expiration: e, custodians: c, req_confirms: n },
                } && e == policy && keys_view(c@) == keys && n == req_confirms,
            },
        },
{
    let policy = match expiration {
        Ok(policy) => policy,
        Err(text) => {
            return Preparation::Rejected(
                NativeError { kind: ErrorKind::ConversionError, info: text },
            );
        },
    };
    match custodians_from_json(custodians) {
        Ok(keys) => Preparation::BuildMessage {
            account: None,
            order: BuildOrder::DeployMultisig { expiration: policy, custodians: keys, req_confirms },
        },
        Err(e) => Preparation::Rejected(e),
    }
}

/// Begins the preparation of a transfer from the wallet.
///
/// The inputs are checked in this order, and the first that fails decides
/// the error: the public key (a conversion error), the destination (a
/// conversion error), the body, if one was given (an encoding error), the
/// expiration (a conversion error). Then the run waits for a snapshot of
/// the wallet's own account.
pub fn internal_ton_wallet_prepare_transfer<P, A, M>(
    ton_wallet: &Wallet,
    public_key: &str,
    destination: Result<String, String>,
    amount: u64,
    body: Option<Result<P, String>>,
    expiration: Result<Expiration, String>,
) -> (run: Preparation<P, A, M>)
    ensures
        if !is_public_key_text(public_key@) {
            rejected_as(run, ErrorKind::ConversionError)
        } else if destination is Err {
            rejected_with(run, ErrorKind::ConversionError, destination->Err_0@)
        } else if body is Some && body->0 is Err {
            rejected_with(run, ErrorKind::EncodingError, body->0->Err_0@)
        } else if expiration is Err {
            rejected_with(run, ErrorKind::ConversionError, expiration->Err_0@)
        } else {
            run matches Preparation::FetchSnapshot {
                address,
                order: BuildOrder::Transfer { public_key: k, destination: d, amount: a, body: b, expiration: e },
            } && address@ == ton_wallet@.address && k@ == hex_decode(public_key@) && d@
                == destination->Ok_0@ && a == amount && b == (match body {
                Some(r) => Some(r->Ok_0),
                None => None,
            }) && e == expiration->Ok_0
        },
{
    let key = match parse_public_key(public_key) {
        Ok(key) => key,
        Err(e) => {
            return Preparation::Rejected(e);
        },
    };
    let destination = match destination {
        Ok(destination) => destination,
        Err(text) => {
            return Preparation::Rejected(
                NativeError { kind: ErrorKind::ConversionError, info: text },
            );
        },
    };
    let body = match body {
        Some(Ok(payload)) => Some(payload),
        Some(Err(text)) => {
            return Preparation::Rejected(NativeError { kind: ErrorKind::EncodingError, info: text });
        },
        None => None,
    };
    let policy = match expiration {
        Ok(policy) => policy,
        Err(text) => {
            return Preparation::Rejected(
                NativeError { kind: ErrorKind::ConversionError, info: text },
            );
        },
    };
    Preparation::FetchSnapshot {
        address: ton_wallet.address().clone(),
        order: BuildOrder::Transfer {
            public_key: key,
            destination,
            amount,
            body,
            expiration: policy,
        },
    }
}

/// Begins the preparation of the confirmation of a multisig proposal.
///
/// The inputs are checked in this order, and the first that fails decides
/// the error, a conversion error each time: the public key, the number of
/// the proposal (decimal, within 64 bits), the expiration. Then the run
/// waits for a snapshot of the wallet's own account.
pub fn internal_ton_wallet_prepare_confirm_transaction<P, A, M>(
    ton_wallet: &Wallet,
    public_key: &str,
    transaction_id: &str,
    expiration: Result<Expiration, String>,
) -> (run: Preparation<P, A, M>)
    ensures
        if !is_public_key_text(public_key@) {
            rejected_as(run, ErrorKind::ConversionError)
        } else if u64_of_text(transaction_id@) is None {
            rejected_as(run, ErrorKind::ConversionError)
        } else if expiration is Err {
            rejected_with(run, ErrorKind::ConversionError, expiration->Err_0@)
        } else {
            run matches Preparation::FetchSnapshot {
                address,
                order: BuildOrder::Confirm { public_key: k, transaction_id: id, expiration: e },
            } && address@ == ton_wallet@.address && k@ == hex_decode(public_key@) && Some(id)
                == u64_of_text(transaction_id@) && e == expiration->Ok_0
        },
{
    let key = match parse_public_key(public_key) {
        Ok(key) => key,
        Err(e) => {
            return Preparation::Rejected(e);
        },
    };
    let id = match parse_u64(transaction_id) {
        Ok(id) => id,
        Err(e) => {
            return Preparation::Rejected(e);
        },
    };
    let policy = match expiration {
        Ok(policy) => policy,
        Err(text) => {
            return Preparation::Rejected(
                NativeError { kind: ErrorKind::ConversionError, info: text },
            );
        },
    };
    Preparation::FetchSnapshot {
        address: ton_wallet.address().clone(),
        order: BuildOrder::Confirm { public_key: key, transaction_id: id, expiration: policy },
    }
}

impl<P, A, M> Preparation<P, A, M> {
    /// Whether the run has ended, done or rejected.
    pub open spec fn is_finished(self) -> bool {
        self is Done || self is Rejected
    }

    /// Whether the run has ended, done or rejected.
    pub fn finished(&self) -> (b: bool)
        ensures
            b == self.is_finished(),
    {
        match self {
            Preparation::Done(_) => true,
            Preparation::Rejected(_) => true,
            _ => false,
        }
    }

    /// Takes what the transport answered to the fetch.
    ///
    /// A run that waits for a snapshot goes on to the builder with the
    /// account record that was just fetched, is rejected as not deployed
    /// where the account does not exist, and is rejected with a transport
    /// error where the fetch failed. A run at any other step stays as it
    /// is.
    pub fn on_snapshot(self, fetched: Result<RawContractState<A>, String>) -> (next: Preparation<
        P,
        A,
        M,
    >)
        ensures
            match self {
                Preparation::FetchSnapshot { address, order } => match fetched {
                    Ok(RawContractState::Exists(account)) => next == (Preparation::<
                        P,
                        A,
                        M,
                    >::BuildMessage { account: Some(account), order }),
                    Ok(RawContractState::NotExists) => rejected_with(
                        next,
                        ErrorKind::WalletProtocolError(WalletFailure::NotDeployed),
                        NOT_EXISTS@,
                    ),
                    Err(text) => rejected_with(next, ErrorKind::TransportError, text@),
                },
                _ => next == self,
            },
    {
        match self {
            Preparation::FetchSnapshot { address, order } => match fetched {
                Ok(RawContractState::Exists(account)) => Preparation::BuildMessage {
                    account: Some(account),
                    order,
                },
                Ok(RawContractState::NotExists) => Preparation::Rejected(
                    NativeError::new(
                        ErrorKind::WalletProtocolError(WalletFailure::NotDeployed),
                        NOT_EXISTS,
                    ),
                ),
                Err(text) => Preparation::Rejected(
                    NativeError { kind: ErrorKind::TransportError, info: text },
                ),
            },
            other => other,
        }
    }

    /// Takes what the builder answered.
    ///
    /// A run that waits for the builder is done with the message that the
    /// builder made, is rejected as "deploy first" where the builder asks
    /// for a deployment, and is rejected with a wallet error where the
    /// builder failed. A run at any other step stays as it is.
    pub fn on_built(self, built: Result<TransferAction<M>, String>) -> (next: Preparation<P, A, M>)
        ensures
            match self {
                Preparation::BuildMessage { account, order } => match built {
                    Ok(TransferAction::Sign(message)) => next == Preparation::<P, A, M>::Done(
                        message,
                    ),
                    Ok(TransferAction::DeployFirst) => rejected_with(
                        next,
                        ErrorKind::WalletProtocolError(WalletFailure::DeployFirst),
                        DEPLOY_FIRST@,
                    ),
                    Err(text) => rejected_with(
                        next,
                        ErrorKind::WalletProtocolError(WalletFailure::Plain),
                        text@,
                    ),
                },
                _ => next == self,
            },
    {
        match self {
            Preparation::BuildMessage { account, order } => match built {
                Ok(TransferAction::Sign(message)) => Preparation::Done(message),
                Ok(TransferAction::DeployFirst) => Preparation::Rejected(
                    NativeError::new(
                        ErrorKind::WalletProtocolError(WalletFailure::DeployFirst),
                        DEPLOY_FIRST,
                    ),
                ),
                Err(text) => Preparation::Rejected(
                    NativeError {
                        kind: ErrorKind::WalletProtocolError(WalletFailure::Plain),
                        info: text,
                    },
                ),
            },
            other => other,
        }
    }
}

} // verus!
