//! The errors that an operation of the engine can end with.
//!
//! Every error carries a kind that a caller can match on and a detail text
//! meant for people. The texts of the errors that the engine raises itself
//! are constants of this module.

use vstd::prelude::*;

verus! {

/// Detail text of the error for a wallet handle whose resource is gone.
pub const TON_WALLET_NOT_FOUND: &'static str = "Ton wallet not found";

/// Detail text of the error for a transport handle whose resource is gone.
pub const GQL_TRANSPORT_NOT_FOUND: &'static str = "Gql transport not found";

/// Detail text of the error for a key store handle whose resource is gone.
pub const KEY_STORE_NOT_FOUND: &'static str = "Key store not found";

/// Detail text of the error for a message handle whose resource is gone.
pub const UNSIGNED_MESSAGE_NOT_FOUND: &'static str = "Unsigned message not found";

/// Detail text of the error for signing parameters that fit no scheme.
pub const UNKNOWN_SIGNER: &'static str = "Unknown signer";

/// Detail text of the error for an account that is absent from the chain.
pub const NOT_EXISTS: &'static str = "Not exists";

/// Detail text of the error for a transfer that needs a deployment first.
pub const DEPLOY_FIRST: &'static str = "Deploy first";

/// Detail text of the error for a subscription whose report makes no
/// well-formed wallet.
pub const INVALID_SUBSCRIPTION: &'static str = "Invalid wallet subscription";

/// Detail text of the error for a text that stands for no number.
pub const INVALID_NUMBER: &'static str = "Invalid number";

/// How an operation on the wallet contract failed.
#[derive(Clone, Copy, Debug, PartialEq, Eq, Structural)]
pub enum WalletFailure {
    /// The wallet collaborator reported a failure of its own.
    Plain,
    /// The operation needs an account on the chain, and there is none.
    NotDeployed,
    /// The transfer cannot go on until the wallet is deployed.
    DeployFirst,
}

/// How a signing attempt failed.
#[derive(Clone, Copy, Debug, PartialEq, Eq, Structural)]
pub enum SigningFailure {
    /// The signing parameters have the shape of no supported scheme.
    UnknownSigner,
    /// The key store or the finalisation of the message failed.
    Crypto,
}

/// The machine-checkable kind of an error.
#[derive(Clone, Copy, Debug, PartialEq, Eq, Structural)]
pub enum ErrorKind {
    /// The handle's resource was released, or the handle never existed.
    HandleNotFound,
    /// An input could not be read: bad JSON, number, address or key.
    ConversionError,
    /// The transport failed; the caller may run the operation again.
    TransportError,
    /// The wallet contract refused or cannot serve the operation.
    WalletProtocolError(WalletFailure),
    /// No signature could be had.
    SigningError(SigningFailure),
    /// A payload could not be built.
    EncodingError,
}

/// An error of the engine: its kind and a detail text.
#[derive(Debug)]
pub struct NativeError {
    pub kind: ErrorKind,
    pub info: String,
}

/// The mathematical value of a [`NativeError`].
pub struct NativeErrorView {
    pub kind: ErrorKind,
    pub info: Seq<char>,
}

impl View for NativeError {
    type V = NativeErrorView;

    open spec fn view(&self) -> NativeErrorView {
        NativeErrorView { kind: self.kind, info: self.info@ }
    }
}

impl NativeError {
    /// An error of the given kind whose detail is `info`.
    pub fn new(kind: ErrorKind, info: &str) -> (e: NativeError)
        ensures
            e@ == (NativeErrorView { kind: kind, info: info@ }),
    {
        NativeError { kind, info: info.to_owned() }
    }

    /// The detail text, as an owned string.
    pub fn to_string(&self) -> (s: String)
        ensures
            s@ == self@.info,
    {
        self.info.clone()
    }
}

/// Whether `r` failed with exactly this kind and this detail text.
pub open spec fn fails_with<T>(r: Result<T, NativeError>, kind: ErrorKind, info: Seq<char>) -> bool {
    r matches Err(e) && e@.kind == kind && e@.info == info
}

/// Turns the outcome of a collaborator, which reports a failure as text,
/// into an outcome of the engine: a failure becomes an error of `kind`
/// with that text as its detail, and a success is handed on unchanged.
pub fn handle_error<T>(outcome: Result<T, String>, kind: ErrorKind) -> (r: Result<T, NativeError>)
    ensures
        outcome matches Ok(v) ==> r == Ok::<T, NativeError>(v),
        outcome matches Err(text) ==> fails_with(r, kind, text@),
{
    match outcome {
        Ok(v) => Ok(v),
        Err(text) => Err(NativeError { kind, info: text }),
    }
}

} // verus!
