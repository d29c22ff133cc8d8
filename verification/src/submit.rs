//! Signing and submission: from an unsigned message to a message in flight.
//!
//! Fees are estimated on a copy of the message that is finalised with a
//! signature of zeros; nothing is submitted and the wallet is not touched.
//! A submission works on a copy too: it picks the signing scheme, waits
//! for the signature, for the finalised message and for the wallet's
//! answer to the send, and only then takes the new message into the
//! wallet's messages in flight. The message behind the handle stays as it
//! was, so that a failed attempt can be made again.

use vstd::prelude::*;

use crate::error::{ErrorKind, NativeError, SigningFailure, WalletFailure, UNKNOWN_SIGNER};
use crate::model::PendingTransaction;
use crate::wallet::{deliveries, Delivery, Wallet};

verus! {

/// The number of bytes of a signature.
pub const SIGNATURE_LENGTH: usize = 64;

/// `dyn_clone::clone_box`, unboxed: a copy of the message. Nothing is
/// claimed of the copy; the message itself is only read.
#[verifier::external_body]
fn clone_message<M: Clone>(message: &M) -> M {
    *dyn_clone::clone_box(message)
}

/// The signature that stands in for a real one when fees are estimated:
/// sixty-four zeros.
pub fn placeholder_signature() -> (signature: [u8; 64])
    ensures
        forall|i: int| 0 <= i < 64 ==> signature@[i] == 0,
{
    let signature: [u8; 64] = [0u8; 64];
    signature
}

/// Signing parameters, read as those of one scheme.
#[derive(Debug)]
pub enum SignInput<E, D> {
    /// Parameters of the scheme with an encrypted key.
    EncryptedKey(E),
    /// Parameters of the scheme with a derived key.
    DerivedKey(D),
}

/// Picks the signing scheme from what the two readers made of the signing
/// parameters. The scheme with an encrypted key comes first: where both
/// readers took the parameters, it is the one. Where neither did, the
/// signer is unknown.
pub fn select_signer<E, D>(encrypted: Option<E>, derived: Option<D>) -> (r: Result<
    SignInput<E, D>,
    NativeError,
>)
    ensures
        match (encrypted, derived) {
            (Some(e), _) => r == Ok::<SignInput<E, D>, NativeError>(SignInput::EncryptedKey(e)),
            (None, Some(d)) => r == Ok::<SignInput<E, D>, NativeError>(SignInput::DerivedKey(d)),
            (None, None) => r matches Err(e) && e@.kind == ErrorKind::SigningError(
                SigningFailure::UnknownSigner,
            ) && e@.info == UNKNOWN_SIGNER@,
        },
{
    match encrypted {
        Some(e) => Ok(SignInput::EncryptedKey(e)),
        None => match derived {
            Some(d) => Ok(SignInput::DerivedKey(d)),
            None => Err(
                NativeError::new(
                    ErrorKind::SigningError(SigningFailure::UnknownSigner),
                    UNKNOWN_SIGNER,
                ),
            ),
        },
    }
}

/// One estimation of fees, at the step it has reached. `M` is an unsigned
/// message and `S` a finalised one.
#[derive(Debug)]
pub enum Estimation<M, S> {
    /// The run waits for the copy to be finalised with the signature.
    Finalize { message: M, signature: [u8; 64] },
    /// The run waits for the wallet to compute the fee of this message.
    Estimate { signed: S },
    /// The fee.
    Done(u64),
    /// The run has failed.
    Rejected(NativeError),
}

/// Begins an estimation of fees for a message: the message is copied, and
/// the copy waits to be finalised with the placeholder signature.
pub fn internal_ton_wallet_estimate_fees<M: Clone, S>(message: &M) -> (run: Estimation<M, S>)
    ensures
        run matches Estimation::Finalize { message: copy, signature } && forall|i: int|
            0 <= i < 64 ==> signature@[i] == 0,
{
    Estimation::Finalize { message: clone_message(message), signature: placeholder_signature() }
}

impl<M, S> Estimation<M, S> {
    /// Takes the finalised copy. A run that waits for it goes on to the
    /// wallet with exactly that message, or is rejected with a wallet
    /// error where finalising failed. A run at any other step stays as it
    /// is.
    pub fn on_finalized(self, finalized: Result<S, String>) -> (next: Estimation<M, S>)
        ensures
            match self {
                Estimation::Finalize { message, signature } => match finalized {
                    Ok(signed) => next == (Estimation::<M, S>::Estimate { signed }),
                    Err(text) => next matches Estimation::Rejected(e) && e@.kind
                        == ErrorKind::WalletProtocolError(WalletFailure::Plain) && e@.info == text@,
                },
                _ => next == self,
            },
    {
        match self {
            Estimation::Finalize { message, signature } => match finalized {
                Ok(signed) => Estimation::Estimate { signed },
                Err(text) => Estimation::Rejected(
                    NativeError {
                        kind: ErrorKind::WalletProtocolError(WalletFailure::Plain),
                        info: text,
                    },
                ),
            },
            other => other,
        }
    }

    /// Takes the fee that the wallet computed. A run that waits for it is
    /// done with that fee, or is rejected with a wallet error where the
    /// wallet failed. A run at any other step stays as it is.
    pub fn on_estimated(self, fees: Result<u64, String>) -> (next: Estimation<M, S>)
        ensures
            match self {
                Estimation::Estimate { signed } => match fees {
                    Ok(fee) => next == Estimation::<M, S>::Done(fee),
                    Err(text) => next matches Estimation::Rejected(e) && e@.kind
                        == ErrorKind::WalletProtocolError(WalletFailure::Plain) && e@.info == text@,
                },
                _ => next == self,
            },
    {
        match self {
            Estimation::Estimate { signed } => match fees {
                Ok(fee) => Estimation::Done(fee),
                Err(text) => Estimation::Rejected(
                    NativeError {
                        kind: ErrorKind::WalletProtocolError(WalletFailure::Plain),
                        info: text,
                    },
                ),
            },
            other => other,
        }
    }

    /// What the run ended with: the fee or the error, and `None` for a run
    /// that has not ended.
    pub fn outcome(self) -> (r: Option<Result<u64, NativeError>>)
        ensures
            match self {
                Estimation::Done(fee) => r == Some(Ok::<u64, NativeError>(fee)),
                Estimation::Rejected(e) => r == Some(Err::<u64, NativeError>(e)),
                _ => r is None,
            },
    {
        match self {
            Estimation::Done(fee) => Some(Ok(fee)),
            Estimation::Rejected(e) => Some(Err(e)),
            _ => None,
        }
    }
}

/// One submission, at the step it has reached. `M` is an unsigned
/// message, `S` a finalised one, `E` and `D` the parameters of the two
/// signing schemes.
#[derive(Debug)]
pub enum Submission<M, S, E, D> {
    /// The copy is to be signed by the scheme of `input`.
    Sign { message: M, input: SignInput<E, D> },
    /// The signing parameters are handed out, and the run waits for the
    /// key store to sign the hash of the copy, whose expiration is to be
    /// refreshed first.
    Signing { message: M },
    /// The run waits for the copy to be finalised with the signature.
    Finalize { message: M, signature: [u8; 64] },
    /// The run waits for the wallet to send the finalised message.
    Send { signed: S },
    /// The message is in flight.
    Done(PendingTransaction),
    /// The run has failed.
    Rejected(NativeError),
}

/// Begins a submission of a message.
///
/// The message is copied. Where no signing scheme takes the signing
/// parameters, the run is rejected with the unknown signer; else the copy
/// waits for the signature of the scheme that [`select_signer`] picks.
pub fn internal_ton_wallet_send<M: Clone, S, E, D>(
    message: &M,
    encrypted: Option<E>,
    derived: Option<D>,
) -> (run: Submission<M, S, E, D>)
    ensures
        match (encrypted, derived) {
            (Some(e), _) => run matches Submission::Sign { message: copy, input } && input
                == SignInput::<E, D>::EncryptedKey(e),
            (None, Some(d)) => run matches Submission::Sign { message: copy, input } && input
                == SignInput::<E, D>::DerivedKey(d),
            (None, None) => run matches Submission::Rejected(e) && e@.kind
                == ErrorKind::SigningError(SigningFailure::UnknownSigner) && e@.info
                == UNKNOWN_SIGNER@,
        },
{
    match select_signer(encrypted, derived) {
        Ok(input) => Submission::Sign { message: clone_message(message), input },
        Err(e) => Submission::Rejected(e),
    }
}

impl<M, S, E, D> Submission<M, S, E, D> {
    /// Hands out the signing parameters of a run that is to be signed, once:
    /// the run then waits for the signature. A run at any other step stays
    /// as it is and hands out nothing.
    pub fn begin_signing(self) -> (r: (Submission<M, S, E, D>, Option<SignInput<E, D>>))
        ensures
            match self {
                Submission::Sign { message, input } => r.0 == (Submission::<
                    M,
                    S,
                    E,
                    D,
                >::Signing { message }) && r.1 == Some(input),
                _ => r.0 == self && r.1 is None,
            },
    {
        match self {
            Submission::Sign { message, input } => (Submission::Signing { message }, Some(input)),
            other => (other, None),
        }
    }

    /// Takes the signature. A run that waits for it goes on to finalise
    /// the same copy with exactly that signature, or is rejected with a
    /// signing error where the key store failed. A run at any other step
    /// stays as it is.
    pub fn on_signed(self, signature: Result<[u8; 64], String>) -> (next: Submission<M, S, E, D>)
        ensures
            match self {
                Submission::Signing { message } => match signature {
                    Ok(bytes) => next == (Submission::<M, S, E, D>::Finalize {
                        message,
                        signature: bytes,
                    }),
                    Err(text) => next matches Submission::Rejected(e) && e@.kind
                        == ErrorKind::SigningError(SigningFailure::Crypto) && e@.info == text@,
                },
                _ => next == self,
            },
    {
        match self {
            Submission::Signing { message } => match signature {
                Ok(bytes) => Submission::Finalize { message, signature: bytes },
                Err(text) => Submission::Rejected(
                    NativeError { kind: ErrorKind::SigningError(SigningFailure::Crypto), info: text },
                ),
            },
            other => other,
        }
    }

    /// Takes the finalised message. A run that waits for it goes on to
    /// send exactly that message, or is rejected with a signing error
    /// where finalising failed. A run at any other step stays as it is.
    pub fn on_finalized(self, finalized: Result<S, String>) -> (next: Submission<M, S, E, D>)
        ensures
            match self {
                Submission::Finalize { message, signature } => match finalized {
                    Ok(signed) => next == (Submission::<M, S, E, D>::Send { signed }),
                    Err(text) => next matches Submission::Rejected(e) && e@.kind
                        == ErrorKind::SigningError(SigningFailure::Crypto) && e@.info == text@,
                },
                _ => next == self,
            },
    {
        match self {
            Submission::Finalize { message, signature } => match finalized {
                Ok(signed) => Submission::Send { signed },
                Err(text) => Submission::Rejected(
                    NativeError { kind: ErrorKind::SigningError(SigningFailure::Crypto), info: text },
                ),
            },
            other => other,
        }
    }

    /// Takes the wallet's answer to the send.
    ///
    /// Only a run that waits for it and is answered with a message in
    /// flight changes the wallet: the message is taken into the messages
    /// in flight as [`Wallet::record_sent`] says, the listener is told,
    /// and the run is done. Where the send failed the run is rejected with
    /// a wallet error, and a run at any other step stays as it is; either
    /// way the wallet stays as it was and nobody is told anything.
    pub fn on_sent(self, ton_wallet: &mut Wallet, sent: Result<PendingTransaction, String>) -> (r: (
        Submission<M, S, E, D>,
        Vec<Delivery>,
    ))
        ensures
            ({
                let before = old(ton_wallet)@;
                let after = final(ton_wallet)@;
                match self {
                    Submission::Send { signed } => match sent {
                        Ok(pending) => r.0 == Submission::<M, S, E, D>::Done(pending) && after
                            == before.after_send(pending) && r.1@ == deliveries(
                            before.listener,
                            before.change_notes(after),
                        ),
                        Err(text) => r.0 matches Submission::Rejected(e) && e@.kind
                            == ErrorKind::WalletProtocolError(WalletFailure::Plain) && e@.info
                            == text@ && after == before && r.1@.len() == 0,
                    },
                    _ => r.0 == self && after == before && r.1@.len() == 0,
                }
            }),
    {
        match self {
            Submission::Send { signed } => match sent {
                Ok(pending) => {
                    let told = ton_wallet.record_sent(pending);
                    (Submission::Done(pending), told)
                },
                Err(text) => (
                    Submission::Rejected(
                        NativeError {
                            kind: ErrorKind::WalletProtocolError(WalletFailure::Plain),
                            info: text,
                        },
                    ),
                    Vec::new(),
                ),
            },
            other => (other, Vec::new()),
        }
    }

    /// What the run ended with: the message in flight or the error, and
    /// `None` for a run that has not ended.
    pub fn outcome(self) -> (r: Option<Result<PendingTransaction, NativeError>>)
        ensures
            match self {
                Submission::Done(pending) => r == Some(Ok::<PendingTransaction, NativeError>(pending)),
                Submission::Rejected(e) => r == Some(Err::<PendingTransaction, NativeError>(e)),
                _ => r is None,
            },
    {
        match self {
            Submission::Done(pending) => Some(Ok(pending)),
            Submission::Rejected(e) => Some(Err(e)),
            _ => None,
        }
    }
}

} // verus!
