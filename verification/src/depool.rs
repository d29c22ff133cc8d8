//! Orders for the payloads of a depool: adding an ordinary stake and
//! withdrawing a part. The payloads are encoded by others; here the
//! inputs are checked, and a failure of the encoder gets its kind.

use vstd::prelude::*;

use crate::error::{handle_error, ErrorKind, NativeError};

verus! {

/// What the encoder of depool payloads is to encode.
#[derive(Debug)]
pub enum DepoolOrder {
    AddOrdinaryStake { depool: String, depool_fee: u64, stake: u64 },
    WithdrawPart { depool: String, depool_fee: u64, withdraw_value: u64 },
}

/// Checks the inputs of a stake: the address of the depool must have been
/// read, else that is a conversion error. The amounts are handed on as
/// they are.
pub fn prepare_add_ordinary_stake(
    depool: Result<String, String>,
    depool_fee: u64,
    stake: u64,
) -> (r: Result<DepoolOrder, NativeError>)
    ensures
        match depool {
            Ok(address) => r == Ok::<DepoolOrder, NativeError>(
                DepoolOrder::AddOrdinaryStake { depool: address, depool_fee, stake },
            ),
            Err(text) => r matches Err(e) && e@.kind == ErrorKind::ConversionError && e@.info
                == text@,
        },
{
    match depool {
        Ok(address) => Ok(DepoolOrder::AddOrdinaryStake { depool: address, depool_fee, stake }),
        Err(text) => Err(NativeError { kind: ErrorKind::ConversionError, info: text }),
    }
}

/// Checks the inputs of a withdrawal: the address of the depool must have
/// been read, else that is a conversion error. The amounts are handed on
/// as they are.
pub fn prepare_withdraw_part(
    depool: Result<String, String>,
    depool_fee: u64,
    withdraw_value: u64,
) -> (r: Result<DepoolOrder, NativeError>)
    ensures
        match depool {
            Ok(address) => r == Ok::<DepoolOrder, NativeError>(
                DepoolOrder::WithdrawPart { depool: address, depool_fee, withdraw_value },
            ),
            Err(text) => r matches Err(e) && e@.kind == ErrorKind::ConversionError && e@.info
                == text@,
        },
{
    match depool {
        Ok(address) => Ok(DepoolOrder::WithdrawPart { depool: address, depool_fee, withdraw_value }),
        Err(text) => Err(NativeError { kind: ErrorKind::ConversionError, info: text }),
    }
}

/// The result of a depool operation from what its three steps came to:
/// the check of the inputs, the encoding of the payload, and the writing
/// of the encoded message as text. The first step that failed decides: a
/// refused input gives its error, a failed encoding an encoding error, a
/// failed writing a conversion error. `encoded` and `written` are `None`
/// where the step was never reached; a step that is missing though the
/// one before it succeeded gives `None`.
pub open spec fn depool_result(
    order: Result<DepoolOrder, NativeError>,
    encoded: Option<Result<(), Seq<char>>>,
    written: Option<Result<Seq<char>, Seq<char>>>,
    r: Option<Result<String, NativeError>>,
) -> bool {
    match order {
        Err(e) => r == Some(Err::<String, NativeError>(e)),
        Ok(_) => match encoded {
            None => r is None,
            Some(Err(text)) => r matches Some(Err(e)) && e@.kind == ErrorKind::EncodingError
                && e@.info == text,
            Some(Ok(_)) => match written {
                None => r is None,
                Some(Err(text)) => r matches Some(Err(e)) && e@.kind == ErrorKind::ConversionError
                    && e@.info == text,
                Some(Ok(text)) => r matches Some(Ok(t)) && t@ == text,
            },
        },
    }
}

/// The view of what an encoding came to.
pub open spec fn encoded_view(encoded: Option<Result<(), String>>) -> Option<Result<(), Seq<char>>> {
    match encoded {
        Some(Ok(_)) => Some(Ok(())),
        Some(Err(text)) => Some(Err(text@)),
        None => None,
    }
}

/// The view of what a writing came to.
pub open spec fn written_view(written: Option<Result<String, String>>) -> Option<
    Result<Seq<char>, Seq<char>>,
> {
    match written {
        Some(Ok(text)) => Some(Ok(text@)),
        Some(Err(text)) => Some(Err(text@)),
        None => None,
    }
}

/// Ends a depool operation as [`depool_result`] says.
pub fn finish_depool_message(
    order: Result<DepoolOrder, NativeError>,
    encoded: Option<Result<(), String>>,
    written: Option<Result<String, String>>,
) -> (r: Option<Result<String, NativeError>>)
    ensures
        depool_result(order, encoded_view(encoded), written_view(written), r),
{
    match order {
        Err(e) => Some(Err(e)),
        Ok(_) => match encoded {
            None => None,
            Some(built) => match handle_error(built, ErrorKind::EncodingError) {
                Err(e) => Some(Err(e)),
                Ok(_) => match written {
                    None => None,
                    Some(text) => Some(handle_error(text, ErrorKind::ConversionError)),
                },
            },
        },
    }
}

} // verus!
