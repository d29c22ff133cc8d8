//! Lists of texts as JSON: the form in which custodian keys come in and go
//! out. Reading and writing is the work of `serde_json`.

use vstd::prelude::*;

use crate::error::{ErrorKind, NativeError};
use crate::keys::texts_view;

verus! {

#[verifier::external_type_specification]
#[verifier::external_body]
pub struct ExJsonError(serde_json::Error);

/// The list of texts that `serde_json::from_str` reads from a JSON text
/// when it is asked for a `Vec<String>`, or `None` where it fails.
pub uninterp spec fn json_text_list(text: Seq<char>) -> Option<Seq<Seq<char>>>;

/// The JSON text that `serde_json::to_string` writes for an
/// `Option<Vec<String>>`, or `None` where it fails.
pub uninterp spec fn json_of_text_list(list: Option<Seq<Seq<char>>>) -> Option<Seq<char>>;

/// `serde_json::from_str::<Vec<String>>`: what it reads depends on the
/// text alone.
#[verifier::external_body]
fn read_text_list(text: &str) -> (r: Result<Vec<String>, serde_json::Error>)
    ensures
        match r {
            Ok(list) => json_text_list(text@) == Some(texts_view(list@)),
            Err(_) => json_text_list(text@) is None,
        },
{
    serde_json::from_str::<Vec<String>>(text)
}

/// `serde_json::to_string` on an `Option<Vec<String>>`: what it writes
/// depends on the list alone.
#[verifier::external_body]
fn write_text_list(list: &Option<Vec<String>>) -> (r: Result<String, serde_json::Error>)
    ensures
        match r {
            Ok(text) => json_of_text_list(optional_texts_view(*list)) == Some(text@),
            Err(_) => json_of_text_list(optional_texts_view(*list)) is None,
        },
{
    serde_json::to_string(list)
}

/// The text that `serde_json::Error` displays. Nothing is claimed of it.
#[verifier::external_body]
fn describe_json_error(e: &serde_json::Error) -> String {
    e.to_string()
}

/// The characters of each text of a list that may be absent.
pub open spec fn optional_texts_view(list: Option<Vec<String>>) -> Option<Seq<Seq<char>>> {
    match list {
        Some(texts) => Some(texts_view(texts@)),
        None => None,
    }
}

/// Reads a list of texts from JSON. A text that is no JSON list of texts
/// is a conversion error.
pub fn parse_text_list(text: &str) -> (r: Result<Vec<String>, NativeError>)
    ensures
        match r {
            Ok(list) => json_text_list(text@) == Some(texts_view(list@)),
            Err(e) => json_text_list(text@) is None && e@.kind == ErrorKind::ConversionError,
        },
{
    match read_text_list(text) {
        Ok(list) => Ok(list),
        Err(e) => Err(NativeError { kind: ErrorKind::ConversionError, info: describe_json_error(&e) }),
    }
}

/// Writes a list of texts, which may be absent, as JSON. Where the writer
/// fails, that is a conversion error.
pub fn render_text_list(list: &Option<Vec<String>>) -> (r: Result<String, NativeError>)
    ensures
        match r {
            Ok(text) => json_of_text_list(optional_texts_view(*list)) == Some(text@),
            Err(e) => json_of_text_list(optional_texts_view(*list)) is None && e@.kind
                == ErrorKind::ConversionError,
        },
{
    match write_text_list(list) {
        Ok(text) => Ok(text),
        Err(e) => Err(NativeError { kind: ErrorKind::ConversionError, info: describe_json_error(&e) }),
    }
}

} // verus!
