//! Public keys and their hexadecimal text form.
//!
//! A key travels as text: two lower-case hexadecimal digits per byte. The
//! text is written and read by the `hex` crate, and a key is accepted where
//! `ed25519_dalek` accepts its bytes.

use vstd::prelude::*;

use crate::error::{ErrorKind, NativeError};

verus! {

/// The number of bytes of a public key.
pub const PUBLIC_KEY_LENGTH: usize = 32;

/// The lower-case hexadecimal digit of a value below sixteen.
pub open spec fn hex_digit(n: int) -> char {
    seq!['0', '1', '2', '3', '4', '5', '6', '7', '8', '9', 'a', 'b', 'c', 'd', 'e', 'f'][n]
}

/// The value of a hexadecimal digit of either case, if `c` is one.
pub open spec fn hex_value(c: char) -> Option<int> {
    if '0' <= c <= '9' {
        Some(c as int - '0' as int)
    } else if 'a' <= c <= 'f' {
        Some(c as int - 'a' as int + 10)
    } else if 'A' <= c <= 'F' {
        Some(c as int - 'A' as int + 10)
    } else {
        None
    }
}

/// The text of `bytes`: for each byte its high digit, then its low digit.
pub open spec fn hex_encode(bytes: Seq<u8>) -> Seq<char> {
    Seq::new(
        2 * bytes.len(),
        |i: int|
            if i % 2 == 0 {
                hex_digit(bytes[i / 2] as int / 16)
            } else {
                hex_digit(bytes[i / 2] as int % 16)
            },
    )
}

/// Whether `text` is the text of some bytes: an even number of
/// hexadecimal digits.
pub open spec fn is_hex(text: Seq<char>) -> bool {
    text.len() % 2 == 0 && forall|i: int| 0 <= i < text.len() ==> hex_value(#[trigger] text[i]) is Some
}

/// The bytes that `text` stands for, where it is hexadecimal.
pub open spec fn hex_decode(text: Seq<char>) -> Seq<u8>
    recommends
        is_hex(text),
{
    Seq::new(
        text.len() / 2,
        |i: int| (hex_value(text[2 * i])->0 * 16 + hex_value(text[2 * i + 1])->0) as u8,
    )
}

/// Reading back what was written gives the bytes again.
pub proof fn lemma_hex_round_trip(bytes: Seq<u8>)
    ensures
        is_hex(hex_encode(bytes)),
        hex_decode(hex_encode(bytes)) == bytes,
{
    let text = hex_encode(bytes);
    assert forall|n: int| 0 <= n < 16 implies hex_value(#[trigger] hex_digit(n)) == Some(n) by {
        if n == 0 {
        } else if n == 1 {
        } else if n == 2 {
        } else if n == 3 {
        } else if n == 4 {
        } else if n == 5 {
        } else if n == 6 {
        } else if n == 7 {
        } else if n == 8 {
        } else if n == 9 {
        } else if n == 10 {
        } else if n == 11 {
        } else if n == 12 {
        } else if n == 13 {
        } else if n == 14 {
        } else {
        }
    }
    assert forall|i: int| 0 <= i < text.len() implies hex_value(#[trigger] text[i]) is Some by {
        let b = bytes[i / 2] as int;
        assert(0 <= b / 16 < 16 && 0 <= b % 16 < 16);
        assert(hex_value(hex_digit(b / 16)) == Some(b / 16));
        assert(hex_value(hex_digit(b % 16)) == Some(b % 16));
    }
    assert forall|i: int| 0 <= i < bytes.len() implies #[trigger] hex_decode(text)[i]
        == bytes[i] by {
        let b = bytes[i] as int;
        assert(0 <= b / 16 < 16 && 0 <= b % 16 < 16);
        assert(hex_value(hex_digit(b / 16)) == Some(b / 16));
        assert(hex_value(hex_digit(b % 16)) == Some(b % 16));
        assert(text[2 * i] == hex_digit(b / 16));
        assert(text[2 * i + 1] == hex_digit(b % 16));
    }
    assert(hex_decode(text) =~= bytes);
}

#[verifier::external_type_specification]
#[verifier::external_body]
pub struct ExFromHexError(::hex::FromHexError);

#[verifier::external_type_specification]
#[verifier::external_body]
pub struct ExSignatureError(ed25519_dalek::SignatureError);

/// `hex::encode`: every byte becomes two lower-case digits, the high one
/// first, so the text is exactly [`hex_encode`] of the bytes.
#[verifier::external_body]
fn encode_hex(bytes: &[u8]) -> (text: String)
    ensures
        text@ == hex_encode(bytes@),
{
    ::hex::encode(bytes)
}

/// `hex::decode`: succeeds exactly on an even number of hexadecimal digits
/// of either case, and then gives one byte per pair of digits, the first
/// digit of a pair being the high one. The crate reads bytes, not
/// characters; a text with a character beyond ASCII has a byte that is no
/// digit, so it fails there as it fails here.
#[verifier::external_body]
fn decode_hex(text: &str) -> (r: Result<Vec<u8>, ::hex::FromHexError>)
    ensures
        r is Ok <==> is_hex(text@),
        r matches Ok(bytes) ==> bytes@ == hex_decode(text@),
{
    ::hex::decode(text)
}

/// The text that `hex::FromHexError` displays. Nothing is claimed of it.
#[verifier::external_body]
fn describe_hex_error(e: &::hex::FromHexError) -> String {
    e.to_string()
}

/// Whether `ed25519_dalek::PublicKey::from_bytes` accepts these bytes as a
/// public key.
pub uninterp spec fn accepts_public_key(bytes: Seq<u8>) -> bool;

/// `ed25519_dalek::PublicKey::from_bytes`, followed by `to_bytes` on the
/// key it made. It accepts or refuses by the bytes alone, it refuses every
/// length but [`PUBLIC_KEY_LENGTH`], and the bytes of an accepted key are
/// the bytes it was made from.
#[verifier::external_body]
fn check_public_key(bytes: &[u8]) -> (r: Result<[u8; 32], ed25519_dalek::SignatureError>)
    ensures
        r is Ok == accepts_public_key(bytes@),
        r is Ok ==> bytes@.len() == PUBLIC_KEY_LENGTH,
        r matches Ok(key) ==> key@ == bytes@,
{
    match ed25519_dalek::PublicKey::from_bytes(bytes) {
        Ok(key) => Ok(key.to_bytes()),
        Err(e) => Err(e),
    }
}

/// The text that `ed25519_dalek::SignatureError` displays. Nothing is
/// claimed of it.
#[verifier::external_body]
fn describe_signature_error(e: &ed25519_dalek::SignatureError) -> String {
    e.to_string()
}

/// Whether `bytes` are the bytes of a public key.
pub open spec fn is_public_key(bytes: Seq<u8>) -> bool {
    bytes.len() == PUBLIC_KEY_LENGTH && accepts_public_key(bytes)
}

/// Whether `text` is the text of a public key.
pub open spec fn is_public_key_text(text: Seq<char>) -> bool {
    is_hex(text) && is_public_key(hex_decode(text))
}

/// Whether two strings of thirty-two bytes are equal.
pub fn bytes_equal(a: &[u8; 32], b: &[u8; 32]) -> (same: bool)
    ensures
        same == (a@ == b@),
        same == (*a == *b),
{
    let mut i: usize = 0;
    while i < 32
        invariant
            i <= 32,
            forall|k: int| 0 <= k < i ==> a@[k] == b@[k],
        decreases 32 - i,
    {
        if a[i] != b[i] {
            return false;
        }
        i += 1;
    }
    assert(a@ =~= b@);
    assert(*a =~= *b);
    true
}

/// A public key: thirty-two bytes that `ed25519_dalek` accepts.
#[derive(Clone, Copy, Debug, PartialEq, Eq)]
pub struct PublicKey {
    bytes: [u8; 32],
}

impl View for PublicKey {
    type V = Seq<u8>;

    closed spec fn view(&self) -> Seq<u8> {
        self.bytes@
    }
}

impl PublicKey {
    #[verifier::type_invariant]
    spec fn valid(&self) -> bool {
        is_public_key(self.bytes@)
    }

    /// The key with these bytes, if they are the bytes of one.
    pub fn from_bytes(bytes: &[u8]) -> (r: Result<PublicKey, NativeError>)
        ensures
            r is Ok <==> is_public_key(bytes@),
            r matches Ok(key) ==> key@ == bytes@,
            r matches Err(e) ==> e@.kind == ErrorKind::ConversionError,
    {
        match check_public_key(bytes) {
            Ok(key) => Ok(PublicKey { bytes: key }),
            Err(e) => Err(
                NativeError { kind: ErrorKind::ConversionError, info: describe_signature_error(&e) },
            ),
        }
    }

    /// The bytes of the key.
    pub fn to_bytes(&self) -> (bytes: [u8; 32])
        ensures
            bytes@ == self@,
            is_public_key(self@),
    {
        proof {
            use_type_invariant(self);
        }
        self.bytes
    }

    /// The text of the key: sixty-four lower-case hexadecimal digits.
    pub fn to_hex_string(&self) -> (text: String)
        ensures
            text@ == hex_encode(self@),
    {
        encode_hex(self.bytes.as_slice())
    }

    /// Whether two keys are the same.
    pub fn same_as(&self, other: &PublicKey) -> (same: bool)
        ensures
            same == (self@ == other@),
            same == (*self == *other),
    {
        bytes_equal(&self.bytes, &other.bytes)
    }
}

/// Reads a public key from its text.
///
/// The text is accepted exactly if it is an even number of hexadecimal
/// digits, of either case, that stand for the bytes of a public key. Every
/// other text is a conversion error.
pub fn parse_public_key(public_key: &str) -> (r: Result<PublicKey, NativeError>)
    ensures
        r is Ok <==> is_public_key_text(public_key@),
        r matches Ok(key) ==> key@ == hex_decode(public_key@),
        r matches Err(e) ==> e@.kind == ErrorKind::ConversionError,
{
    match decode_hex(public_key) {
        Ok(bytes) => PublicKey::from_bytes(bytes.as_slice()),
        Err(e) => Err(NativeError { kind: ErrorKind::ConversionError, info: describe_hex_error(&e) }),
    }
}

/// The bytes of each key of a list.
pub open spec fn keys_view(keys: Seq<PublicKey>) -> Seq<Seq<u8>> {
    Seq::new(keys.len(), |i: int| keys[i]@)
}

/// The characters of each text of a list.
pub open spec fn texts_view(texts: Seq<String>) -> Seq<Seq<char>> {
    Seq::new(texts.len(), |i: int| texts[i]@)
}

/// The texts of a list of keys, in the order of the keys.
pub open spec fn custodian_texts(keys: Seq<Seq<u8>>) -> Seq<Seq<char>> {
    Seq::new(keys.len(), |i: int| hex_encode(keys[i]))
}

/// Whether every text of a list is the text of a public key.
pub open spec fn are_public_key_texts(texts: Seq<Seq<char>>) -> bool {
    forall|i: int| 0 <= i < texts.len() ==> is_public_key_text(#[trigger] texts[i])
}

/// The keys that a list of texts stands for, in the order of the texts.
pub open spec fn custodian_keys(texts: Seq<Seq<char>>) -> Seq<Seq<u8>>
    recommends
        are_public_key_texts(texts),
{
    Seq::new(texts.len(), |i: int| hex_decode(texts[i]))
}

/// Writes each key of a custodian list as text, keeping the order and
/// every duplicate.
pub fn custodians_to_hex(custodians: &Vec<PublicKey>) -> (texts: Vec<String>)
    ensures
        texts_view(texts@) == custodian_texts(keys_view(custodians@)),
{
    let mut texts: Vec<String> = Vec::new();
    let mut i: usize = 0;
    while i < custodians.len()
        invariant
            i <= custodians.len(),
            texts.len() == i,
            forall|k: int| 0 <= k < i ==> (#[trigger] texts@[k])@ == hex_encode(custodians@[k]@),
        decreases custodians.len() - i,
    {
        texts.push(custodians[i].to_hex_string());
        i += 1;
    }
    assert(texts_view(texts@) =~= custodian_texts(keys_view(custodians@)));
    texts
}

/// Reads a custodian list from the texts of its keys, keeping the order
/// and every duplicate. One text that is not the text of a public key
/// makes the whole list a conversion error.
pub fn parse_custodians(texts: &Vec<String>) -> (r: Result<Vec<PublicKey>, NativeError>)
    ensures
        r is Ok <==> are_public_key_texts(texts_view(texts@)),
        r matches Ok(keys) ==> keys_view(keys@) == custodian_keys(texts_view(texts@)),
        r matches Err(e) ==> e@.kind == ErrorKind::ConversionError,
{
    let mut keys: Vec<PublicKey> = Vec::new();
    let mut i: usize = 0;
    while i < texts.len()
        invariant
            i <= texts.len(),
            keys.len() == i,
            forall|k: int| 0 <= k < i ==> is_public_key_text(#[trigger] texts@[k]@),
            forall|k: int| 0 <= k < i ==> (#[trigger] keys@[k])@ == hex_decode(texts@[k]@),
        decreases texts.len() - i,
    {
        match parse_public_key(texts[i].as_str()) {
            Ok(key) => {
                keys.push(key);
            },
            Err(e) => {
                assert(!is_public_key_text(texts_view(texts@)[i as int]));
                return Err(e);
            },
        }
        i += 1;
    }
    assert(keys_view(keys@) =~= custodian_keys(texts_view(texts@)));
    Ok(keys)
}

/// Writing a custodian list as text and reading the texts back gives the
/// same keys in the same order.
pub proof fn lemma_custodians_round_trip(keys: Seq<Seq<u8>>)
    requires
        forall|i: int| 0 <= i < keys.len() ==> is_public_key(#[trigger] keys[i]),
    ensures
        are_public_key_texts(custodian_texts(keys)),
        custodian_keys(custodian_texts(keys)) == keys,
{
    let texts = custodian_texts(keys);
    assert forall|i: int| 0 <= i < texts.len() implies is_public_key_text(#[trigger] texts[i]) by {
        lemma_hex_round_trip(keys[i]);
    }
    assert forall|i: int| 0 <= i < keys.len() implies #[trigger] custodian_keys(texts)[i]
        == keys[i] by {
        lemma_hex_round_trip(keys[i]);
    }
    assert(custodian_keys(texts) =~= keys);
}

} // verus!
