//! Message bytes and where they come from.

use bytes::Bytes;
use rand::distr::Alphanumeric;
use rand::Rng;
use vstd::prelude::*;
use vstd::string::*;
use vstd::utf8::encode_utf8;

use crate::utils::{unescape_string, unescaped};

verus! {

/// A shared buffer of bytes.
///
/// Trusted: `bytes::Bytes`, whose content is named [`bytes_of`].
#[verifier::external_type_specification]
#[verifier::external_body]
pub struct ExBytes(bytes::Bytes);

/// The bytes that a buffer holds.
pub uninterp spec fn bytes_of(b: Bytes) -> Seq<u8>;

/// Trusted: `Bytes::len` is the number of bytes that the buffer holds.
pub assume_specification[ bytes::Bytes::len ](b: &Bytes) -> (n: usize)
    ensures
        n == bytes_of(*b).len(),
;

/// Trusted: `Bytes::copy_from_slice` makes a buffer that holds the bytes of
/// the slice.
pub assume_specification[ bytes::Bytes::copy_from_slice ](data: &[u8]) -> (b: Bytes)
    ensures
        bytes_of(b) == data@,
;

/// Trusted: `Bytes::from` of a string makes a buffer that holds the string's
/// bytes, its encoding in UTF-8.
#[verifier::external_body]
fn bytes_from_string(s: String) -> (b: Bytes)
    ensures
        bytes_of(b) == encode_utf8(s@),
{
    Bytes::from(s)
}

/// Trusted: `Bytes::from` of a vector makes a buffer that holds the vector's
/// bytes.
#[verifier::external_body]
fn bytes_from_vec(v: Vec<u8>) -> (b: Bytes)
    ensures
        bytes_of(b) == v@,
{
    Bytes::from(v)
}

/// A letter or digit of ASCII.
pub open spec fn is_alphanumeric(b: u8) -> bool {
    ||| 0x30 <= b <= 0x39
    ||| 0x41 <= b <= 0x5A
    ||| 0x61 <= b <= 0x7A
}

/// Draws random letters and digits.
///
/// Trusted: `Rng::sample_iter` over `Alphanumeric`, cut off by `take`, gives
/// `size` bytes, each an ASCII letter or digit. Which ones is left to chance.
#[verifier::external_body]
fn random_alphanumeric(size: usize) -> (v: Vec<u8>)
    ensures
        v@.len() == size,
        forall|i: int| 0 <= i < v@.len() ==> is_alphanumeric(#[trigger] v@[i]),
{
    rand::rng().sample_iter(&Alphanumeric).take(size).collect()
}

/// The bytes of a text argument.
pub open spec fn message_bytes(text: Seq<char>, unescape: bool) -> Seq<u8> {
    encode_utf8(
        if unescape {
            unescaped(text)
        } else {
            text
        },
    )
}

/// What an optional buffer holds.
pub open spec fn held(b: Option<Bytes>) -> Option<Seq<u8>> {
    match b {
        Some(b) => Some(bytes_of(b)),
        None => None,
    }
}

/// The message that was given as an argument, as bytes.
pub fn get_message_arg(value: Option<&String>, unescape: bool) -> (r: Option<Bytes>)
    ensures
        held(r) == match value {
            Some(text) => Some(message_bytes(text@, unescape)),
            None => None,
        },
{
    match value {
        Some(text) => {
            if unescape {
                Some(bytes_from_string(unescape_string(text.as_str())))
            } else {
                Some(Bytes::copy_from_slice(text.as_str().as_bytes()))
            }
        },
        None => None,
    }
}

/// The message that was read from a file, as bytes; nothing where no file was
/// named or it could not be read.
pub fn get_file_arg(content: Option<String>, unescape: bool) -> (r: Option<Bytes>)
    ensures
        held(r) == match content {
            Some(text) => Some(message_bytes(text@, unescape)),
            None => None,
        },
{
    match content {
        Some(text) => {
            if unescape {
                Some(bytes_from_string(unescape_string(text.as_str())))
            } else {
                Some(bytes_from_string(text))
            }
        },
        None => None,
    }
}

/// A random payload: `size` ASCII letters and digits.
pub fn generate_payload(size: usize) -> (r: Option<Bytes>)
    ensures
        r matches Some(b) && bytes_of(b).len() == size && forall|i: int|
            0 <= i < size ==> is_alphanumeric(#[trigger] bytes_of(b)[i]),
{
    Some(bytes_from_vec(random_alphanumeric(size)))
}

} // verus!
