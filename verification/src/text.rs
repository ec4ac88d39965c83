//! Turning the bytes of a file into text, and the standard library's UTF-8 conversions
//! that the rest of the crate builds on.

use vstd::prelude::*;
use vstd::utf8::{decode_utf8, encode_utf8, valid_utf8};
use crate::viewer::opt_text;

verus! {

/// The text that `String::from_utf8_lossy` makes of `bytes`: the UTF-8 decoding of
/// `bytes`, with each ill-formed sequence replaced by U+FFFD.
pub uninterp spec fn utf8_lossy(bytes: Seq<u8>) -> Seq<char>;

/// What `encoding_rs::GBK.decode` makes of `bytes`: the text (a byte-order mark
/// at the start selects UTF-8 or UTF-16 in place of GBK and is dropped; malformed
/// sequences become U+FFFD) and whether malformed sequences were met.
pub uninterp spec fn gbk_decoded(bytes: Seq<u8>) -> (Seq<char>, bool);

/// `String::from_utf8`: succeeds exactly on well-formed UTF-8 and then holds the
/// characters that the bytes encode.
#[verifier::external_body]
pub(crate) fn utf8_string(bytes: &Vec<u8>) -> (r: Option<String>)
    ensures
        r is Some <==> valid_utf8(bytes@),
        r matches Some(s) ==> s@ == decode_utf8(bytes@),
{
    String::from_utf8(bytes.clone()).ok()
}

/// `String::from_utf8_lossy`, taken as an owned `String`. Its documentation says
/// that well-formed UTF-8 comes back unchanged; what it makes of other input is
/// only named here.
#[verifier::external_body]
pub(crate) fn utf8_lossy_string(bytes: &[u8]) -> (r: String)
    ensures
        r@ == utf8_lossy(bytes@),
        valid_utf8(bytes@) ==> r@ == decode_utf8(bytes@),
{
    String::from_utf8_lossy(bytes).into_owned()
}

/// The `String` holding the characters of `v`, built by `String::from_iter`.
#[verifier::external_body]
pub(crate) fn string_from_chars(v: &[char]) -> (r: String)
    ensures
        r@ == v@,
{
    String::from_iter(v.iter())
}

/// The UTF-8 encoding of `s`, as an owned vector.
pub(crate) fn text_bytes(s: &str) -> (r: Vec<u8>)
    ensures
        r@ == encode_utf8(s@),
{
    vstd::slice::slice_to_vec(s.as_bytes())
}

/// `encoding_rs::GBK.decode`: the decoded text and whether malformed sequences
/// were met (the encoding actually used is dropped). The crate sizes its output
/// buffer as about three bytes per input byte and panics when that size
/// overflows, which `requires` rules out.
#[verifier::external_body]
pub(crate) fn gbk_decode(bytes: &[u8]) -> (r: (String, bool))
    requires
        3 * bytes@.len() + 1 <= isize::MAX,
    ensures
        (r.0@, r.1) == gbk_decoded(bytes@),
{
    let (text, _, had_errors) = encoding_rs::GBK.decode(bytes);
    (text.into_owned(), had_errors)
}

/// The text of a file's bytes: their UTF-8 decoding when they are well-formed
/// UTF-8, else their GBK decoding when that meets no malformed sequence; `None`
/// when the bytes are neither.
pub open spec fn file_text(bytes: Seq<u8>) -> Option<Seq<char>> {
    if valid_utf8(bytes) {
        Some(decode_utf8(bytes))
    } else if !gbk_decoded(bytes).1 {
        Some(gbk_decoded(bytes).0)
    } else {
        None
    }
}

/// Decodes the contents of a file: as UTF-8 when they are well-formed UTF-8,
/// else as GBK; `None` when they are neither, so that the encoding cannot be
/// detected.
pub fn decode_file_contents(bytes: Vec<u8>) -> (r: Option<String>)
    requires
        !valid_utf8(bytes@) ==> 3 * bytes@.len() + 1 <= isize::MAX,
    ensures
        opt_text(r) == file_text(bytes@),
{
    match utf8_string(&bytes) {
        Some(text) => Some(text),
        None => {
            let (text, had_errors) = gbk_decode(bytes.as_slice());
            if had_errors {
                None
            } else {
                Some(text)
            }
        },
    }
}

/// The message given when a file cannot be read, from the reason the system gave.
pub open spec fn read_error_message(reason: Seq<char>) -> Seq<char> {
    "Cannot read file: "@ + reason
}

/// The message given when a file's bytes are neither UTF-8 nor GBK.
pub open spec fn encoding_error_message() -> Seq<char> {
    "Cannot detect the file's encoding (tried UTF-8 and GBK)"@
}

/// The text of a file from the outcome of reading it: the decoded contents; or
/// `Cannot read file: ` followed by the reason when the read failed; or a
/// message that the encoding cannot be detected when the bytes are neither
/// UTF-8 nor GBK.
pub fn text_from_read(read: Result<Vec<u8>, String>) -> (r: Result<String, String>)
    requires
        read matches Ok(bytes) ==> (!valid_utf8(bytes@) ==> 3 * bytes@.len() + 1 <= isize::MAX),
    ensures
        match read {
            Ok(bytes) => match file_text(bytes@) {
                Some(t) => r is Ok && r->Ok_0@ == t,
                None => r is Err && r->Err_0@ == encoding_error_message(),
            },
            Err(reason) => r is Err && r->Err_0@ == read_error_message(reason@),
        },
{
    match read {
        Ok(bytes) => match decode_file_contents(bytes) {
            Some(text) => Ok(text),
            None => Err(String::from_str("Cannot detect the file's encoding (tried UTF-8 and GBK)")),
        },
        Err(reason) => {
            let msg = String::from_str("Cannot read file: ").concat(reason.as_str());
            Err(msg)
        },
    }
}

} // verus!
