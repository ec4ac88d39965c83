//! Answers to requests made by the web view on the viewer's own URL scheme:
//! the front end's files, and files next to the open document under `local/`.

use vstd::prelude::*;
use vstd::utf8::encode_utf8;
use crate::assets::{Assets, asset_key, index_text, lookup};
use crate::chars::{chars_of, starts_with, vec_equals};
use crate::mime::{extension, guess_mime, mime_for_extension};
use crate::text::{string_from_chars, text_bytes, utf8_lossy, utf8_lossy_string};

verus! {

broadcast use vstd::string::group_string_axioms;

/// The value of `b` as a hexadecimal digit (`0-9`, `a-f`, `A-F`).
pub open spec fn hex_digit(b: u8) -> Option<u8> {
    if 48 <= b <= 57 {
        Some((b - 48) as u8)
    } else if 97 <= b <= 102 {
        Some((b - 87) as u8)
    } else if 65 <= b <= 70 {
        Some((b - 55) as u8)
    } else {
        None
    }
}

/// Percent-decoding: each `%` followed by two hexadecimal digits becomes the byte
/// they spell; every other byte, a `%` without two such digits included, stays.
pub open spec fn percent_decoded(s: Seq<u8>) -> Seq<u8>
    decreases s.len(),
{
    if s.len() == 0 {
        Seq::empty()
    } else if s[0] == 37 && s.len() >= 3 && hex_digit(s[1]) is Some && hex_digit(s[2]) is Some {
        seq![(hex_digit(s[1])->0 * 16 + hex_digit(s[2])->0) as u8] + percent_decoded(s.skip(3))
    } else {
        seq![s[0]] + percent_decoded(s.skip(1))
    }
}

/// `percent_encoding::percent_decode_str`, collected into bytes.
#[verifier::external_body]
fn percent_decode_text(s: &str) -> (r: Vec<u8>)
    ensures
        r@ == percent_decoded(encode_utf8(s@)),
{
    percent_encoding::percent_decode_str(s).collect()
}

/// `path` without its leading `/`, if it has one.
pub open spec fn strip_leading_slash(path: Seq<char>) -> Seq<char> {
    if path.len() > 0 && path[0] == '/' {
        path.drop_first()
    } else {
        path
    }
}

/// The file path that a request's URI path names: the URI path without its
/// leading `/`, percent-decoded, and read as UTF-8 with ill-formed sequences
/// replaced.
pub open spec fn request_path(uri_path: Seq<char>) -> Seq<char> {
    utf8_lossy(percent_decoded(encode_utf8(strip_leading_slash(uri_path))))
}

/// The prefix under which requests reach the folder of the open document.
pub open spec fn local_prefix() -> Seq<char> {
    seq!['l', 'o', 'c', 'a', 'l', '/']
}

/// The name of the front end's entry page.
pub open spec fn index_name() -> Seq<char> {
    seq!['i', 'n', 'd', 'e', 'x', '.', 'h', 't', 'm', 'l']
}

/// A body and its media type.
pub struct Response {
    pub body: Vec<u8>,
    pub mime: &'static str,
}

/// What to do with a request.
pub enum Route {
    /// Answer with this response.
    Respond(Response),
    /// Read this path, relative to the folder of the open document, and answer
    /// with `local_response`.
    ReadLocal(String),
}

/// Whether `r` has body `body` and media type `mime`.
pub open spec fn responds(r: Response, body: Seq<u8>, mime: Seq<char>) -> bool {
    r.body@ == body && r.mime@ == mime
}

/// The answer to a request that names nothing that exists.
pub open spec fn is_not_found(r: Response) -> bool {
    responds(r, encode_utf8("Not Found"@), "text/plain"@)
}

/// How a request with URI path `uri_path` is answered, given the front end's files
/// and whether a document (and so a folder for `local/`) is open:
/// - an empty path or `index.html`: the entry page's text (empty if it is
///   missing) as `text/html`;
/// - the path of a front-end file: that file, typed by its extension;
/// - `local/` followed by a path: that path next to the open document, or
///   `Not Found` when no document is open;
/// - anything else: `Not Found`.
pub open spec fn routes_to(uri_path: Seq<char>, files: Seq<(Seq<char>, Seq<u8>)>, has_dir: bool, r: Route) -> bool {
    let p = request_path(uri_path);
    if p.len() == 0 || p == index_name() {
        r matches Route::Respond(resp) && responds(
            resp,
            encode_utf8(
                match index_text(files) {
                    Some(t) => t,
                    None => Seq::empty(),
                },
            ),
            "text/html"@,
        )
    } else if lookup(files, asset_key(p)) is Some {
        r matches Route::Respond(resp) && responds(
            resp,
            lookup(files, asset_key(p))->0,
            mime_for_extension(extension(p)),
        )
    } else if local_prefix().len() <= p.len() && p.take(local_prefix().len() as int) == local_prefix() {
        if has_dir {
            r matches Route::ReadLocal(rel) && rel@ == p.skip(local_prefix().len() as int)
        } else {
            r matches Route::Respond(resp) && is_not_found(resp)
        }
    } else {
        r matches Route::Respond(resp) && is_not_found(resp)
    }
}

fn not_found() -> (r: Response)
    ensures
        is_not_found(r),
{
    Response { body: text_bytes("Not Found"), mime: "text/plain" }
}

/// The path that a request's URI path names: without its leading `/`,
/// percent-decoded, and read as UTF-8 with ill-formed sequences replaced.
pub fn decode_request_path(uri_path: &str) -> (r: String)
    ensures
        r@ == request_path(uri_path@),
{
    let v = chars_of(uri_path);
    let trimmed = if v.len() > 0 && v[0] == '/' {
        let mut rest: Vec<char> = Vec::new();
        let mut i: usize = 1;
        while i < v.len()
            invariant
                1 <= i <= v.len(),
                rest@ == v@.subrange(1, i as int),
            decreases v.len() - i,
        {
            rest.push(v[i]);
            i = i + 1;
        }
        rest
    } else {
        v
    };
    proof {
        if uri_path@.len() > 0 && uri_path@[0] == '/' {
            assert(trimmed@ =~= uri_path@.drop_first());
        }
    }
    let trimmed_text = string_from_chars(trimmed.as_slice());
    let decoded = percent_decode_text(trimmed_text.as_str());
    utf8_lossy_string(decoded.as_slice())
}

/// Decides how to answer a request on the viewer's URL scheme whose URI path is
/// `uri_path`. `has_dir` tells whether a document is open, so that `local/`
/// paths have a folder to be read from.
pub fn route_request(uri_path: &str, assets: &Assets, has_dir: bool) -> (r: Route)
    ensures
        routes_to(uri_path@, assets@, has_dir, r),
{
    let path = decode_request_path(uri_path);
    let p = chars_of(path.as_str());
    if p.len() == 0 || vec_equals(&p, &['i', 'n', 'd', 'e', 'x', '.', 'h', 't', 'm', 'l']) {
        let text = match assets.index_html() {
            Some(t) => t,
            None => String::new(),
        };
        return Route::Respond(Response { body: text_bytes(text.as_str()), mime: "text/html" });
    }
    match assets.get_asset(path.as_str()) {
        Some(content) => {
            let mime = guess_mime(path.as_str());
            Route::Respond(Response { body: content, mime })
        },
        None => {
            if starts_with(&p, &['l', 'o', 'c', 'a', 'l', '/']) {
                if has_dir {
                    let mut rel: Vec<char> = Vec::new();
                    let mut i: usize = 6;
                    while i < p.len()
                        invariant
                            6 <= i <= p.len(),
                            rel@ == p@.subrange(6, i as int),
                        decreases p.len() - i,
                    {
                        rel.push(p[i]);
                        i = i + 1;
                    }
                    Route::ReadLocal(string_from_chars(rel.as_slice()))
                } else {
                    Route::Respond(not_found())
                }
            } else {
                Route::Respond(not_found())
            }
        },
    }
}

/// What came of reading a file next to the open document.
pub enum LocalRead {
    /// No file exists at the path.
    Missing,
    /// The file exists but could not be read.
    Unreadable,
    /// The file's contents.
    Contents(Vec<u8>),
}

/// The answer to a `local/` request from the outcome of reading the file at
/// `full_path`: its contents typed by the extension of `full_path`,
/// `Cannot read file` when it could not be read, `Not Found` when it is missing.
pub fn local_response(full_path: &str, read: LocalRead) -> (r: Response)
    ensures
        match read {
            LocalRead::Missing => is_not_found(r),
            LocalRead::Unreadable => responds(r, encode_utf8("Cannot read file"@), "text/plain"@),
            LocalRead::Contents(bytes) => responds(r, bytes@, mime_for_extension(extension(full_path@))),
        },
{
    match read {
        LocalRead::Missing => not_found(),
        LocalRead::Unreadable => Response { body: text_bytes("Cannot read file"), mime: "text/plain" },
        LocalRead::Contents(bytes) => Response { body: bytes, mime: guess_mime(full_path) },
    }
}

/// The hexadecimal digit (upper case) that spells `d`, for `d` below 16.
pub open spec fn hex_char(d: u8) -> u8 {
    if d < 10 {
        (48 + d) as u8
    } else {
        (55 + d) as u8
    }
}

/// Percent-encoding of every byte: each byte becomes `%` and the two
/// hexadecimal digits that spell it.
pub open spec fn percent_encoded(b: Seq<u8>) -> Seq<u8>
    decreases b.len(),
{
    if b.len() == 0 {
        Seq::empty()
    } else {
        seq![37u8, hex_char(b[0] / 16), hex_char(b[0] % 16)] + percent_encoded(b.skip(1))
    }
}

/// Percent-decoding undoes percent-encoding: whatever bytes `b` holds (spaces,
/// `%` or any other), decoding their encoding gives `b` back.
pub proof fn lemma_percent_decoding_undoes_encoding(b: Seq<u8>)
    ensures
        percent_decoded(percent_encoded(b)) == b,
    decreases b.len(),
{
    if b.len() > 0 {
        let e = percent_encoded(b);
        let rest = percent_encoded(b.skip(1));
        let hi = b[0] / 16;
        let lo = b[0] % 16;
        assert(hex_digit(hex_char(hi)) == Some(hi));
        assert(hex_digit(hex_char(lo)) == Some(lo));
        assert(e[0] == 37 && e[1] == hex_char(hi) && e[2] == hex_char(lo));
        assert(e.skip(3) =~= rest);
        lemma_percent_decoding_undoes_encoding(b.skip(1));
        assert(hi * 16 + lo == b[0]);
        assert(seq![b[0]] + b.skip(1) =~= b);
    }
}

/// Text without `%` is left as it is by percent-decoding.
pub proof fn lemma_percent_decoding_keeps_plain_bytes(b: Seq<u8>)
    requires
        forall|i: int| 0 <= i < b.len() ==> b[i] != 37,
    ensures
        percent_decoded(b) == b,
    decreases b.len(),
{
    if b.len() > 0 {
        lemma_percent_decoding_keeps_plain_bytes(b.skip(1));
        assert(seq![b[0]] + b.skip(1) =~= b);
    }
}

/// A request under `local/` reads the file next to the open document: when the
/// request's decoded path is `local/` followed by any `rel` (spaces and every
/// other character included) and no front-end file has that path, the answer,
/// with a document open, is to read `rel` from the document's folder.
pub proof fn lemma_local_request_reads_next_to_document(
    uri_path: Seq<char>,
    files: Seq<(Seq<char>, Seq<u8>)>,
    rel: Seq<char>,
    r: Route,
)
    requires
        request_path(uri_path) == seq!['l', 'o', 'c', 'a', 'l', '/'] + rel,
        lookup(files, asset_key(request_path(uri_path))) is None,
        routes_to(uri_path, files, true, r),
    ensures
        r matches Route::ReadLocal(x) && x@ == rel,
{
    let p = request_path(uri_path);
    assert(p[0] == 'l');
    assert(p != index_name());
    assert(p.take(6) =~= local_prefix());
    assert(p.skip(6) =~= rel);
}

/// Without an open document, a request under `local/` that names no front-end
/// file is answered `Not Found`.
pub proof fn lemma_local_request_without_document(
    uri_path: Seq<char>,
    files: Seq<(Seq<char>, Seq<u8>)>,
    rel: Seq<char>,
    r: Route,
)
    requires
        request_path(uri_path) == seq!['l', 'o', 'c', 'a', 'l', '/'] + rel,
        lookup(files, asset_key(request_path(uri_path))) is None,
        routes_to(uri_path, files, false, r),
    ensures
        r matches Route::Respond(resp) && resp.body@ == encode_utf8("Not Found"@) && resp.mime@ == "text/plain"@,
{
    let p = request_path(uri_path);
    assert(p[0] == 'l');
    assert(p != index_name());
    assert(p.take(6) =~= local_prefix());
}

/// A request for a front-end file other than the entry page is answered with
/// that file's bytes, typed by its extension, whatever else the request names.
pub proof fn lemma_asset_request_serves_the_file(
    uri_path: Seq<char>,
    files: Seq<(Seq<char>, Seq<u8>)>,
    has_dir: bool,
    data: Seq<u8>,
    r: Route,
)
    requires
        request_path(uri_path).len() > 0,
        request_path(uri_path) != seq!['i', 'n', 'd', 'e', 'x', '.', 'h', 't', 'm', 'l'],
        lookup(files, asset_key(request_path(uri_path))) == Some(data),
        routes_to(uri_path, files, has_dir, r),
    ensures
        r matches Route::Respond(resp) && resp.body@ == data && resp.mime@ == mime_for_extension(
            extension(request_path(uri_path)),
        ),
{
}

} // verus!
