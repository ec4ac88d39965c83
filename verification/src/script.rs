//! The JavaScript calls that the viewer makes in its web view, with the text they
//! carry quoted as JSON strings.

use vstd::prelude::*;

verus! {

/// The lower-case hexadecimal digit for `n` (below 16).
pub open spec fn hex_lower(n: u32) -> char {
    if n < 10 {
        (48 + n) as char
    } else {
        (87 + n) as char
    }
}

/// How a JSON string writes the character `c`: `"` and `\` behind a backslash,
/// the control characters below U+0020 as `\b`, `\t`, `\n`, `\f`, `\r` or `\u00XX`
/// (lower-case hexadecimal), every other character as itself.
pub open spec fn json_escape_char(c: char) -> Seq<char> {
    if c == '"' {
        seq!['\\', '"']
    } else if c == '\\' {
        seq!['\\', '\\']
    } else if c == '\u{8}' {
        seq!['\\', 'b']
    } else if c == '\t' {
        seq!['\\', 't']
    } else if c == '\n' {
        seq!['\\', 'n']
    } else if c == '\u{c}' {
        seq!['\\', 'f']
    } else if c == '\r' {
        seq!['\\', 'r']
    } else if (c as u32) < 32 {
        seq!['\\', 'u', '0', '0', hex_lower((c as u32) / 16), hex_lower((c as u32) % 16)]
    } else {
        seq![c]
    }
}

/// The characters of `s`, each written as a JSON string writes it.
pub open spec fn json_escaped(s: Seq<char>) -> Seq<char>
    decreases s.len(),
{
    if s.len() == 0 {
        Seq::empty()
    } else {
        json_escaped(s.drop_last()) + json_escape_char(s.last())
    }
}

/// `s` as a JSON string literal: its escaped characters between double quotes.
pub open spec fn json_quoted(s: Seq<char>) -> Seq<char> {
    seq!['"'] + json_escaped(s) + seq!['"']
}

/// `serde_json::to_string` on a string slice, which writes it as a JSON string
/// literal. Serialising a `str` cannot fail; the empty text in the error arm is
/// never produced.
#[verifier::external_body]
pub(crate) fn json_string(s: &str) -> (r: String)
    ensures
        r@ == json_quoted(s@),
{
    match serde_json::to_string(s) {
        Ok(text) => text,
        Err(_) => String::new(),
    }
}

/// The call that shows a document: its text and its path.
pub open spec fn render_call(content: Seq<char>, path: Seq<char>) -> Seq<char> {
    "window.__feather_render("@ + json_quoted(content) + ", "@ + json_quoted(path) + ")"@
}

/// The call that replaces the shown text after the document changed on disk.
pub open spec fn refresh_call(content: Seq<char>) -> Seq<char> {
    "window.__feather_refresh("@ + json_quoted(content) + ")"@
}

/// The message shown when the document at `path` could not be opened.
pub open spec fn open_error_message(path: Seq<char>) -> Seq<char> {
    "文件不存在或无法读取: \""@ + path + "\""@
}

/// The call that reports that the document at `path` could not be opened: a
/// title and the message, the message passed as a JSON string literal.
pub open spec fn open_error_call(path: Seq<char>) -> Seq<char> {
    "window.__feather_error('无法打开文件', "@ + json_quoted(open_error_message(path)) + ")"@
}

/// The call that selects the colour theme `theme`.
pub open spec fn theme_call(theme: Seq<char>) -> Seq<char> {
    "window.__feather_set_theme("@ + json_quoted(theme) + ")"@
}

/// The script that shows `content` as the document at `path`.
pub fn render_script(content: &str, path: &str) -> (r: String)
    ensures
        r@ == render_call(content@, path@),
{
    let c = json_string(content);
    let p = json_string(path);
    String::from_str("window.__feather_render(").concat(c.as_str()).concat(", ").concat(
        p.as_str(),
    ).concat(")")
}

/// The script that replaces the shown text with `content`.
pub fn refresh_script(content: &str) -> (r: String)
    ensures
        r@ == refresh_call(content@),
{
    let c = json_string(content);
    String::from_str("window.__feather_refresh(").concat(c.as_str()).concat(")")
}

/// The script that reports that the document at `path` could not be opened.
pub fn open_error_script(path: &str) -> (r: String)
    ensures
        r@ == open_error_call(path@),
{
    let message = String::from_str("文件不存在或无法读取: \"").concat(path).concat("\"");
    let m = json_string(message.as_str());
    String::from_str("window.__feather_error('无法打开文件', ").concat(m.as_str()).concat(")")
}

/// The script that selects the colour theme `theme`.
pub fn theme_script(theme: &str) -> (r: String)
    ensures
        r@ == theme_call(theme@),
{
    let t = json_string(theme);
    String::from_str("window.__feather_set_theme(").concat(t.as_str()).concat(")")
}

} // verus!
