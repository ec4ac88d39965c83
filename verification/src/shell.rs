//! Which program the viewer starts to show a document in the file manager or to
//! open it in an editor.

use vstd::prelude::*;
use crate::viewer::opt_text;

verus! {

/// The family of operating system the viewer runs on.
#[derive(Debug, Clone, Copy, PartialEq, Eq, Structural)]
pub enum Platform {
    Windows,
    Other,
}

/// A program to start and its arguments.
pub struct Launch {
    pub program: String,
    pub args: Vec<String>,
}

/// Whether `l` starts `program` with `args`.
pub open spec fn launches(l: Launch, program: Seq<char>, args: Seq<Seq<char>>) -> bool {
    l.program@ == program && l.args@.map_values(|a: String| a@) == args
}

/// Whether `p` is a strict prefix of `path`.
pub open spec fn strict_prefix(p: Seq<char>, path: Seq<char>) -> bool {
    p.len() < path.len() && p == path.take(p.len() as int)
}

/// Whether `p` is a path whose parent every platform reads the same way: it is
/// not empty, does not end in `/`, holds no `\\` and no `:` (so no drive, share
/// or verbatim prefix), no empty component (`//`) and no `.` component.
pub open spec fn plain_path(p: Seq<char>) -> bool {
    &&& p.len() > 0
    &&& p.last() != '/'
    &&& forall|i: int| 0 <= i < p.len() ==> p[i] != '\\' && p[i] != ':'
    &&& forall|i: int| 0 <= i < p.len() - 1 ==> !(#[trigger] p[i] == '/' && p[i + 1] == '/')
    &&& forall|i: int|
        0 <= i < p.len() && #[trigger] p[i] == '.' ==> !((i == 0 || p[i - 1] == '/') && (i + 1
            == p.len() || p[i + 1] == '/'))
}

/// The index of the last `/` in `p`, or -1 when there is none.
pub open spec fn last_slash(p: Seq<char>) -> int
    decreases p.len(),
{
    if p.len() == 0 {
        -1
    } else if p.last() == '/' {
        p.len() - 1
    } else {
        last_slash(p.drop_last())
    }
}

/// The parent of a plain path: the text before its last `/`; `/` itself when
/// that separator is the root; the empty path when there is no separator.
pub open spec fn plain_parent(p: Seq<char>) -> Seq<char> {
    let k = last_slash(p);
    if k < 0 {
        Seq::empty()
    } else if k == 0 {
        seq!['/']
    } else {
        p.take(k)
    }
}

/// `std::path::Path::parent` on `path`, as text. The parent is `path` with its
/// last component removed: a strict prefix of it (ending at a component
/// boundary, so the text conversion keeps it as is), and the empty path has
/// none. For a plain path (only `/` separators, no prefix, no empty or `.`
/// component) every platform gives the text before the last `/` (the root `/`
/// when that is the first character, the empty path when there is no `/`).
/// Which prefix it is on other paths depends on the platform's path syntax
/// (separators, drive and share prefixes) and is not stated.
#[verifier::external_body]
fn path_parent(path: &str) -> (r: Option<String>)
    ensures
        path@.len() == 0 ==> r is None,
        r matches Some(p) ==> strict_prefix(p@, path@),
        plain_path(path@) ==> r is Some,
        r matches Some(p) ==> (plain_path(path@) ==> p@ == plain_parent(path@)),
{
    match std::path::Path::new(path).parent() {
        Some(p) => Some(p.to_string_lossy().into_owned()),
        None => None,
    }
}

/// What shows `path` in the file manager, given the platform and the parent
/// folder of `path`: on Windows, `explorer /select, path`; elsewhere
/// `xdg-open` on the parent folder, and nothing when there is none.
pub fn reveal_launch(path: &str, platform: Platform, parent: Option<String>) -> (r: Option<Launch>)
    ensures
        match platform {
            Platform::Windows => r matches Some(l) && launches(l, "explorer"@, seq!["/select,"@, path@]),
            Platform::Other => match opt_text(parent) {
                Some(p) => r matches Some(l) && launches(l, "xdg-open"@, seq![p]),
                None => r is None,
            },
        },
{
    match platform {
        Platform::Windows => {
            let mut args: Vec<String> = Vec::new();
            args.push(String::from_str("/select,"));
            args.push(String::from_str(path));
            assert(args@.map_values(|a: String| a@) =~= seq!["/select,"@, path@]);
            Some(Launch { program: String::from_str("explorer"), args })
        },
        Platform::Other => match parent {
            Some(p) => {
                let mut args: Vec<String> = Vec::new();
                args.push(p);
                assert(args@.map_values(|a: String| a@) =~= seq![args@[0]@]);
                Some(Launch { program: String::from_str("xdg-open"), args })
            },
            None => None,
        },
    }
}

/// What shows `path` in the file manager on `platform`, with the parent folder
/// taken from the path's syntax: on a plain path, `xdg-open` on the text before
/// its last `/`.
pub fn open_in_explorer(path: &str, platform: Platform) -> (r: Option<Launch>)
    ensures
        platform == Platform::Windows ==> (r matches Some(l) && launches(l, "explorer"@, seq!["/select,"@, path@])),
        platform == Platform::Other ==> (r matches Some(l) ==> (l.program@ == "xdg-open"@ && l.args@.len() == 1
            && strict_prefix(l.args@[0]@, path@))),
        platform == Platform::Other && path@.len() == 0 ==> r is None,
        platform == Platform::Other && plain_path(path@) ==> (r matches Some(l) && launches(
            l,
            "xdg-open"@,
            seq![plain_parent(path@)],
        )),
{
    let parent = match platform {
        Platform::Windows => None,
        Platform::Other => path_parent(path),
    };
    let r = reveal_launch(path, platform, parent);
    proof {
        if r is Some && platform == Platform::Other {
            let l = r->0;
            assert(l.args@.map_values(|a: String| a@).len() == l.args@.len());
            assert(l.args@.map_values(|a: String| a@)[0] == l.args@[0]@);
        }
    }
    r
}

/// What opens `path` in the system's editor: on Windows `cmd /c start "" path`,
/// elsewhere `xdg-open path`.
pub fn open_in_editor(path: &str, platform: Platform) -> (r: Launch)
    ensures
        platform == Platform::Windows ==> launches(r, "cmd"@, seq!["/c"@, "start"@, ""@, path@]),
        platform == Platform::Other ==> launches(r, "xdg-open"@, seq![path@]),
{
    let mut args: Vec<String> = Vec::new();
    match platform {
        Platform::Windows => {
            args.push(String::from_str("/c"));
            args.push(String::from_str("start"));
            args.push(String::from_str(""));
            args.push(String::from_str(path));
            assert(args@.map_values(|a: String| a@) =~= seq!["/c"@, "start"@, ""@, path@]);
            Launch { program: String::from_str("cmd"), args }
        },
        Platform::Other => {
            args.push(String::from_str(path));
            assert(args@.map_values(|a: String| a@) =~= seq![path@]);
            Launch { program: String::from_str("xdg-open"), args }
        },
    }
}

} // verus!
