//! Media types of the files that the viewer serves.

use vstd::prelude::*;
use crate::chars::{chars_of, tail_equals};

verus! {

/// What follows the last `.` of `path`; the whole of `path` when it holds no `.`.
pub open spec fn extension(path: Seq<char>) -> Seq<char>
    decreases path.len(),
{
    if path.len() == 0 {
        path
    } else if path.last() == '.' {
        Seq::empty()
    } else {
        extension(path.drop_last()).push(path.last())
    }
}

/// The media type served for a file whose extension is `ext`.
pub open spec fn mime_for_extension(ext: Seq<char>) -> Seq<char> {
    if ext == seq!['c', 's', 's'] {
        "text/css"@
    } else if ext == seq!['j', 's'] {
        "application/javascript"@
    } else if ext == seq!['h', 't', 'm', 'l'] || ext == seq!['h', 't', 'm'] {
        "text/html"@
    } else if ext == seq!['p', 'n', 'g'] {
        "image/png"@
    } else if ext == seq!['j', 'p', 'g'] || ext == seq!['j', 'p', 'e', 'g'] {
        "image/jpeg"@
    } else if ext == seq!['g', 'i', 'f'] {
        "image/gif"@
    } else if ext == seq!['s', 'v', 'g'] {
        "image/svg+xml"@
    } else if ext == seq!['i', 'c', 'o'] {
        "image/x-icon"@
    } else if ext == seq!['w', 'e', 'b', 'p'] {
        "image/webp"@
    } else {
        "application/octet-stream"@
    }
}

/// When `path[k]` is a `.` and no `.` follows it, the extension is what follows `k`.
proof fn lemma_extension_after_dot(path: Seq<char>, k: int)
    requires
        -1 <= k < path.len(),
        k >= 0 ==> path[k] == '.',
        forall|j: int| k < j < path.len() ==> path[j] != '.',
    ensures
        extension(path) == path.subrange(k + 1, path.len() as int),
    decreases path.len(),
{
    if path.len() == 0 {
        assert(path.subrange(0, 0) =~= path);
    } else if k == path.len() - 1 {
        assert(path.subrange(k + 1, path.len() as int) =~= Seq::<char>::empty());
    } else {
        let init = path.drop_last();
        lemma_extension_after_dot(init, k);
        assert(path.subrange(k + 1, path.len() as int) =~= init.subrange(k + 1, init.len() as int).push(
            path.last(),
        ));
    }
}

/// The media type of the file at `path`, chosen by the text after the path's last `.`
/// (the whole path when there is none); `application/octet-stream` when the
/// extension is not one of the known ones.
pub fn guess_mime(path: &str) -> (r: &'static str)
    ensures
        r@ == mime_for_extension(extension(path@)),
{
    let v = chars_of(path);
    let mut i: usize = v.len();
    while i > 0 && v[i - 1] != '.'
        invariant
            i <= v.len(),
            forall|j: int| i <= j < v.len() ==> v@[j] != '.',
        decreases i,
    {
        i = i - 1;
    }
    proof {
        lemma_extension_after_dot(v@, i - 1);
    }
    if tail_equals(&v, i, &['c', 's', 's']) {
        "text/css"
    } else if tail_equals(&v, i, &['j', 's']) {
        "application/javascript"
    } else if tail_equals(&v, i, &['h', 't', 'm', 'l']) || tail_equals(&v, i, &['h', 't', 'm']) {
        "text/html"
    } else if tail_equals(&v, i, &['p', 'n', 'g']) {
        "image/png"
    } else if tail_equals(&v, i, &['j', 'p', 'g']) || tail_equals(&v, i, &['j', 'p', 'e', 'g']) {
        "image/jpeg"
    } else if tail_equals(&v, i, &['g', 'i', 'f']) {
        "image/gif"
    } else if tail_equals(&v, i, &['s', 'v', 'g']) {
        "image/svg+xml"
    } else if tail_equals(&v, i, &['i', 'c', 'o']) {
        "image/x-icon"
    } else if tail_equals(&v, i, &['w', 'e', 'b', 'p']) {
        "image/webp"
    } else {
        "application/octet-stream"
    }
}

} // verus!
