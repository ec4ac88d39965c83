//! The files of the web front end that the viewer ships with.

use vstd::prelude::*;
use crate::chars::chars_of;
use crate::text::{string_from_chars, utf8_lossy, utf8_lossy_string};

verus! {

broadcast use vstd::string::group_string_axioms;

/// One embedded file: its path inside the front-end folder, with `/` between
/// components, and its contents.
pub struct AssetFile {
    pub path: String,
    pub data: Vec<u8>,
}

/// The embedded front-end files.
pub struct Assets {
    files: Vec<AssetFile>,
}

impl View for Assets {
    type V = Seq<(Seq<char>, Seq<u8>)>;

    /// Each file as its path and its contents, in the order they were given.
    closed spec fn view(&self) -> Seq<(Seq<char>, Seq<u8>)> {
        self.files@.map_values(|f: AssetFile| (f.path@, f.data@))
    }
}

/// The contents of the first file of `files` whose path is `key`.
pub open spec fn lookup(files: Seq<(Seq<char>, Seq<u8>)>, key: Seq<char>) -> Option<Seq<u8>>
    decreases files.len(),
{
    if files.len() == 0 {
        None
    } else if files[0].0 == key {
        Some(files[0].1)
    } else {
        lookup(files.drop_first(), key)
    }
}

/// The key under which a requested path is looked up: every `\` becomes `/`.
pub open spec fn asset_key(path: Seq<char>) -> Seq<char> {
    path.map_values(|c: char| if c == '\\' { '/' } else { c })
}

/// The text of the front end's `index.html`, decoded as UTF-8 with ill-formed
/// sequences replaced; `None` when there is no such file.
pub open spec fn index_text(files: Seq<(Seq<char>, Seq<u8>)>) -> Option<Seq<char>> {
    match lookup(files, "index.html"@) {
        Some(data) => Some(utf8_lossy(data)),
        None => None,
    }
}

impl Assets {
    /// The asset set made of `files`.
    pub fn new(files: Vec<AssetFile>) -> (r: Assets)
        ensures
            r@ == files@.map_values(|f: AssetFile| (f.path@, f.data@)),
    {
        Assets { files }
    }

    /// The contents of the file stored under exactly `key`.
    fn find(&self, key: &String) -> (r: Option<Vec<u8>>)
        ensures
            match r {
                Some(v) => lookup(self@, key@) == Some(v@),
                None => lookup(self@, key@) is None,
            },
    {
        let mut i: usize = 0;
        assert(self@.skip(0) =~= self@);
        while i < self.files.len()
            invariant
                i <= self.files@.len(),
                lookup(self@, key@) == lookup(self@.skip(i as int), key@),
            decreases self.files@.len() - i,
        {
            assert(self@.skip(i as int).drop_first() =~= self@.skip(i + 1));
            if self.files[i].path == *key {
                return Some(self.files[i].data.clone());
            }
            i = i + 1;
        }
        assert(self@.skip(i as int).len() == 0);
        None
    }

    /// The contents of the file at `path`, where `\` in `path` counts as `/`.
    pub fn get_asset(&self, path: &str) -> (r: Option<Vec<u8>>)
        ensures
            match r {
                Some(v) => lookup(self@, asset_key(path@)) == Some(v@),
                None => lookup(self@, asset_key(path@)) is None,
            },
    {
        let v = chars_of(path);
        let mut key: Vec<char> = Vec::new();
        let mut i: usize = 0;
        while i < v.len()
            invariant
                v@ == path@,
                i <= v.len(),
                key@ == asset_key(path@).take(i as int),
            decreases v.len() - i,
        {
            let c = v[i];
            if c == '\\' {
                key.push('/');
            } else {
                key.push(c);
            }
            assert(asset_key(path@).take(i + 1) =~= asset_key(path@).take(i as int).push(key@[i as int]));
            i = i + 1;
        }
        assert(asset_key(path@).take(i as int) =~= asset_key(path@));
        let key_string = string_from_chars(key.as_slice());
        self.find(&key_string)
    }

    /// The text of `index.html`, decoded as UTF-8 with ill-formed sequences
    /// replaced by U+FFFD.
    pub fn index_html(&self) -> (r: Option<String>)
        ensures
            match r {
                Some(s) => index_text(self@) == Some(s@),
                None => index_text(self@) is None,
            },
    {
        let key = string_from_chars(&['i', 'n', 'd', 'e', 'x', '.', 'h', 't', 'm', 'l']);
        proof {
            reveal_strlit("index.html");
            assert(key@ =~= "index.html"@);
        }
        match self.find(&key) {
            Some(data) => Some(utf8_lossy_string(data.as_slice())),
            None => None,
        }
    }
}

} // verus!
