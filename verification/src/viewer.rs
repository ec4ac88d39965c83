//! What the viewer does when its front end becomes ready, when the open document
//! changes on disk, and when another document is opened.

use vstd::prelude::*;
use crate::script::{open_error_call, open_error_script, refresh_call, refresh_script, render_call, render_script};

verus! {

/// The path of a document: as text (ill-formed parts replaced), as the
/// platform's encoded bytes, and the encoded bytes of its parent folder.
#[derive(Debug, Clone)]
pub struct DocPath {
    pub text: String,
    pub raw: Vec<u8>,
    pub raw_parent: Option<Vec<u8>>,
}

/// A document path as plain values.
pub type DocView = (Seq<char>, Seq<u8>, Option<Seq<u8>>);

/// The text of an optional string.
pub open spec fn opt_text(o: Option<String>) -> Option<Seq<char>> {
    match o {
        Some(s) => Some(s@),
        None => None,
    }
}

/// The bytes of an optional byte vector.
pub open spec fn opt_bytes(o: Option<Vec<u8>>) -> Option<Seq<u8>> {
    match o {
        Some(v) => Some(v@),
        None => None,
    }
}

/// A document path as plain values.
pub open spec fn doc_view(d: DocPath) -> DocView {
    (d.text@, d.raw@, opt_bytes(d.raw_parent))
}

/// An optional document path as plain values.
pub open spec fn opt_doc(o: Option<DocPath>) -> Option<DocView> {
    match o {
        Some(d) => Some(doc_view(d)),
        None => None,
    }
}

fn copy_bytes(v: &Vec<u8>) -> (r: Vec<u8>)
    ensures
        r@ == v@,
{
    let mut out: Vec<u8> = Vec::new();
    let mut i: usize = 0;
    while i < v.len()
        invariant
            i <= v.len(),
            out@ == v@.take(i as int),
        decreases v.len() - i,
    {
        out.push(v[i]);
        i = i + 1;
        assert(out@ =~= v@.take(i as int));
    }
    assert(v@.take(i as int) =~= v@);
    out
}

fn copy_opt_bytes(v: &Option<Vec<u8>>) -> (r: Option<Vec<u8>>)
    ensures
        opt_bytes(r) == opt_bytes(*v),
{
    match v {
        Some(b) => Some(copy_bytes(b)),
        None => None,
    }
}

fn copy_doc(d: &DocPath) -> (r: DocPath)
    ensures
        doc_view(r) == doc_view(*d),
{
    DocPath { text: d.text.clone(), raw: copy_bytes(&d.raw), raw_parent: copy_opt_bytes(&d.raw_parent) }
}

/// Events that reach the viewer's event loop.
#[derive(Debug, Clone)]
pub enum AppEvent {
    /// The open document changed on disk.
    FileChanged,
    /// A document was chosen to be opened.
    OpenFile(DocPath),
    /// The front end has loaded and can show a document.
    FrontendReady,
}

/// The document the viewer shows, if any.
pub struct Viewer {
    current_file: Option<DocPath>,
}

/// The result of handling an event.
pub struct ViewerStep {
    /// A script to run in the web view.
    pub script: Option<String>,
    /// A document that has just been opened: it is now the file to watch.
    pub opened: Option<DocPath>,
}

/// Whether `step` runs the script `script` (or none) and opens `opened` (or none).
pub open spec fn step_is(step: ViewerStep, script: Option<Seq<char>>, opened: Option<DocView>) -> bool {
    opt_text(step.script) == script && opt_doc(step.opened) == opened
}

impl Viewer {
    /// A viewer showing the document at `file`, if any.
    pub fn new(file: Option<DocPath>) -> (r: Viewer)
        ensures
            r.current() == opt_doc(file),
    {
        Viewer { current_file: file }
    }

    /// The document shown.
    pub closed spec fn current(&self) -> Option<DocView> {
        opt_doc(self.current_file)
    }

    /// The document shown.
    pub fn current_file(&self) -> (r: Option<DocPath>)
        ensures
            opt_doc(r) == self.current(),
    {
        match &self.current_file {
            Some(p) => Some(copy_doc(p)),
            None => None,
        }
    }

    /// The folder whose files are served under `local/`: always the parent
    /// folder of the document shown, and none without a document.
    pub fn local_folder(&self) -> (r: Option<Vec<u8>>)
        ensures
            opt_bytes(r) == match self.current() {
                Some(d) => d.2,
                None => None,
            },
    {
        match &self.current_file {
            Some(p) => copy_opt_bytes(&p.raw_parent),
            None => None,
        }
    }

    /// The file whose text the handling of `event` needs: the shown document for
    /// `FrontendReady` and `FileChanged`, the chosen one for `OpenFile`.
    pub fn file_to_read(&self, event: &AppEvent) -> (r: Option<DocPath>)
        ensures
            opt_doc(r) == match event {
                AppEvent::OpenFile(p) => Some(doc_view(*p)),
                _ => self.current(),
            },
    {
        match event {
            AppEvent::OpenFile(p) => Some(copy_doc(p)),
            _ => self.current_file(),
        }
    }

    /// Handles `event`, given `read`, the outcome of reading the text of
    /// `file_to_read(event)` (`None` when nothing was read, which counts as a
    /// failed read):
    /// - `FrontendReady` with a document: shows its text, or reports that it
    ///   cannot be opened;
    /// - `FileChanged` with a document: shows its new text, or reports that it
    ///   cannot be read;
    /// - `OpenFile(p)`: when `p` can be read, shows it and makes it the
    ///   document; else reports that it cannot be opened and changes nothing;
    /// - without a document, `FrontendReady` and `FileChanged` do nothing.
    pub fn handle_event(&mut self, event: AppEvent, read: Option<Result<String, String>>) -> (r: ViewerStep)
        ensures
            match event {
                AppEvent::FrontendReady => {
                    &&& final(self).current() == old(self).current()
                    &&& match old(self).current() {
                        Some(p) => match read {
                            Some(Ok(c)) => step_is(r, Some(render_call(c@, p.0)), None),
                            _ => step_is(r, Some(open_error_call(p.0)), None),
                        },
                        None => step_is(r, None, None),
                    }
                },
                AppEvent::FileChanged => {
                    &&& final(self).current() == old(self).current()
                    &&& match old(self).current() {
                        Some(p) => match read {
                            Some(Ok(c)) => step_is(r, Some(refresh_call(c@)), None),
                            _ => step_is(r, Some(open_error_call(p.0)), None),
                        },
                        None => step_is(r, None, None),
                    }
                },
                AppEvent::OpenFile(p) => match read {
                    Some(Ok(c)) => {
                        &&& step_is(r, Some(render_call(c@, p.text@)), Some(doc_view(p)))
                        &&& final(self).current() == Some(doc_view(p))
                    },
                    _ => {
                        &&& step_is(r, Some(open_error_call(p.text@)), None)
                        &&& final(self).current() == old(self).current()
                    },
                },
            },
    {
        match event {
            AppEvent::FrontendReady => match &self.current_file {
                Some(p) => match read {
                    Some(Ok(c)) => ViewerStep {
                        script: Some(render_script(c.as_str(), p.text.as_str())),
                        opened: None,
                    },
                    _ => ViewerStep { script: Some(open_error_script(p.text.as_str())), opened: None },
                },
                None => ViewerStep { script: None, opened: None },
            },
            AppEvent::FileChanged => match &self.current_file {
                Some(p) => match read {
                    Some(Ok(c)) => ViewerStep { script: Some(refresh_script(c.as_str())), opened: None },
                    _ => ViewerStep { script: Some(open_error_script(p.text.as_str())), opened: None },
                },
                None => ViewerStep { script: None, opened: None },
            },
            AppEvent::OpenFile(p) => match read {
                Some(Ok(c)) => {
                    let script = render_script(c.as_str(), p.text.as_str());
                    let opened = copy_doc(&p);
                    self.current_file = Some(p);
                    ViewerStep { script: Some(script), opened: Some(opened) }
                },
                _ => ViewerStep { script: Some(open_error_script(p.text.as_str())), opened: None },
            },
        }
    }
}

} // verus!
