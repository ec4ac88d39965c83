//! Messages that the web front end posts to the viewer, and what each asks for.

use vstd::prelude::*;
use crate::viewer::{AppEvent, opt_text};

verus! {

/// The string member `key` of the JSON document `text`, as `serde_json` reads it:
/// `None` when `text` is not JSON, is not an object, lacks `key`, or holds
/// something other than a string under it.
pub uninterp spec fn json_string_member(text: Seq<char>, key: Seq<char>) -> Option<Seq<char>>;

/// Parses `text` into a `serde_json::Value` with `serde_json::from_str`, indexes it
/// with `key` and takes `as_str` of what it finds (indexing a non-object gives
/// `Null`, so only a string member yields `Some`).
#[verifier::external_body]
fn json_member_text(text: &str, key: &str) -> (r: Option<String>)
    ensures
        opt_text(r) == json_string_member(text@, key@),
{
    match serde_json::from_str::<serde_json::Value>(text) {
        Ok(value) => match value[key].as_str() {
            Some(s) => Some(s.to_string()),
            None => None,
        },
        Err(_) => None,
    }
}

/// The members of a front-end message that the viewer reads.
pub struct IpcMessage {
    /// The `type` member.
    pub kind: Option<String>,
    /// The `theme` member.
    pub theme: Option<String>,
    /// The `path` member.
    pub path: Option<String>,
}

/// What a front-end message asks the viewer to do.
pub enum IpcAction {
    /// Post this event to the event loop.
    Notify(AppEvent),
    /// Make this the colour theme and save the configuration.
    SaveTheme(String),
    /// Ask the user for a Markdown file to open.
    PickFile,
    /// Show this path in the system's file manager.
    RevealInFolder(String),
    /// Open this path in the system's editor.
    OpenInEditor(String),
    /// Nothing.
    Ignore,
}

/// Whether `r` is what a message with members `kind`, `theme` and `path` asks
/// for. A missing or non-string `type` counts as the empty type:
/// - `frontend-ready`: notify that the front end is ready;
/// - `theme-changed`: save the `theme` member, if it is a string;
/// - `open-file`: ask for a file to open;
/// - `open-folder` / `open-editor`: reveal / edit the `path` member, if it is a string;
/// - anything else: nothing.
pub open spec fn asks_for(
    kind: Option<Seq<char>>,
    theme: Option<Seq<char>>,
    path: Option<Seq<char>>,
    r: IpcAction,
) -> bool {
    let t = match kind {
        Some(k) => k,
        None => Seq::empty(),
    };
    if t == "frontend-ready"@ {
        r matches IpcAction::Notify(AppEvent::FrontendReady)
    } else if t == "theme-changed"@ {
        match theme {
            Some(th) => r matches IpcAction::SaveTheme(s) && s@ == th,
            None => r is Ignore,
        }
    } else if t == "open-file"@ {
        r is PickFile
    } else if t == "open-folder"@ {
        match path {
            Some(p) => r matches IpcAction::RevealInFolder(s) && s@ == p,
            None => r is Ignore,
        }
    } else if t == "open-editor"@ {
        match path {
            Some(p) => r matches IpcAction::OpenInEditor(s) && s@ == p,
            None => r is Ignore,
        }
    } else {
        r is Ignore
    }
}

fn text_is(s: &String, lit: &str) -> (r: bool)
    ensures
        r == (s@ == lit@),
{
    *s == String::from_str(lit)
}

fn take_text(o: &Option<String>) -> (r: Option<String>)
    ensures
        opt_text(r) == opt_text(*o),
{
    match o {
        Some(s) => Some(s.clone()),
        None => None,
    }
}

/// What the message with members `msg` asks for.
pub fn ipc_action(msg: &IpcMessage) -> (r: IpcAction)
    ensures
        asks_for(opt_text(msg.kind), opt_text(msg.theme), opt_text(msg.path), r),
{
    let kind = match &msg.kind {
        Some(k) => k.clone(),
        None => String::new(),
    };
    if text_is(&kind, "frontend-ready") {
        IpcAction::Notify(AppEvent::FrontendReady)
    } else if text_is(&kind, "theme-changed") {
        match take_text(&msg.theme) {
            Some(t) => IpcAction::SaveTheme(t),
            None => IpcAction::Ignore,
        }
    } else if text_is(&kind, "open-file") {
        IpcAction::PickFile
    } else if text_is(&kind, "open-folder") {
        match take_text(&msg.path) {
            Some(p) => IpcAction::RevealInFolder(p),
            None => IpcAction::Ignore,
        }
    } else if text_is(&kind, "open-editor") {
        match take_text(&msg.path) {
            Some(p) => IpcAction::OpenInEditor(p),
            None => IpcAction::Ignore,
        }
    } else {
        IpcAction::Ignore
    }
}

/// The members `type`, `theme` and `path` of the JSON message `message`.
pub fn read_ipc_message(message: &str) -> (r: IpcMessage)
    ensures
        opt_text(r.kind) == json_string_member(message@, "type"@),
        opt_text(r.theme) == json_string_member(message@, "theme"@),
        opt_text(r.path) == json_string_member(message@, "path"@),
{
    IpcMessage {
        kind: json_member_text(message, "type"),
        theme: json_member_text(message, "theme"),
        path: json_member_text(message, "path"),
    }
}

/// What the JSON message `message` from the front end asks for.
pub fn handle_ipc(message: &str) -> (r: IpcAction)
    ensures
        asks_for(
            json_string_member(message@, "type"@),
            json_string_member(message@, "theme"@),
            json_string_member(message@, "path"@),
            r,
        ),
{
    let msg = read_ipc_message(message);
    ipc_action(&msg)
}

/// A theme change saves exactly the theme it names: for every string `th`, a
/// message of type `theme-changed` whose `theme` member is `th` asks to save
/// `th`, whatever its other members hold.
pub proof fn lemma_theme_change_saves_the_theme(th: Seq<char>, path: Option<Seq<char>>, r: IpcAction)
    requires
        asks_for(Some("theme-changed"@), Some(th), path, r),
    ensures
        r matches IpcAction::SaveTheme(s) && s@ == th,
{
    reveal_strlit("theme-changed");
    reveal_strlit("frontend-ready");
    assert("theme-changed"@[0] != "frontend-ready"@[0]);
}

/// Revealing and editing act on exactly the path the message names: for every
/// string `p`, a message of type `open-folder` (`open-editor`) whose `path`
/// member is `p` asks to reveal (edit) `p`.
pub proof fn lemma_path_requests_act_on_the_path(p: Seq<char>, theme: Option<Seq<char>>, r1: IpcAction, r2: IpcAction)
    requires
        asks_for(Some("open-folder"@), theme, Some(p), r1),
        asks_for(Some("open-editor"@), theme, Some(p), r2),
    ensures
        r1 matches IpcAction::RevealInFolder(s) && s@ == p,
        r2 matches IpcAction::OpenInEditor(s) && s@ == p,
{
    reveal_strlit("frontend-ready");
    reveal_strlit("theme-changed");
    reveal_strlit("open-file");
    reveal_strlit("open-folder");
    reveal_strlit("open-editor");
    assert("open-folder"@[0] != "frontend-ready"@[0] && "open-folder"@[0] != "theme-changed"@[0]);
    assert("open-folder"@.len() != "open-file"@.len());
    assert("open-editor"@[0] != "frontend-ready"@[0] && "open-editor"@[0] != "theme-changed"@[0]);
    assert("open-editor"@.len() != "open-file"@.len());
    assert("open-editor"@[5] != "open-folder"@[5]);
}

/// The front end being ready and asking for a file are understood whatever the
/// other members hold.
pub proof fn lemma_fixed_requests(
    theme: Option<Seq<char>>,
    path: Option<Seq<char>>,
    r1: IpcAction,
    r2: IpcAction,
)
    requires
        asks_for(Some("frontend-ready"@), theme, path, r1),
        asks_for(Some("open-file"@), theme, path, r2),
    ensures
        r1 matches IpcAction::Notify(AppEvent::FrontendReady),
        r2 is PickFile,
{
    reveal_strlit("frontend-ready");
    reveal_strlit("theme-changed");
    reveal_strlit("open-file");
    assert("open-file"@[0] != "frontend-ready"@[0] && "open-file"@[0] != "theme-changed"@[0]);
}

} // verus!
