use feather_md::ipc::{handle_ipc, ipc_action, read_ipc_message, IpcAction, IpcMessage};
use feather_md::viewer::AppEvent;

#[test]
fn frontend_ready() {
    assert!(matches!(handle_ipc(r#"{"type":"frontend-ready"}"#), IpcAction::Notify(AppEvent::FrontendReady)));
}

#[test]
fn theme_changed() {
    match handle_ipc(r#"{"type":"theme-changed","theme":"github-dark"}"#) {
        IpcAction::SaveTheme(t) => assert_eq!(t, "github-dark"),
        _ => panic!("expected a theme"),
    }
    assert!(matches!(handle_ipc(r#"{"type":"theme-changed"}"#), IpcAction::Ignore));
    assert!(matches!(handle_ipc(r#"{"type":"theme-changed","theme":3}"#), IpcAction::Ignore));
}

#[test]
fn open_requests() {
    assert!(matches!(handle_ipc(r#"{"type":"open-file"}"#), IpcAction::PickFile));
    match handle_ipc(r#"{"type":"open-folder","path":"C:\\docs\\a.md"}"#) {
        IpcAction::RevealInFolder(p) => assert_eq!(p, "C:\\docs\\a.md"),
        _ => panic!("expected a folder"),
    }
    match handle_ipc(r#"{"type":"open-editor","path":"/tmp/a.md"}"#) {
        IpcAction::OpenInEditor(p) => assert_eq!(p, "/tmp/a.md"),
        _ => panic!("expected an editor"),
    }
    assert!(matches!(handle_ipc(r#"{"type":"open-editor"}"#), IpcAction::Ignore));
}

#[test]
fn ignored_messages() {
    assert!(matches!(handle_ipc("not json"), IpcAction::Ignore));
    assert!(matches!(handle_ipc("[1,2]"), IpcAction::Ignore));
    assert!(matches!(handle_ipc(r#"{"type":7}"#), IpcAction::Ignore));
    assert!(matches!(handle_ipc(r#"{"type":"close"}"#), IpcAction::Ignore));
    assert!(matches!(handle_ipc("{}"), IpcAction::Ignore));
}

#[test]
fn message_members() {
    let m = read_ipc_message(r#"{"type":"x","theme":"t","path":1}"#);
    assert_eq!(m.kind, Some("x".to_string()));
    assert_eq!(m.theme, Some("t".to_string()));
    assert_eq!(m.path, None);
    let a = ipc_action(&IpcMessage { kind: None, theme: Some("t".to_string()), path: None });
    assert!(matches!(a, IpcAction::Ignore));
}
