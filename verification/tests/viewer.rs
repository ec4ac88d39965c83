use feather_md::viewer::{AppEvent, DocPath, Viewer};

fn doc(text: &str, parent: Option<&str>) -> DocPath {
    DocPath {
        text: text.to_string(),
        raw: text.as_bytes().to_vec(),
        raw_parent: parent.map(|p| p.as_bytes().to_vec()),
    }
}

fn text_of(p: Option<DocPath>) -> Option<String> {
    p.map(|d| d.text)
}

#[test]
fn frontend_ready_shows_the_document() {
    let mut v = Viewer::new(Some(doc("/d/a.md", Some("/d"))));
    assert_eq!(text_of(v.file_to_read(&AppEvent::FrontendReady)), Some("/d/a.md".to_string()));
    let step = v.handle_event(AppEvent::FrontendReady, Some(Ok("# A".to_string())));
    assert_eq!(step.script, Some("window.__feather_render(\"# A\", \"/d/a.md\")".to_string()));
    assert!(step.opened.is_none());
}

#[test]
fn frontend_ready_reports_unreadable_document() {
    let mut v = Viewer::new(Some(doc("/docs/it's.md", Some("/docs"))));
    let step = v.handle_event(AppEvent::FrontendReady, Some(Err("gone".to_string())));
    assert_eq!(
        step.script,
        Some("window.__feather_error('无法打开文件', \"文件不存在或无法读取: \\\"/docs/it's.md\\\"\")".to_string())
    );
}

#[test]
fn nothing_to_show_without_a_document() {
    let mut v = Viewer::new(None);
    assert!(v.file_to_read(&AppEvent::FrontendReady).is_none());
    assert_eq!(v.local_folder(), None);
    let step = v.handle_event(AppEvent::FrontendReady, None);
    assert_eq!(step.script, None);
    let step = v.handle_event(AppEvent::FileChanged, None);
    assert_eq!(step.script, None);
}

#[test]
fn file_changed_refreshes() {
    let mut v = Viewer::new(Some(doc("/d/a.md", Some("/d"))));
    let step = v.handle_event(AppEvent::FileChanged, Some(Ok("new".to_string())));
    assert_eq!(step.script, Some("window.__feather_refresh(\"new\")".to_string()));
    let step = v.handle_event(AppEvent::FileChanged, Some(Err("busy".to_string())));
    assert_eq!(
        step.script,
        Some("window.__feather_error('无法打开文件', \"文件不存在或无法读取: \\\"/d/a.md\\\"\")".to_string())
    );
    assert!(step.opened.is_none());
    let step = v.handle_event(AppEvent::FileChanged, None);
    assert_eq!(
        step.script,
        Some("window.__feather_error('无法打开文件', \"文件不存在或无法读取: \\\"/d/a.md\\\"\")".to_string())
    );
    assert_eq!(text_of(v.current_file()), Some("/d/a.md".to_string()));
}

#[test]
fn opening_a_document_makes_it_current() {
    let mut v = Viewer::new(Some(doc("/d/a.md", Some("/d"))));
    assert_eq!(v.local_folder(), Some(b"/d".to_vec()));
    let event = AppEvent::OpenFile(doc("/e/b.md", Some("/e")));
    assert_eq!(text_of(v.file_to_read(&event)), Some("/e/b.md".to_string()));
    let step = v.handle_event(event, Some(Ok("B".to_string())));
    assert_eq!(step.script, Some("window.__feather_render(\"B\", \"/e/b.md\")".to_string()));
    assert_eq!(text_of(step.opened), Some("/e/b.md".to_string()));
    assert_eq!(text_of(v.current_file()), Some("/e/b.md".to_string()));
    assert_eq!(v.local_folder(), Some(b"/e".to_vec()));
    assert_eq!(text_of(v.file_to_read(&AppEvent::FileChanged)), Some("/e/b.md".to_string()));
}

#[test]
fn failed_open_reports_and_changes_nothing() {
    let mut v = Viewer::new(Some(doc("/d/a.md", Some("/d"))));
    let step = v.handle_event(AppEvent::OpenFile(doc("/e/b.md", Some("/e"))), Some(Err("no".to_string())));
    assert_eq!(
        step.script,
        Some("window.__feather_error('无法打开文件', \"文件不存在或无法读取: \\\"/e/b.md\\\"\")".to_string())
    );
    assert!(step.opened.is_none());
    assert_eq!(text_of(v.current_file()), Some("/d/a.md".to_string()));
    assert_eq!(v.local_folder(), Some(b"/d".to_vec()));
}
