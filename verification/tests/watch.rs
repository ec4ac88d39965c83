use feather_md::viewer::DocPath;
use feather_md::watch::{
    batch_touches, batch_touches_watched, event_touches, event_touches_watched, watched_folder, ChangeKind,
    Debouncer, EventPath, FsEvent, WatchedFile,
};

/// The components of a `/`-separated folder, as the standard library lists them.
fn components(folder: &str) -> Vec<Vec<u8>> {
    std::path::Path::new(folder).components().map(|c| c.as_os_str().to_string_lossy().as_bytes().to_vec()).collect()
}

const MS: u128 = 1_000_000;

fn ev(kind: ChangeKind, names: &[(&str, &str)]) -> FsEvent {
    FsEvent {
        kind,
        paths: names
            .iter()
            .map(|(n, p)| EventPath {
                name: Some(n.to_string()),
                raw_name: Some(n.as_bytes().to_vec()),
                parent_components: Some(components(p)),
            })
            .collect(),
    }
}

fn watched(name: &str, parent: &str) -> WatchedFile {
    WatchedFile { raw_name: Some(name.as_bytes().to_vec()), parent_components: Some(components(parent)) }
}

#[test]
fn changes_to_the_file_are_recognised() {
    assert!(event_touches(&ev(ChangeKind::Modify, &[("a.md", "/d")]), "a.md"));
    assert!(event_touches(&ev(ChangeKind::Create, &[("x", "/d"), ("a.md", "/d")]), "a.md"));
    assert!(event_touches(&ev(ChangeKind::Any, &[("a.md", "/d")]), "a.md"));
    assert!(!event_touches(&ev(ChangeKind::Remove, &[("a.md", "/d")]), "a.md"));
    assert!(!event_touches(&ev(ChangeKind::Access, &[("a.md", "/d")]), "a.md"));
    assert!(!event_touches(&ev(ChangeKind::Modify, &[("b.md", "/d")]), "a.md"));
}

#[test]
fn the_watched_file_must_match_name_and_folder() {
    let w = watched("a.md", "/d");
    assert!(event_touches_watched(&ev(ChangeKind::Modify, &[("a.md", "/d")]), &w));
    assert!(!event_touches_watched(&ev(ChangeKind::Modify, &[("a.md", "/e")]), &w));
    assert!(!event_touches_watched(&ev(ChangeKind::Other, &[("a.md", "/d")]), &w));
    let mut e = ev(ChangeKind::Modify, &[("a.md", "/d")]);
    e.paths[0].raw_name = Some(vec![b'a', 0xff]);
    assert!(!event_touches_watched(&e, &w));
}

#[test]
fn folders_are_compared_by_components() {
    let w = watched("a.md", "/home/u");
    assert!(event_touches_watched(&ev(ChangeKind::Modify, &[("a.md", "/home/./u")]), &w));
    assert!(event_touches_watched(&ev(ChangeKind::Modify, &[("a.md", "/home//u/")]), &w));
    assert!(!event_touches_watched(&ev(ChangeKind::Modify, &[("a.md", "/home/u/v")]), &w));
    assert!(!event_touches_watched(&ev(ChangeKind::Modify, &[("a.md", "home/u")]), &w));
    let mut e = ev(ChangeKind::Modify, &[("a.md", "/home/u")]);
    e.paths[0].parent_components = None;
    assert!(!event_touches_watched(&e, &w));
}

#[test]
fn the_folder_to_watch() {
    let doc = DocPath { text: "/d/a.md".to_string(), raw: b"/d/a.md".to_vec(), raw_parent: Some(b"/d".to_vec()) };
    assert_eq!(watched_folder(&doc), Ok(b"/d".to_vec()));
    let root = DocPath { text: "/".to_string(), raw: b"/".to_vec(), raw_parent: None };
    assert_eq!(watched_folder(&root), Err("Cannot determine parent directory".to_string()));
}

#[test]
fn batches() {
    let batch = vec![None, Some(ev(ChangeKind::Access, &[("a.md", "/d")])), Some(ev(ChangeKind::Modify, &[("a.md", "/d")]))];
    assert!(batch_touches(&batch, "a.md"));
    assert!(!batch_touches(&batch, "b.md"));
    assert!(!batch_touches(&vec![], "a.md"));
    assert!(batch_touches_watched(&batch, &watched("a.md", "/d")));
    assert!(!batch_touches_watched(&batch, &watched("a.md", "/x")));
}

#[test]
fn a_change_is_reported_once_the_window_has_passed() {
    let mut d = Debouncer::new(200);
    assert!(!d.decide(true, 1000 * MS));
    assert!(!d.decide(false, 1100 * MS));
    assert!(!d.decide(false, 1199 * MS + MS - 1));
    assert!(d.decide(false, 1200 * MS));
    assert!(!d.decide(false, 5000 * MS));
}

#[test]
fn a_burst_is_reported_after_its_last_change() {
    let mut d = Debouncer::new(200);
    assert!(!d.decide(true, 300 * MS));
    assert!(!d.decide(true, 400 * MS));
    assert!(!d.decide(false, 550 * MS));
    assert!(d.decide(false, 600 * MS));
}

#[test]
fn nothing_without_changes() {
    let mut d = Debouncer::new(200);
    assert!(!d.decide(false, 10_000 * MS));
    let mut zero = Debouncer::new(0);
    assert!(zero.decide(true, 5 * MS));
}

#[test]
fn every_change_is_reported_and_reports_are_spaced() {
    let mut d = Debouncer::new(200);
    let mut fired_at = Vec::new();
    let changes = [0u128, 50, 100, 600, 1300, 1350];
    for t in (0..3000u128).step_by(50) {
        if d.decide(changes.contains(&t), t * MS) {
            fired_at.push(t);
        }
    }
    assert_eq!(fired_at, vec![300, 800, 1550]);
    for w in fired_at.windows(2) {
        assert!(w[1] - w[0] >= 200);
    }
}

#[test]
fn polling_and_checking() {
    let mut d = Debouncer::new(200);
    let batch = vec![Some(ev(ChangeKind::Modify, &[("a.md", "/d")]))];
    assert!(!d.poll_round(&batch, "a.md", 100 * MS));
    assert!(!d.poll_round(&vec![], "a.md", 200 * MS));
    assert!(d.poll_round(&vec![None], "a.md", 300 * MS));

    let w = watched("a.md", "/d");
    let mut d = Debouncer::new(200);
    assert!(!d.check_batch(&vec![None], &w, 900 * MS));
    assert!(!d.check_batch(&batch, &w, 1000 * MS));
    assert!(d.check_batch(&vec![], &w, 1200 * MS));
}
