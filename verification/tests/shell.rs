use feather_md::shell::{open_in_editor, open_in_explorer, reveal_launch, Platform};

#[test]
fn explorer() {
    let l = open_in_explorer("C:\\d\\a.md", Platform::Windows).unwrap();
    assert_eq!(l.program, "explorer");
    assert_eq!(l.args, vec!["/select,".to_string(), "C:\\d\\a.md".to_string()]);

    let l = open_in_explorer("/home/u/a.md", Platform::Other).unwrap();
    assert_eq!(l.program, "xdg-open");
    assert_eq!(l.args, vec!["/home/u".to_string()]);

    let l = open_in_explorer("notes/it's.md", Platform::Other).unwrap();
    assert_eq!(l.args, vec!["notes".to_string()]);
    let l = open_in_explorer("a.md", Platform::Other).unwrap();
    assert_eq!(l.args, vec!["".to_string()]);
    assert!(open_in_explorer("", Platform::Other).is_none());
    assert!(open_in_explorer("/", Platform::Other).is_none());
    assert!(reveal_launch("a.md", Platform::Other, None).is_none());
}

#[test]
fn explorer_opens_the_folder_before_the_last_separator() {
    let cases = [("/home/u/a.md", "/home/u"), ("notes/it's.md", "notes"), ("a.md", ""), ("/a.md", "/"), ("../x/y", "../x")];
    for (path, folder) in cases {
        let l = open_in_explorer(path, Platform::Other).unwrap();
        assert_eq!(l.program, "xdg-open");
        assert_eq!(l.args, vec![folder.to_string()]);
    }
}

#[test]
fn editor() {
    let l = open_in_editor("C:\\d\\a.md", Platform::Windows);
    assert_eq!(l.program, "cmd");
    assert_eq!(l.args, vec!["/c".to_string(), "start".to_string(), "".to_string(), "C:\\d\\a.md".to_string()]);
    let l = open_in_editor("/tmp/a.md", Platform::Other);
    assert_eq!(l.program, "xdg-open");
    assert_eq!(l.args, vec!["/tmp/a.md".to_string()]);
}
