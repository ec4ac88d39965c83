use feather_md::script::{open_error_script, refresh_script, render_script, theme_script};

fn json_string(s: &str) -> String {
    let call = theme_script(s);
    call["window.__feather_set_theme(".len()..call.len() - 1].to_string()
}

#[test]
fn json_strings() {
    assert_eq!(json_string("plain"), "\"plain\"");
    assert_eq!(json_string("a\"b\\c"), "\"a\\\"b\\\\c\"");
    assert_eq!(json_string("l1\nl2\tend\r"), "\"l1\\nl2\\tend\\r\"");
    assert_eq!(json_string("\u{8}\u{c}"), "\"\\b\\f\"");
    assert_eq!(json_string("\u{1}\u{1f}"), "\"\\u0001\\u001f\"");
    assert_eq!(json_string("中/é\u{7f}"), "\"中/é\u{7f}\"");
    assert_eq!(json_string(""), "\"\"");
}

#[test]
fn scripts() {
    assert_eq!(
        render_script("# Hi\n", "C:\\notes\\a.md"),
        "window.__feather_render(\"# Hi\\n\", \"C:\\\\notes\\\\a.md\")"
    );
    assert_eq!(refresh_script("x"), "window.__feather_refresh(\"x\")");
    assert_eq!(theme_script("github-dark"), "window.__feather_set_theme(\"github-dark\")");
    assert_eq!(
        open_error_script("/tmp/a.md"),
        "window.__feather_error('无法打开文件', \"文件不存在或无法读取: \\\"/tmp/a.md\\\"\")"
    );
    assert_eq!(
        open_error_script("C:\\it's\\a.md"),
        "window.__feather_error('无法打开文件', \"文件不存在或无法读取: \\\"C:\\\\it's\\\\a.md\\\"\")"
    );
}
