use feather_md::mime::guess_mime;

#[test]
fn known_extensions() {
    assert_eq!(guess_mime("style.css"), "text/css");
    assert_eq!(guess_mime("app.js"), "application/javascript");
    assert_eq!(guess_mime("index.html"), "text/html");
    assert_eq!(guess_mime("old.htm"), "text/html");
    assert_eq!(guess_mime("a.png"), "image/png");
    assert_eq!(guess_mime("a.jpg"), "image/jpeg");
    assert_eq!(guess_mime("a.jpeg"), "image/jpeg");
    assert_eq!(guess_mime("a.gif"), "image/gif");
    assert_eq!(guess_mime("icons/logo.svg"), "image/svg+xml");
    assert_eq!(guess_mime("favicon.ico"), "image/x-icon");
    assert_eq!(guess_mime("photo.webp"), "image/webp");
}

#[test]
fn unknown_extensions() {
    assert_eq!(guess_mime("notes.md"), "application/octet-stream");
    assert_eq!(guess_mime("archive.tar.gz"), "application/octet-stream");
    assert_eq!(guess_mime("a.CSS"), "application/octet-stream");
    assert_eq!(guess_mime("trailing."), "application/octet-stream");
    assert_eq!(guess_mime(""), "application/octet-stream");
}

#[test]
fn only_the_last_dot_counts() {
    assert_eq!(guess_mime("a.md.html"), "text/html");
    assert_eq!(guess_mime("dir.css/file"), "application/octet-stream");
    assert_eq!(guess_mime("C:\\docs.v2\\img.png"), "image/png");
}

#[test]
fn path_without_dot_is_its_own_extension() {
    assert_eq!(guess_mime("css"), "text/css");
    assert_eq!(guess_mime("README"), "application/octet-stream");
}
