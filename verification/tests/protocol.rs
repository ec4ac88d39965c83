use feather_md::assets::{AssetFile, Assets};
use feather_md::protocol::{decode_request_path, local_response, route_request, LocalRead, Route};

fn sample() -> Assets {
    Assets::new(vec![
        AssetFile { path: "index.html".to_string(), data: "<h1>标题</h1>".as_bytes().to_vec() },
        AssetFile { path: "js/main.js".to_string(), data: b"run()".to_vec() },
        AssetFile { path: "a b.css".to_string(), data: b"x".to_vec() },
    ])
}

fn respond(r: Route) -> (Vec<u8>, &'static str) {
    match r {
        Route::Respond(resp) => (resp.body, resp.mime),
        Route::ReadLocal(p) => panic!("unexpected local read of {}", p),
    }
}

#[test]
fn decoding_request_paths() {
    assert_eq!(decode_request_path("/index.html"), "index.html");
    assert_eq!(decode_request_path("no-slash"), "no-slash");
    assert_eq!(decode_request_path("//twice"), "/twice");
    assert_eq!(decode_request_path("/a%20b.css"), "a b.css");
    assert_eq!(decode_request_path("/%41%62c"), "Abc");
    assert_eq!(decode_request_path("/100%"), "100%");
    assert_eq!(decode_request_path("/%4G%zz"), "%4G%zz");
    assert_eq!(decode_request_path("/%E4%B8%AD"), "中");
    assert_eq!(decode_request_path("/%FF"), "\u{FFFD}");
    assert_eq!(decode_request_path(""), "");
}

#[test]
fn entry_page() {
    let a = sample();
    assert_eq!(respond(route_request("/", &a, false)), ("<h1>标题</h1>".as_bytes().to_vec(), "text/html"));
    assert_eq!(respond(route_request("/index.html", &a, true)), ("<h1>标题</h1>".as_bytes().to_vec(), "text/html"));
    assert_eq!(respond(route_request("", &a, true)), ("<h1>标题</h1>".as_bytes().to_vec(), "text/html"));
}

#[test]
fn entry_page_missing_gives_empty_html() {
    let a = Assets::new(vec![]);
    assert_eq!(respond(route_request("/", &a, false)), (Vec::new(), "text/html"));
}

#[test]
fn front_end_files() {
    let a = sample();
    assert_eq!(respond(route_request("/js/main.js", &a, false)), (b"run()".to_vec(), "application/javascript"));
    assert_eq!(respond(route_request("/a%20b.css", &a, false)), (b"x".to_vec(), "text/css"));
    assert_eq!(respond(route_request("/js%5Cmain.js", &a, false)), (b"run()".to_vec(), "application/javascript"));
}

#[test]
fn local_files() {
    let a = sample();
    match route_request("/local/img/%E5%9B%BE.png", &a, true) {
        Route::ReadLocal(p) => assert_eq!(p, "img/图.png"),
        Route::Respond(_) => panic!("expected a local read"),
    }
    match route_request("/local/", &a, true) {
        Route::ReadLocal(p) => assert_eq!(p, ""),
        Route::Respond(_) => panic!("expected a local read"),
    }
    assert_eq!(respond(route_request("/local/x.png", &a, false)), (b"Not Found".to_vec(), "text/plain"));
}

#[test]
fn unknown_paths() {
    let a = sample();
    assert_eq!(respond(route_request("/nothing.js", &a, true)), (b"Not Found".to_vec(), "text/plain"));
    assert_eq!(respond(route_request("/localx", &a, true)), (b"Not Found".to_vec(), "text/plain"));
}

#[test]
fn local_responses() {
    let r = local_response("/docs/pic.png", LocalRead::Contents(vec![9, 8]));
    assert_eq!((r.body, r.mime), (vec![9, 8], "image/png"));
    let r = local_response("/docs/pic.png", LocalRead::Unreadable);
    assert_eq!((r.body, r.mime), (b"Cannot read file".to_vec(), "text/plain"));
    let r = local_response("/docs/pic.png", LocalRead::Missing);
    assert_eq!((r.body, r.mime), (b"Not Found".to_vec(), "text/plain"));
    let r = local_response("/a.b/README", LocalRead::Contents(vec![]));
    assert_eq!(r.mime, "application/octet-stream");
}
