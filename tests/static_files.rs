use std::collections::HashMap;

use chost::content_type::get_content_type;
use chost::dispatch::{route, Route, ServerConfig};
use chost::file::{plan_file_lookup, response_file_content, FileLookup};
use chost::http::{cors_headers, not_found, response_headers, response_with_no_body, Method, Reply};
use chost::path::{extension, join_path, last_component, strip_leading_slash};

/// Serves a request against an in-memory tree: `files` maps paths to contents,
/// `dirs` lists the directories.
fn serve(config: &ServerConfig, method: Method, path: &str, files: &HashMap<String, Vec<u8>>, dirs: &[&str]) -> Result<Reply, String> {
    match route(config, method, path) {
        Route::Reply(r) => Ok(r),
        Route::Forward(t) => Err(t.uri),
        Route::Static(rel) => {
            let joined = join_path(&config.root, &rel);
            let is_dir = dirs.contains(&joined.trim_end_matches('/'));
            match plan_file_lookup(&config.root, method, &rel, is_dir) {
                FileLookup::Done(r) => Ok(r),
                FileLookup::Read(plan) => {
                    let primary = files.get(&plan.path).cloned();
                    let fallback = match (&primary, &plan.fallback) {
                        (None, Some(f)) => files.get(f).cloned(),
                        _ => None,
                    };
                    Ok(response_file_content(&plan, primary, fallback))
                }
            }
        }
    }
}

fn site() -> (ServerConfig, HashMap<String, Vec<u8>>) {
    let config = ServerConfig::new("/site".to_string(), false, 7878, &vec!["/api|http://localhost:9000".to_string()]).ok().unwrap();
    let mut files = HashMap::new();
    files.insert("/site/index.html".to_string(), b"<html>app</html>".to_vec());
    files.insert("/site/app.js".to_string(), b"console.log(1)".to_vec());
    (config, files)
}

#[test]
fn example_site_requests() {
    let (config, files) = site();
    let dirs = ["/site"];
    let r = serve(&config, Method::Get, "/", &files, &dirs).unwrap();
    assert_eq!(r.status, 200);
    assert_eq!(r.content_type.as_deref(), Some("text/html"));
    assert_eq!(r.body, b"<html>app</html>".to_vec());
    let r = serve(&config, Method::Get, "/app.js", &files, &dirs).unwrap();
    assert_eq!(r.status, 200);
    assert_eq!(r.content_type.as_deref(), Some("application/javascript"));
    assert_eq!(r.body, b"console.log(1)".to_vec());
    let r = serve(&config, Method::Get, "/missing", &files, &dirs).unwrap();
    assert_eq!(r.status, 200);
    assert_eq!(r.content_type.as_deref(), Some("text/html"));
    assert_eq!(r.body, b"<html>app</html>".to_vec());
    let r = serve(&config, Method::Get, "/missing.png", &files, &dirs).unwrap();
    assert_eq!(r.status, 404);
    assert_eq!(r.body, b"Not Found".to_vec());
    let uri = serve(&config, Method::Get, "/api/users", &files, &dirs).unwrap_err();
    assert_eq!(uri, "http://localhost:9000/api/users");
}

#[test]
fn options_is_no_content_everywhere() {
    let (config, files) = site();
    for p in ["/", "/app.js", "/api/users", "/missing.png"] {
        let r = serve(&config, Method::Options, p, &files, &["/site"]).unwrap();
        assert_eq!(r.status, 204);
        assert!(r.body.is_empty());
        assert_eq!(r.content_type, None);
    }
}

#[test]
fn other_methods_are_not_found() {
    let (config, files) = site();
    let r = serve(&config, Method::Other, "/app.js", &files, &["/site"]).unwrap();
    assert_eq!(r.status, 404);
    assert_eq!(r.body, b"Not Found".to_vec());
}

#[test]
fn head_has_headers_but_no_body() {
    let (config, files) = site();
    let r = serve(&config, Method::Head, "/app.js", &files, &["/site"]).unwrap();
    assert_eq!(r.status, 200);
    assert_eq!(r.content_type.as_deref(), Some("application/javascript"));
    assert!(r.body.is_empty());
    let r = serve(&config, Method::Head, "/deep/link", &files, &["/site"]).unwrap();
    assert_eq!(r.status, 200);
    assert_eq!(r.content_type.as_deref(), Some("text/html"));
    assert!(r.body.is_empty());
}

#[test]
fn directory_serves_its_index() {
    let (config, mut files) = site();
    files.insert("/site/docs/index.html".to_string(), b"docs".to_vec());
    let r = serve(&config, Method::Get, "/docs", &files, &["/site", "/site/docs"]).unwrap();
    assert_eq!(r.status, 200);
    assert_eq!(r.content_type.as_deref(), Some("text/html"));
    assert_eq!(r.body, b"docs".to_vec());
}

#[test]
fn missing_index_without_fallback_is_not_found() {
    let config = ServerConfig::new("/empty".to_string(), false, 7878, &vec![]).ok().unwrap();
    let files = HashMap::new();
    let r = serve(&config, Method::Get, "/route", &files, &["/empty"]).unwrap();
    assert_eq!(r.status, 404);
}

#[test]
fn plan_for_get_of_extensionless_path() {
    match plan_file_lookup("/site", Method::Get, "about", false) {
        FileLookup::Read(plan) => {
            assert_eq!(plan.path, "/site/about");
            assert_eq!(plan.fallback.as_deref(), Some("/site/index.html"));
            assert_eq!(plan.extension, None);
            assert!(!plan.head);
        }
        FileLookup::Done(_) => panic!("expected a read"),
    }
}

#[test]
fn plan_for_directory_reads_index() {
    match plan_file_lookup("/site/", Method::Head, "docs", true) {
        FileLookup::Read(plan) => {
            assert_eq!(plan.path, "/site/docs/index.html");
            assert_eq!(plan.extension.as_deref(), Some("html"));
            assert!(plan.head);
        }
        FileLookup::Done(_) => panic!("expected a read"),
    }
}

#[test]
fn plan_for_asset_has_no_fallback() {
    match plan_file_lookup("/site", Method::Get, "img/logo.svg", false) {
        FileLookup::Read(plan) => {
            assert_eq!(plan.fallback, None);
            assert_eq!(plan.extension.as_deref(), Some("svg"));
        }
        FileLookup::Done(_) => panic!("expected a read"),
    }
}

#[test]
fn content_types() {
    let table = [
        ("html", "text/html"),
        ("js", "application/javascript"),
        ("css", "text/css"),
        ("json", "application/json"),
        ("png", "image/png"),
        ("jpg", "image/jpg"),
        ("svg", "image/svg+xml"),
        ("wasm", "application/wasm"),
        ("pdf", "application/pdf"),
        ("docx", "application/vnd.openxmlformats-officedocument.wordprocessingml.document"),
        ("txt", "text/plain"),
        ("HTML", "text/plain"),
        ("", "text/plain"),
    ];
    for (ext, ty) in table {
        assert_eq!(get_content_type(Some(ext)), ty);
    }
    assert_eq!(get_content_type(None), "text/plain");
}

#[test]
fn extensions_follow_path_rules() {
    assert_eq!(extension("/site/app.js"), Some("js"));
    assert_eq!(extension("a/b.tar.gz"), Some("gz"));
    assert_eq!(extension("a/.bashrc"), None);
    assert_eq!(extension("a/..b"), Some("b"));
    assert_eq!(extension("a/file."), Some(""));
    assert_eq!(extension("a/dir.d/file"), None);
    assert_eq!(extension("a/b.js/"), Some("js"));
    assert_eq!(extension("a/b.js/."), Some("js"));
    assert_eq!(extension("a/.."), None);
    assert_eq!(extension("/"), None);
    assert_eq!(extension(""), None);
    assert_eq!(last_component("/x/y//"), "y");
}

#[test]
fn joining_and_stripping() {
    assert_eq!(join_path("/site", "a/b"), "/site/a/b");
    assert_eq!(join_path("/site/", "a"), "/site/a");
    assert_eq!(join_path("", "a"), "a");
    assert_eq!(join_path("/site", "/etc"), "/etc");
    assert_eq!(join_path("/site", ""), "/site/");
    assert_eq!(strip_leading_slash("/a/b"), "a/b");
    assert_eq!(strip_leading_slash("a"), "a");
    assert_eq!(strip_leading_slash("//a"), "/a");
}

#[test]
fn replies_and_headers() {
    let r = not_found();
    assert_eq!(r.status, 404);
    assert_eq!(r.body, b"Not Found".to_vec());
    let r = response_with_no_body(204);
    assert_eq!(r.status, 204);
    assert!(r.body.is_empty());
    let on = cors_headers(true);
    assert_eq!(on.len(), 3);
    assert!(on.contains(&("access-control-allow-origin".to_string(), "*".to_string())));
    assert!(on.contains(&("access-control-allow-methods".to_string(), "*".to_string())));
    assert!(on.contains(&("access-control-allow-headers".to_string(), "*".to_string())));
    assert!(cors_headers(false).is_empty());
}

#[test]
fn cors_on_every_kind_of_reply() {
    let (config, files) = site();
    for (m, p) in [(Method::Get, "/app.js"), (Method::Get, "/missing.png"), (Method::Options, "/")] {
        let r = serve(&config, m, p, &files, &["/site"]).unwrap();
        let on = response_headers(&r, true);
        assert!(on.contains(&("access-control-allow-origin".to_string(), "*".to_string())));
        let off = response_headers(&r, false);
        assert!(off.iter().all(|(n, _)| n != "access-control-allow-origin"));
    }
    let r = serve(&config, Method::Get, "/app.js", &files, &["/site"]).unwrap();
    assert_eq!(response_headers(&r, false), vec![("content-type".to_string(), "application/javascript".to_string())]);
}
