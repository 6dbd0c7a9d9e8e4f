use static_site::http::{Method, Response, BAD_REQUEST, INTERNAL_SERVER_ERROR, NOT_FOUND, OK, SEE_OTHER};
use static_site::route::{index, rocket, Dispatch, FileTarget, Handler};
use static_site::serve::{content_type_for, serve_step, FileLookup, Step};

fn file_target(d: Dispatch) -> FileTarget {
    match d {
        Dispatch::File(t) => t,
        Dispatch::Redirect(r) => panic!("redirect to {}", r.location),
        Dispatch::Reject(s) => panic!("rejected with {}", s),
    }
}

fn response(s: Step) -> Response {
    match s {
        Step::Respond(r) => r,
        Step::Look(t) => panic!("asked to look up {:?}", t.parts),
    }
}

fn target(parts: &[&str]) -> FileTarget {
    FileTarget {
        root: "static".to_string(),
        parts: parts.iter().map(|p| p.to_string()).collect(),
        index: false,
    }
}

#[test]
fn index_redirects_to_front_page() {
    let r = index();
    assert_eq!(r.status, SEE_OTHER);
    assert_eq!(r.location, "/static/index.html");
}

#[test]
fn table_has_index_and_static_mounts() {
    let site = rocket();
    assert_eq!(site.mounts.len(), 2);
    assert!(site.mounts[0].base.is_empty());
    assert!(matches!(site.mounts[0].handler, Handler::Index));
    assert_eq!(site.mounts[1].base, vec!["static".to_string()]);
    match &site.mounts[1].handler {
        Handler::Files(root) => assert_eq!(root, "static"),
        Handler::Index => panic!("static mount has the index handler"),
    }
}

#[test]
fn root_redirects_whatever_the_query() {
    let site = rocket();
    for uri in ["/", "/?lang=en", "//", "/?a=1&b=2"] {
        match site.route(Method::Get, uri) {
            Dispatch::Redirect(r) => {
                assert_eq!(r.status, SEE_OTHER);
                assert_eq!(r.location, "/static/index.html");
            }
            _ => panic!("{} was not redirected", uri),
        }
    }
}

#[test]
fn front_page_scenario() {
    let site = rocket();
    let location = match site.route(Method::Get, "/") {
        Dispatch::Redirect(r) => r.location,
        _ => panic!("no redirect"),
    };
    let t = file_target(site.route(Method::Get, &location));
    assert_eq!(t.root, "static");
    assert_eq!(t.parts, vec!["index.html".to_string()]);
    let r = response(serve_step(t, FileLookup::Regular(b"<h1>Hi</h1>".to_vec())));
    assert_eq!(r.status, OK);
    assert_eq!(r.body, b"<h1>Hi</h1>".to_vec());
    assert!(r.content_type.unwrap().starts_with("text/html"));
}

#[test]
fn regular_file_served_byte_for_byte() {
    let site = rocket();
    let t = file_target(site.route(Method::Get, "/static/img/logo.bin"));
    assert_eq!(t.parts, vec!["img".to_string(), "logo.bin".to_string()]);
    let bytes: Vec<u8> = vec![0, 255, 10, 13, 7];
    let r = response(serve_step(t, FileLookup::Regular(bytes.clone())));
    assert_eq!(r.status, OK);
    assert_eq!(r.body, bytes);
}

#[test]
fn missing_file_not_found() {
    let site = rocket();
    let t = file_target(site.route(Method::Get, "/static/missing.txt"));
    assert_eq!(t.parts, vec!["missing.txt".to_string()]);
    let r = response(serve_step(t, FileLookup::Missing));
    assert_eq!(r.status, NOT_FOUND);
    assert!(r.body.is_empty());
}

#[test]
fn unreadable_file_is_server_error() {
    let r = response(serve_step(target(&["a.txt"]), FileLookup::Failed));
    assert_eq!(r.status, INTERNAL_SERVER_ERROR);
}

#[test]
fn directory_answered_by_its_index() {
    let site = rocket();
    let t = file_target(site.route(Method::Get, "/static/docs"));
    let next = match serve_step(t, FileLookup::Directory) {
        Step::Look(n) => n,
        Step::Respond(r) => panic!("answered {}", r.status),
    };
    assert_eq!(next.parts, vec!["docs".to_string(), "index.html".to_string()]);
    assert!(next.index);
    let r = response(serve_step(next, FileLookup::Directory));
    assert_eq!(r.status, NOT_FOUND);
}

#[test]
fn static_root_itself_is_a_directory_target() {
    let site = rocket();
    let t = file_target(site.route(Method::Get, "/static"));
    assert!(t.parts.is_empty());
}

#[test]
fn traversal_stays_inside_root() {
    let site = rocket();
    for uri in ["/static/../main.rs", "/static/%2e%2e/main.rs", "/static/a/../../main.rs"] {
        match site.route(Method::Get, uri) {
            Dispatch::File(t) => {
                assert_eq!(t.root, "static");
                for p in &t.parts {
                    assert!(!p.starts_with('.'), "{} gave {:?}", uri, t.parts);
                    assert!(!p.contains('/'));
                }
            }
            Dispatch::Reject(s) => assert_eq!(s, NOT_FOUND),
            Dispatch::Redirect(_) => panic!("{} was redirected", uri),
        }
    }
}

#[test]
fn dotfiles_and_encoded_separators_not_found() {
    let site = rocket();
    for uri in ["/static/.env", "/static/a/.git/config", "/static/a%2Fb"] {
        match site.route(Method::Get, uri) {
            Dispatch::Reject(s) => assert_eq!(s, NOT_FOUND),
            _ => panic!("{} was not refused", uri),
        }
    }
}

#[test]
fn unmounted_path_not_found() {
    let site = rocket();
    for uri in ["/other", "/staticfiles/a.txt", "/index.html"] {
        match site.route(Method::Get, uri) {
            Dispatch::Reject(s) => assert_eq!(s, NOT_FOUND),
            _ => panic!("{} was routed", uri),
        }
    }
}

#[test]
fn other_methods_not_found() {
    let site = rocket();
    for m in [Method::Post, Method::Put, Method::Delete] {
        match site.route(m, "/") {
            Dispatch::Reject(s) => assert_eq!(s, NOT_FOUND),
            _ => panic!("{:?} was routed", m),
        }
    }
}

#[test]
fn invalid_target_is_bad_request() {
    let site = rocket();
    match site.route(Method::Get, "static/index.html") {
        Dispatch::Reject(s) => assert_eq!(s, BAD_REQUEST),
        _ => panic!("a relative target was routed"),
    }
}

#[test]
fn repeated_requests_give_same_answer() {
    let site = rocket();
    let first = file_target(site.route(Method::Get, "/static/a/b.css"));
    let second = file_target(site.route(Method::Get, "/static/a/b.css"));
    assert_eq!(first.parts, second.parts);
    let r1 = response(serve_step(first, FileLookup::Regular(b"body{}".to_vec())));
    let r2 = response(serve_step(second, FileLookup::Regular(b"body{}".to_vec())));
    assert_eq!(r1.status, r2.status);
    assert_eq!(r1.content_type, r2.content_type);
    assert_eq!(r1.body, r2.body);
}

#[test]
fn content_type_from_extension() {
    assert_eq!(content_type_for(&target(&["a", "style.css"])).unwrap(), "text/css; charset=utf-8");
    assert!(content_type_for(&target(&["page.html"])).unwrap().starts_with("text/html"));
    assert_eq!(content_type_for(&target(&["notes.txt"])).unwrap(), "text/plain; charset=utf-8");
    assert_eq!(content_type_for(&target(&["README"])), None);
    assert_eq!(content_type_for(&target(&["data.nosuchext"])), None);
    assert_eq!(content_type_for(&target(&[])), None);
}
