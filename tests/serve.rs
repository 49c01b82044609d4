use httpd2::policy::{map_content_type, mode_ok, picky_open, ContentType, EntryKind, FileMeta, Opened, Stat, Timestamp};
use httpd2::respond::{accepts_gzip, begin, not_found, plan_response, value_lists_gzip, Begin, Body, Method};
use httpd2::select::{Selection, Selector, Step};

const T: Timestamp = Timestamp { secs: 784111777, nanos: 0 };

fn stat(mode: u32, kind: EntryKind, len: u64, modified: Timestamp) -> Option<Stat> {
    Some(Stat { mode, kind, len, modified })
}

fn open_next(step: Step) -> Selector {
    match step {
        Step::Open(s) => s,
        Step::Done(_) => panic!("expected another open"),
    }
}

fn done(step: Step) -> Selection {
    match step {
        Step::Done(d) => d,
        Step::Open(_) => panic!("expected a decision"),
    }
}

fn lookup(method: Method, path: &str, enc: &[&str]) -> Selector {
    let values: Vec<String> = enc.iter().map(|s| s.to_string()).collect();
    match begin(method, path, &values) {
        Begin::Lookup(s) => s,
        Begin::Respond(_) => panic!("expected a lookup"),
    }
}

#[test]
fn content_types() {
    assert_eq!(map_content_type("./index.html"), ContentType::Html);
    assert_eq!(map_content_type("./a/style.css"), ContentType::Css);
    assert_eq!(map_content_type("./app.js"), ContentType::Javascript);
    assert_eq!(map_content_type("./f.woff2"), ContentType::Woff2);
    assert_eq!(map_content_type("./logo.png"), ContentType::Png);
    assert_eq!(map_content_type("./notes.txt"), ContentType::Plain);
    assert_eq!(map_content_type("./README"), ContentType::Plain);
    assert_eq!(map_content_type("./.html"), ContentType::Plain);
    assert_eq!(map_content_type("./dir.html/"), ContentType::Html);
    assert_eq!(map_content_type("./x.html/."), ContentType::Html);
    assert_eq!(map_content_type("./x.css/./"), ContentType::Css);
    assert_eq!(map_content_type("./x.css/./."), ContentType::Css);
    assert_eq!(map_content_type("./"), ContentType::Plain);
    assert_eq!(map_content_type("./a/.."), ContentType::Plain);
    assert_eq!(map_content_type("./index.html.gz"), ContentType::Plain);
    assert_eq!(ContentType::Javascript.mime(), "text/javascript");
}

#[test]
fn mode_policy() {
    assert!(mode_ok(0o644));
    assert!(mode_ok(0o755));
    assert!(mode_ok(0o444));
    assert!(!mode_ok(0o640));
    assert!(!mode_ok(0o600));
    assert!(!mode_ok(0o645));
    assert!(mode_ok(0o100644));
}

#[test]
fn picky_open_cases() {
    assert_eq!(picky_open("./x", None), Opened::NotFound);
    assert_eq!(picky_open("./secret.txt", stat(0o640, EntryKind::Regular, 3, T)), Opened::NotFound);
    assert_eq!(picky_open("./d", stat(0o755, EntryKind::Directory, 0, T)), Opened::Dir);
    assert_eq!(picky_open("./dev", stat(0o666, EntryKind::Other, 0, T)), Opened::NotFound);
    assert_eq!(
        picky_open("./index.html", stat(0o644, EntryKind::Regular, 11, T)),
        Opened::File(FileMeta { content_type: ContentType::Html, len: 11, modified: T })
    );
}

#[test]
fn gzip_token_scan() {
    assert!(value_lists_gzip("gzip"));
    assert!(value_lists_gzip("deflate, gzip"));
    assert!(value_lists_gzip(" gzip ,br"));
    assert!(!value_lists_gzip("gzip;q=1"));
    assert!(!value_lists_gzip("xgzip"));
    assert!(!value_lists_gzip("identity"));
    assert!(!value_lists_gzip(""));
    assert!(accepts_gzip(&vec!["br".to_string(), "gzip, br".to_string()]));
    assert!(!accepts_gzip(&vec![]));
}

#[test]
fn identity_never_probes_gzip() {
    let sel = lookup(Method::Get, "/index.html", &["identity"]);
    let meta = picky_open(sel.path(), stat(0o644, EntryKind::Regular, 11, T));
    match done(sel.feed(meta)) {
        Selection::Serve { gzip, .. } => assert!(!gzip),
        _ => panic!("expected a file"),
    }
}

#[test]
fn empty_path_redirects_to_index() {
    let sel = lookup(Method::Get, "", &[]);
    assert_eq!(sel.path(), "./");
    let next = open_next(sel.feed(Opened::Dir));
    assert_eq!(next.path(), ".//index.html");
    assert_eq!(done(next.feed(Opened::Dir)), Selection::Directory);
}

#[test]
fn only_nuls_are_not_found() {
    let sel = lookup(Method::Get, "\0\0\0", &[]);
    assert_eq!(sel.path(), "./___");
    assert_eq!(done(sel.feed(picky_open("./___", None))), Selection::Missing);
}

#[test]
fn post_is_bare_not_found() {
    let values = vec!["gzip".to_string()];
    match begin(Method::Other, "/index.html", &values) {
        Begin::Respond(r) => {
            assert_eq!(r.status, 404);
            assert!(r.headers.is_none());
            assert_eq!(r.body, Body::Empty);
        }
        Begin::Lookup(_) => panic!("no lookup for POST"),
    }
    let r = plan_response(Method::Other, Selection::Serve {
        meta: FileMeta { content_type: ContentType::Html, len: 11, modified: T },
        gzip: false,
    });
    assert_eq!(r.status, 404);
    assert_eq!(r.body, Body::Empty);
}

#[test]
fn get_root_serves_index() {
    let sel = lookup(Method::Get, "/", &[]);
    let next = open_next(sel.feed(picky_open("./", stat(0o755, EntryKind::Directory, 0, T))));
    let found = picky_open(next.path(), stat(0o644, EntryKind::Regular, 11, T));
    let choice = done(next.feed(found));
    let r = plan_response(Method::Get, choice);
    assert_eq!(r.status, 200);
    let h = r.headers.unwrap();
    assert_eq!(h.content_length, 11);
    assert_eq!(h.content_type.mime(), "text/html");
    assert_eq!(h.last_modified, "Sun, 06 Nov 1994 08:49:37 GMT");
    assert!(!h.gzip);
    assert_eq!(r.body, Body::File { gzip: false });
}

#[test]
fn get_root_serves_fresh_gzip() {
    let sel = lookup(Method::Get, "/", &["gzip"]);
    let next = open_next(sel.feed(Opened::Dir));
    let found = picky_open(next.path(), stat(0o644, EntryKind::Regular, 11, T));
    let gz = open_next(next.feed(found));
    assert_eq!(gz.path(), ".//index.html.gz");
    let later = Timestamp { secs: T.secs + 5, nanos: 0 };
    let alt = picky_open(gz.path(), stat(0o644, EntryKind::Regular, 7, later));
    let r = plan_response(Method::Get, done(gz.feed(alt)));
    assert_eq!(r.status, 200);
    let h = r.headers.unwrap();
    assert_eq!(h.content_length, 7);
    assert_eq!(h.content_type, ContentType::Html);
    assert_eq!(h.last_modified, "Sun, 06 Nov 1994 08:49:37 GMT");
    assert!(h.gzip);
    assert_eq!(r.body, Body::File { gzip: true });
}

#[test]
fn stale_gzip_is_ignored() {
    let sel = lookup(Method::Get, "/a.css", &["gzip"]);
    let gz = open_next(sel.feed(picky_open("./a.css", stat(0o644, EntryKind::Regular, 20, T))));
    let older = Timestamp { secs: T.secs - 1, nanos: 999 };
    let stale = picky_open(gz.path(), stat(0o644, EntryKind::Regular, 5, older));
    assert_eq!(
        done(gz.feed(stale)),
        Selection::Serve { meta: FileMeta { content_type: ContentType::Css, len: 20, modified: T }, gzip: false }
    );
}

#[test]
fn unreadable_gzip_is_ignored() {
    let sel = lookup(Method::Get, "/a.css", &["gzip"]);
    let gz = open_next(sel.feed(picky_open("./a.css", stat(0o644, EntryKind::Regular, 20, T))));
    let alt = picky_open(gz.path(), stat(0o600, EntryKind::Regular, 5, T));
    assert_eq!(
        done(gz.feed(alt)),
        Selection::Serve { meta: FileMeta { content_type: ContentType::Css, len: 20, modified: T }, gzip: false }
    );
}

#[test]
fn head_style_css() {
    let sel = lookup(Method::Head, "/style.css", &[]);
    assert_eq!(sel.path(), "./style.css");
    let found = picky_open(sel.path(), stat(0o644, EntryKind::Regular, 42, T));
    let r = plan_response(Method::Head, done(sel.feed(found)));
    assert_eq!(r.status, 200);
    let h = r.headers.unwrap();
    assert_eq!(h.content_length, 42);
    assert_eq!(h.content_type.mime(), "text/css");
    assert_eq!(r.body, Body::Empty);
}

#[test]
fn traversal_is_not_found() {
    let sel = lookup(Method::Get, "/../../etc/passwd", &[]);
    assert_eq!(sel.path(), "./:./:./etc/passwd");
    let opened = picky_open(sel.path(), None);
    let r = plan_response(Method::Get, done(sel.feed(opened)));
    assert_eq!(r.status, 404);
    assert!(r.headers.is_none());
}

#[test]
fn group_only_file_is_not_found() {
    let sel = lookup(Method::Get, "/secret.txt", &[]);
    let found = picky_open(sel.path(), stat(0o640, EntryKind::Regular, 9, T));
    let r = plan_response(Method::Get, done(sel.feed(found)));
    assert_eq!(r.status, 404);
    assert_eq!(r.body, Body::Empty);
}

#[test]
fn index_directory_is_not_found() {
    let r = plan_response(Method::Get, Selection::Directory);
    assert_eq!(r.status, 404);
    assert!(r.headers.is_none());
    assert_eq!(not_found().status, 404);
}
