use https::model::{Method, Request, Segment};
use https::ops::{Gain, HttpHandler, Options};
use https::resolve::RequestPath;

fn handler() -> HttpHandler {
    HttpHandler::new(&Options {
        hosted_directory: ("site".to_string(), "/srv/site".to_string()),
        follow_symlinks: true,
        check_indices: false,
        allow_writes: false,
        encode_fs: false,
        temp_directory: None,
        user_agent: "http/0.1".to_string(),
        index_extensions: vec![],
        min_encoding_size: 0,
        max_encoding_size: 0,
        min_encoding_gain: Gain { numerator: 1, denominator: 1 },
        blacklisted_encoding_extensions: vec![],
    })
}

fn request(segments: Vec<Segment>) -> Request {
    Request {
        method: Method::Get,
        url: "http://localhost:8000/".to_string(),
        url_path: "/".to_string(),
        segments,
        range: None,
        encoding: None,
        has_content_range: false,
        headers: vec![],
    }
}

fn plain(s: &str) -> Segment {
    Segment { raw: s.to_string(), decoded: Some(s.to_string()) }
}

fn resolved(path: &str, followed_symlink: bool, decode_error: bool) -> RequestPath {
    RequestPath { path: path.to_string(), followed_symlink, decode_error }
}

#[test]
fn resolution_starts_at_the_root() {
    assert_eq!(RequestPath::start("/srv/site"), resolved("/srv/site", false, false));
    assert_eq!(handler().parse_requested_path(&request(vec![]), &vec![]), resolved("/srv/site", false, false));
}

#[test]
fn segments_are_appended() {
    let h = handler();
    let req = request(vec![plain("a"), plain("b.txt")]);
    assert_eq!(h.parse_requested_path(&req, &vec![]), resolved("/srv/site/a/b.txt", false, false));
    assert_eq!(h.parse_requested_path(&req, &vec![vec![], vec![]]), resolved("/srv/site/a/b.txt", false, false));
}

#[test]
fn decoded_text_is_what_is_appended() {
    let h = handler();
    let req = request(vec![Segment { raw: "a%20b".to_string(), decoded: Some("a b".to_string()) }]);
    assert_eq!(h.parse_requested_path(&req, &vec![]), resolved("/srv/site/a b", false, false));
}

#[test]
fn empty_segments_are_skipped() {
    let h = handler();
    let req = request(vec![plain(""), plain("a"), plain(""), plain("b"), plain("")]);
    assert_eq!(h.parse_requested_path(&req, &vec![]), resolved("/srv/site/a/b", false, false));
    let root = request(vec![plain("")]);
    assert_eq!(
        h.parse_requested_path(&root, &vec![vec!["/elsewhere".to_string()]]),
        resolved("/srv/site", false, false)
    );
}

#[test]
fn decode_error_is_kept_and_resolution_goes_on() {
    let h = handler();
    let req = request(vec![plain("a"), Segment { raw: "%FF".to_string(), decoded: None }, plain("b")]);
    assert_eq!(h.parse_requested_path(&req, &vec![]), resolved("/srv/site/a/b", false, true));
}

#[test]
fn links_are_followed_hop_by_hop() {
    let h = handler();
    let req = request(vec![plain("l"), plain("f.txt")]);
    let links = vec![vec!["/mnt/one".to_string(), "/mnt/two".to_string()], vec![]];
    assert_eq!(h.parse_requested_path(&req, &links), resolved("/mnt/two/f.txt", true, false));
    let last = vec![vec![], vec!["/data/g.txt".to_string()]];
    assert_eq!(h.parse_requested_path(&req, &last), resolved("/data/g.txt", true, false));
}

#[test]
fn links_after_an_undecodable_segment_still_count() {
    let h = handler();
    let req = request(vec![Segment { raw: "%FF".to_string(), decoded: None }]);
    let links = vec![vec!["/mnt/one".to_string()]];
    assert_eq!(h.parse_requested_path(&req, &links), resolved("/mnt/one", true, true));
}

#[test]
fn steps_do_what_the_walk_does() {
    let mut p = RequestPath::start("/srv/site");
    assert!(!p.append(&plain("")));
    assert_eq!(p, resolved("/srv/site", false, false));
    assert!(p.append(&plain("a")));
    assert_eq!(p, resolved("/srv/site/a", false, false));
    p.follow("/mnt/x".to_string());
    assert_eq!(p, resolved("/mnt/x", true, false));
    assert!(p.append(&Segment { raw: "%FF".to_string(), decoded: None }));
    assert_eq!(p, resolved("/mnt/x", true, true));
    assert!(p.append(&plain("b")));
    assert_eq!(p, resolved("/mnt/x/b", true, true));
}
