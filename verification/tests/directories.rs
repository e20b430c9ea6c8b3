use https::dir::index_path_of;
use https::listing::{write_listing_fields, DirEntry};
use https::model::{
    Body, Encoding, FileInfo, FileTime, Header, Method, Page, PathState, Request, Response, Segment, Step, Template,
};
use https::ops::{Gain, HttpHandler, Options};
use https::resolve::RequestPath;
use https::status::Status;

fn options() -> Options {
    Options {
        hosted_directory: ("site".to_string(), "/srv/site".to_string()),
        follow_symlinks: false,
        check_indices: true,
        allow_writes: false,
        encode_fs: true,
        temp_directory: Some(("tmp".to_string(), "/tmp/http".to_string())),
        user_agent: "http/0.1".to_string(),
        index_extensions: vec!["html".to_string(), "htm".to_string(), "shtml".to_string()],
        min_encoding_size: 1024,
        max_encoding_size: 1024 * 1024,
        min_encoding_gain: Gain { numerator: 11, denominator: 10 },
        blacklisted_encoding_extensions: vec![],
    }
}

fn request(method: Method, path: &[&str]) -> Request {
    Request {
        method,
        url: format!("http://localhost:8000/{}", path.join("/")),
        url_path: if path == [""] { "/".to_string() } else { path.join("/") },
        segments: path.iter().map(|s| Segment { raw: s.to_string(), decoded: Some(s.to_string()) }).collect(),
        range: None,
        encoding: None,
        has_content_range: false,
        headers: vec![],
    }
}

fn time() -> FileTime {
    FileTime { sec: 5, min: 4, hour: 3, mday: 2, mon: 0, year: 117, wday: 1, yday: 1, isdst: 0, utcoff: 0, nsec: 0 }
}

fn entry(name: &str, is_file: bool, is_symlink: bool) -> DirEntry {
    DirEntry {
        name: name.to_string(),
        path: format!("/srv/site/d/{}", name),
        is_file,
        is_symlink,
        len: 3,
        modified: time(),
        binary: false,
        size_text: "3 B".to_string(),
    }
}

fn server() -> Header {
    Header::Server("http/0.1".to_string())
}

#[test]
fn index_paths_are_made_from_the_extensions() {
    assert_eq!(index_path_of("/srv/site/d", "html"), Some("/srv/site/d/index.html".to_string()));
    assert_eq!(index_path_of("/srv/site/d/", "htm"), Some("/srv/site/d/index.htm".to_string()));
    assert_eq!(index_path_of("/srv/site/d", "a/b"), None);
    assert_eq!(index_path_of("/srv/site/d", "a\\b"), None);
    let h = HttpHandler::new(&options());
    assert_eq!(
        h.index_candidates("/srv/site/d"),
        vec![
            Some("/srv/site/d/index.html".to_string()),
            Some("/srv/site/d/index.htm".to_string()),
            Some("/srv/site/d/index.shtml".to_string()),
        ]
    );
    let mut o = options();
    o.check_indices = false;
    assert_eq!(HttpHandler::new(&o).index_candidates("/srv/site/d"), vec![]);
}

#[test]
fn directory_without_index_is_listed() {
    let h = HttpHandler::new(&options());
    let req = request(Method::Get, &["d", ""]);
    assert_eq!(
        h.handle_get_dir(&req, "/srv/site/d", &vec![None, None, None]),
        Step::ReadDir { dir: "/srv/site/d".to_string() }
    );
    assert_eq!(h.handle_get_dir(&req, "/srv/site/d", &vec![]), Step::ReadDir { dir: "/srv/site/d".to_string() });
}

#[test]
fn directory_is_listed_when_indices_are_not_checked() {
    let mut o = options();
    o.check_indices = false;
    let h = HttpHandler::new(&o);
    let req = request(Method::Get, &["d", ""]);
    let found = vec![Some(FileInfo { len: 3, binary: false })];
    assert_eq!(h.handle_get_dir(&req, "/srv/site/d", &found), Step::ReadDir { dir: "/srv/site/d".to_string() });
}

#[test]
fn index_is_served_when_the_url_ends_in_a_separator() {
    let h = HttpHandler::new(&options());
    let req = request(Method::Get, &["d", ""]);
    let found = vec![None, Some(FileInfo { len: 3, binary: false }), Some(FileInfo { len: 9, binary: false })];
    assert_eq!(
        h.handle_get_dir(&req, "/srv/site/d", &found),
        Step::Respond(Response {
            status: Status::Success,
            headers: vec![
                server(),
                Header::LastModified("/srv/site/d/index.htm".to_string()),
                Header::AcceptRanges,
                Header::ContentType("text/html".to_string()),
            ],
            body: Body::File("/srv/site/d/index.htm".to_string()),
        })
    );
}

#[test]
fn large_index_is_served_encoded() {
    let h = HttpHandler::new(&options());
    let mut req = request(Method::Get, &["d", ""]);
    req.encoding = Some(Encoding { name: "gzip".to_string(), extension: Some("gz".to_string()) });
    let found = vec![Some(FileInfo { len: 5000, binary: false })];
    assert_eq!(
        h.handle_get_dir(&req, "/srv/site/d", &found),
        Step::HashFile {
            temp_dir: "/tmp/http/encoded".to_string(),
            path: "/srv/site/d/index.html".to_string(),
            mime: "text/html".to_string(),
        }
    );
}

#[test]
fn index_without_separator_redirects() {
    let h = HttpHandler::new(&options());
    let req = request(Method::Get, &["d"]);
    let found = vec![Some(FileInfo { len: 3, binary: false })];
    let expected = Step::Respond(Response {
        status: Status::MovedPermanently,
        headers: vec![server(), Header::Location("http://localhost:8000/d/".to_string())],
        body: Body::Empty,
    });
    assert_eq!(h.handle_get_dir(&req, "/srv/site/d", &found), expected);
    assert_eq!(h.handle_get_dir_index_no_slash(&req, "html"), expected);
}

#[test]
fn index_found_past_the_extensions_does_not_count() {
    let h = HttpHandler::new(&options());
    let req = request(Method::Get, &["d", ""]);
    let found = vec![None, None, None, Some(FileInfo { len: 3, binary: false })];
    assert_eq!(h.handle_get_dir(&req, "/srv/site/d", &found), Step::ReadDir { dir: "/srv/site/d".to_string() });
}

#[test]
fn get_of_directory_goes_through_the_indices() {
    let h = HttpHandler::new(&options());
    let req = request(Method::Get, &["d"]);
    let resolved = RequestPath { path: "/srv/site/d".to_string(), followed_symlink: false, decode_error: false };
    let mut state =
        PathState { exists: true, is_dir: true, file: None, file_as_dir: false, indices: vec![None, None, None] };
    assert_eq!(h.handle_get(&req, &resolved, &state), Step::ReadDir { dir: "/srv/site/d".to_string() });
    state.indices[2] = Some(FileInfo { len: 1, binary: false });
    match h.handle_get(&req, &resolved, &state) {
        Step::Respond(r) => assert_eq!(r.status.code(), 301),
        other => panic!("unexpected {:?}", other),
    }
}

#[test]
fn listing_page_has_four_fields() {
    let h = HttpHandler::new(&options());
    let req = request(Method::Get, &["d"]);
    let entries = vec![entry("B.txt", true, false), entry("a", false, false), entry("A.txt", true, false)];
    let sorted = vec![entry("a", false, false), entry("A.txt", true, false), entry("B.txt", true, false)];
    assert_eq!(
        h.handle_get_dir_listing(&req, &time(), &entries),
        Step::Render(Page {
            status: Status::Success,
            template: Template::DirectoryListing,
            fields: write_listing_fields("d", false, false, &time(), &sorted),
            allow: None,
        })
    );
    assert_eq!(h.handle_get_dir_listing(&req, &time(), &entries), h.render_listing(&req, &time(), &sorted));
}

#[test]
fn listing_of_the_root_has_no_parent_row() {
    let mut o = options();
    o.allow_writes = true;
    let h = HttpHandler::new(&o);
    let req = request(Method::Get, &[""]);
    match h.handle_get_dir_listing(&req, &time(), &vec![]) {
        Step::Render(page) => {
            assert_eq!(page.status.code(), 200);
            assert_eq!(
                page.fields,
                vec![
                    "/".to_string(),
                    "<script type=\"text/javascript\">{drag_drop}</script>".to_string(),
                    String::new(),
                    String::new(),
                ]
            );
        },
        other => panic!("unexpected {:?}", other),
    }
}

#[test]
fn listing_leaves_out_symlinks_when_not_followed() {
    let h = HttpHandler::new(&options());
    let req = request(Method::Get, &["d"]);
    let entries = vec![entry("link", true, true), entry("real", true, false)];
    let shown = vec![entry("real", true, false)];
    assert_eq!(h.handle_get_dir_listing(&req, &time(), &entries), h.render_listing(&req, &time(), &shown));
    let mut o = options();
    o.follow_symlinks = true;
    let following = HttpHandler::new(&o);
    assert_eq!(
        following.handle_get_dir_listing(&req, &time(), &entries),
        following.render_listing(&req, &time(), &entries)
    );
}
