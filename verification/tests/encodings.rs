use https::encoding::{mime_is_guessed, mime_type_of};
use https::model::{Body, CacheKey, Encoding, FileInfo, Header, Method, Request, Response, Step};
use https::ops::{Gain, HttpHandler, Options};
use https::status::Status;

fn options() -> Options {
    Options {
        hosted_directory: ("site".to_string(), "/srv/site".to_string()),
        follow_symlinks: false,
        check_indices: true,
        allow_writes: true,
        encode_fs: true,
        temp_directory: Some(("tmp".to_string(), "/tmp/http".to_string())),
        user_agent: "http/0.1".to_string(),
        index_extensions: vec!["html".to_string()],
        min_encoding_size: 1024,
        max_encoding_size: 1024 * 1024,
        min_encoding_gain: Gain { numerator: 11, denominator: 10 },
        blacklisted_encoding_extensions: vec!["gz".to_string(), "png".to_string()],
    }
}

fn gzip() -> Encoding {
    Encoding { name: "gzip".to_string(), extension: Some("gz".to_string()) }
}

fn request(method: Method, encoding: Option<Encoding>) -> Request {
    Request {
        method,
        url: "http://localhost:8000/a.txt".to_string(),
        url_path: "a.txt".to_string(),
        segments: vec![],
        range: None,
        encoding,
        has_content_range: false,
        headers: vec![],
    }
}

fn server() -> Header {
    Header::Server("http/0.1".to_string())
}

const EMPTY_DIGEST: [u8; 32] = [
    0xBC, 0xA3, 0x8B, 0x24, 0xA8, 0x04, 0xAA, 0x37, 0xD8, 0x21, 0xD3, 0x1A, 0xF0, 0x0F, 0x55, 0x98, 0x23, 0x01,
    0x22, 0xC5, 0xBB, 0xFC, 0x4C, 0x4A, 0xD5, 0xED, 0x40, 0xE4, 0x25, 0x8F, 0x04, 0xCA,
];

const FOX_DIGEST: [u8; 32] = [
    0xE4, 0x55, 0x51, 0xAA, 0xE2, 0x66, 0xE1, 0x48, 0x2A, 0xC9, 0x8E, 0x24, 0x22, 0x9B, 0x3E, 0x90, 0xDC, 0x06,
    0x61, 0x77, 0xF8, 0xFB, 0x1A, 0x52, 0x6E, 0x9D, 0xA2, 0xCC, 0x95, 0x71, 0x97, 0xAA,
];

fn raw(path: &str, mime: &str) -> Response {
    Response {
        status: Status::Success,
        headers: vec![
            server(),
            Header::LastModified(path.to_string()),
            Header::AcceptRanges,
            Header::ContentType(mime.to_string()),
        ],
        body: Body::File(path.to_string()),
    }
}

fn encoded(path: &str, encoding: &str, mime: &str) -> Response {
    Response {
        status: Status::Success,
        headers: vec![
            server(),
            Header::ContentEncoding(encoding.to_string()),
            Header::AcceptRanges,
            Header::ContentType(mime.to_string()),
        ],
        body: Body::File(path.to_string()),
    }
}

fn identity_page(status: Status, text: &str) -> Response {
    Response {
        status,
        headers: vec![server(), Header::ContentType("text/html;charset=utf-8".to_string())],
        body: Body::Text(text.to_string()),
    }
}

fn encoded_page(status: Status, bytes: Vec<u8>) -> Response {
    Response {
        status,
        headers: vec![
            server(),
            Header::ContentEncoding("gzip".to_string()),
            Header::ContentType("text/html;charset=utf-8".to_string()),
        ],
        body: Body::Bytes(bytes),
    }
}

#[test]
fn page_without_encoding_is_sent_as_it_is() {
    let h = HttpHandler::new(&options());
    let req = request(Method::Get, None);
    assert_eq!(
        h.handle_generated_response_encoding(&req, Status::NotFound, "<html/>".to_string(), None),
        Step::Respond(identity_page(Status::NotFound, "<html/>"))
    );
}

#[test]
fn page_key_is_the_digest_of_the_text() {
    let h = HttpHandler::new(&options());
    let req = request(Method::Get, Some(gzip()));
    assert_eq!(
        h.handle_generated_response_encoding(&req, Status::Success, String::new(), None),
        Step::CompressText {
            key: CacheKey { digest: EMPTY_DIGEST, encoding: "gzip".to_string() },
            status: Status::Success,
            allow: None,
            text: String::new(),
        }
    );
    assert_eq!(
        h.handle_generated_response_encoding(
            &req,
            Status::NotFound,
            "The lazy fox jumps over the lazy dog".to_string(),
            None
        ),
        Step::CompressText {
            key: CacheKey { digest: FOX_DIGEST, encoding: "gzip".to_string() },
            status: Status::NotFound,
            allow: None,
            text: "The lazy fox jumps over the lazy dog".to_string(),
        }
    );
}

#[test]
fn stored_page_is_served_from_the_cache() {
    let mut h = HttpHandler::new(&options());
    let req = request(Method::Get, Some(gzip()));
    let text = "The lazy fox jumps over the lazy dog".to_string();
    let key = match h.handle_generated_response_encoding(&req, Status::NotFound, text.clone(), None) {
        Step::CompressText { key, .. } => key,
        other => panic!("unexpected {:?}", other),
    };
    let first = h.store_generated_response(&req, key.clone(), Status::NotFound, None, text.clone(), Some(vec![9, 8, 7]));
    assert_eq!(first, encoded_page(Status::NotFound, vec![9, 8, 7]));
    assert_eq!(h.cache_gen.get(&key), Some(&vec![9, 8, 7]));
    let second = h.handle_generated_response_encoding(&req, Status::NotFound, text.clone(), None);
    assert_eq!(second, Step::Respond(first.clone()));
    let third = h.handle_generated_response_encoding(&req, Status::NotFound, text.clone(), None);
    assert_eq!(third, Step::Respond(first));
}

#[test]
fn cache_is_keyed_by_text_and_encoding() {
    let mut h = HttpHandler::new(&options());
    let req = request(Method::Get, Some(gzip()));
    let text = "The lazy fox jumps over the lazy dog".to_string();
    let key = CacheKey { digest: FOX_DIGEST, encoding: "gzip".to_string() };
    h.store_generated_response(&req, key, Status::NotFound, None, text.clone(), Some(vec![9, 8, 7]));
    let other_text = h.handle_generated_response_encoding(&req, Status::NotFound, String::new(), None);
    assert!(matches!(other_text, Step::CompressText { .. }));
    let brotli = request(Method::Get, Some(Encoding { name: "br".to_string(), extension: None }));
    let other_encoding = h.handle_generated_response_encoding(&brotli, Status::NotFound, text, None);
    assert_eq!(
        other_encoding,
        Step::CompressText {
            key: CacheKey { digest: FOX_DIGEST, encoding: "br".to_string() },
            status: Status::NotFound,
            allow: None,
            text: "The lazy fox jumps over the lazy dog".to_string(),
        }
    );
}

#[test]
fn failed_page_compression_sends_the_text() {
    let mut h = HttpHandler::new(&options());
    let req = request(Method::Get, Some(gzip()));
    let key = CacheKey { digest: EMPTY_DIGEST, encoding: "gzip".to_string() };
    let r = h.store_generated_response(&req, key.clone(), Status::Forbidden, None, String::new(), None);
    assert_eq!(r, identity_page(Status::Forbidden, ""));
    assert!(h.cache_gen.get(&key).is_none());
}

#[test]
fn page_with_allow_keeps_it() {
    let mut h = HttpHandler::new(&options());
    let allow = Some(vec![Method::Get, Method::Head]);
    let plain = request(Method::Put, None);
    assert_eq!(
        h.handle_generated_response_encoding(&plain, Status::MethodNotAllowed, "x".to_string(), allow.clone()),
        Step::Respond(Response {
            status: Status::MethodNotAllowed,
            headers: vec![
                server(),
                Header::ContentType("text/html;charset=utf-8".to_string()),
                Header::Allow(vec![Method::Get, Method::Head]),
            ],
            body: Body::Text("x".to_string()),
        })
    );
    let req = request(Method::Put, Some(gzip()));
    let key = CacheKey { digest: EMPTY_DIGEST, encoding: "gzip".to_string() };
    assert_eq!(
        h.store_generated_response(&req, key, Status::MethodNotAllowed, allow, String::new(), Some(vec![1])),
        Response {
            status: Status::MethodNotAllowed,
            headers: vec![
                server(),
                Header::ContentEncoding("gzip".to_string()),
                Header::ContentType("text/html;charset=utf-8".to_string()),
                Header::Allow(vec![Method::Get, Method::Head]),
            ],
            body: Body::Bytes(vec![1]),
        }
    );
}

#[test]
fn head_of_page_has_no_body() {
    let mut h = HttpHandler::new(&options());
    let plain = request(Method::Head, None);
    let mut expected = identity_page(Status::NotFound, "");
    expected.body = Body::Empty;
    assert_eq!(
        h.handle_generated_response_encoding(&plain, Status::NotFound, "x".to_string(), None),
        Step::Respond(expected)
    );
    let req = request(Method::Head, Some(gzip()));
    let key = CacheKey { digest: EMPTY_DIGEST, encoding: "gzip".to_string() };
    let mut stored = encoded_page(Status::NotFound, vec![]);
    stored.body = Body::Empty;
    assert_eq!(
        h.store_generated_response(&req, key.clone(), Status::NotFound, None, String::new(), Some(vec![1])),
        stored
    );
    assert_eq!(h.cache_gen.get(&key), Some(&vec![1]));
}

#[test]
fn mime_type_is_guessed_or_told_by_content() {
    assert_eq!(mime_type_of("/srv/site/a.txt", true), "text/plain");
    assert_eq!(mime_type_of("/srv/site/a.PNG", false), "image/png");
    assert_eq!(mime_type_of("/srv/site/a.html", false), "text/html");
    assert_eq!(mime_type_of("/srv/site/a.unknownext", true), "application/octet-stream");
    assert_eq!(mime_type_of("/srv/site/a.unknownext", false), "text/plain");
    assert_eq!(mime_type_of("/srv/site/noext", true), "application/octet-stream");
    assert!(mime_is_guessed("/srv/site/a.txt"));
    assert!(!mime_is_guessed("/srv/site/a.unknownext"));
    assert!(!mime_is_guessed("/srv/site/noext"));
}

#[test]
fn blacklist_ignores_ascii_case() {
    let h = HttpHandler::new(&options());
    assert!(h.is_blacklisted("gz"));
    assert!(h.is_blacklisted("GZ"));
    assert!(h.is_blacklisted("Png"));
    assert!(!h.is_blacklisted("txt"));
    assert!(!h.is_blacklisted("g"));
    assert!(!h.is_blacklisted("gzz"));
    assert!(!h.is_blacklisted(""));
    let mut o = options();
    o.blacklisted_encoding_extensions = vec!["\u{e9}t\u{e9}".to_string()];
    let accented = HttpHandler::new(&o);
    assert!(accented.is_blacklisted("\u{e9}t\u{e9}"));
    assert!(accented.is_blacklisted("\u{e9}T\u{e9}"));
    assert!(!accented.is_blacklisted("\u{c9}t\u{e9}"));
}

#[test]
fn files_are_encodable_within_the_size_window() {
    let h = HttpHandler::new(&options());
    assert!(h.is_encodable("/srv/site/a.txt", 1024));
    assert!(h.is_encodable("/srv/site/a.txt", 1024 * 1024));
    assert!(h.is_encodable("/srv/site/noext", 5000));
    assert!(!h.is_encodable("/srv/site/a.txt", 1023));
    assert!(!h.is_encodable("/srv/site/a.txt", 1024 * 1024 + 1));
    assert!(!h.is_encodable("/srv/site/a.PNG", 5000));
    assert!(!h.is_encodable("/srv/site/a.tar.gz", 5000));
    let mut o = options();
    o.encode_fs = false;
    assert!(!HttpHandler::new(&o).is_encodable("/srv/site/a.txt", 5000));
}

#[test]
fn whole_file_is_sent_as_it_is_when_not_encodable() {
    let h = HttpHandler::new(&options());
    let info = FileInfo { len: 10, binary: false };
    assert_eq!(
        h.handle_get_file(&request(Method::Get, Some(gzip())), "/srv/site/a.txt", &info),
        Step::Respond(raw("/srv/site/a.txt", "text/plain"))
    );
    let big = FileInfo { len: 5000, binary: false };
    assert_eq!(
        h.handle_get_file(&request(Method::Get, None), "/srv/site/a.txt", &big),
        Step::Respond(raw("/srv/site/a.txt", "text/plain"))
    );
    assert_eq!(
        h.handle_get_file(&request(Method::Get, Some(gzip())), "/srv/site/a.png", &big),
        Step::Respond(raw("/srv/site/a.png", "image/png"))
    );
}

#[test]
fn encodable_file_asks_for_its_digest() {
    let h = HttpHandler::new(&options());
    let info = FileInfo { len: 5000, binary: false };
    assert_eq!(
        h.handle_get_file(&request(Method::Get, Some(gzip())), "/srv/site/a.txt", &info),
        Step::HashFile {
            temp_dir: "/tmp/http/encoded".to_string(),
            path: "/srv/site/a.txt".to_string(),
            mime: "text/plain".to_string(),
        }
    );
}

#[test]
fn unknown_file_is_to_be_compressed_into_its_artifact() {
    let h = HttpHandler::new(&options());
    let req = request(Method::Get, Some(gzip()));
    let hex = "BCA38B24A804AA37D821D31AF00F5598230122C5BBFC4C4AD5ED40E4258F04CA";
    assert_eq!(
        h.handle_get_file_encoded(&req, "/srv/site/a.txt", "text/plain", &EMPTY_DIGEST),
        Step::CompressFile {
            key: CacheKey { digest: EMPTY_DIGEST, encoding: "gzip".to_string() },
            source: "/srv/site/a.txt".to_string(),
            target: format!("/tmp/http/encoded/{}.txt.gz", hex),
            mime: "text/plain".to_string(),
        }
    );
    let target = |path: &str, encoding: Encoding| match h.handle_get_file_encoded(
        &request(Method::Get, Some(encoding)),
        path,
        "text/plain",
        &EMPTY_DIGEST,
    ) {
        Step::CompressFile { target, .. } => target,
        other => panic!("unexpected {:?}", other),
    };
    let nameless = Encoding { name: "br".to_string(), extension: None };
    assert_eq!(target("/srv/site/a.txt", nameless.clone()), format!("/tmp/http/encoded/{}.txt.br", hex));
    assert_eq!(target("/srv/site/noext", gzip()), format!("/tmp/http/encoded/{}.gz", hex));
    assert_eq!(target("/srv/site/noext", nameless), format!("/tmp/http/encoded/{}.br", hex));
}

#[test]
fn file_without_encoding_is_sent_as_it_is() {
    let h = HttpHandler::new(&options());
    assert_eq!(
        h.handle_get_file_encoded(&request(Method::Get, None), "/srv/site/a.txt", "text/plain", &EMPTY_DIGEST),
        Step::Respond(raw("/srv/site/a.txt", "text/plain"))
    );
}

#[test]
fn file_encoding_without_artifact_directory_cannot_be_done() {
    let mut o = options();
    o.encode_fs = false;
    let h = HttpHandler::new(&o);
    assert_eq!(
        h.handle_get_file_encoded(&request(Method::Get, Some(gzip())), "/srv/site/a.txt", "text/plain", &EMPTY_DIGEST),
        Step::Fault
    );
}

#[test]
fn worthwhile_artifact_is_cached_and_served_again() {
    let mut h = HttpHandler::new(&options());
    let req = request(Method::Get, Some(gzip()));
    let (key, source, target, mime) =
        match h.handle_get_file_encoded(&req, "/srv/site/a.txt", "text/plain", &FOX_DIGEST) {
            Step::CompressFile { key, source, target, mime } => (key, source, target, mime),
            other => panic!("unexpected {:?}", other),
        };
    let first = h.store_file_encoding(&req, key.clone(), source, target.clone(), &mime, Some((1100, 1000)));
    assert_eq!(first, Step::Respond(encoded(&target, "gzip", "text/plain")));
    assert_eq!(h.cache_fs.get(&key), Some(&(target.clone(), true)));
    let second = h.handle_get_file_encoded(&req, "/srv/site/a.txt", "text/plain", &FOX_DIGEST);
    assert_eq!(second, first);
    let third = h.handle_get_file_encoded(&req, "/srv/site/copy-of-a.txt", "text/plain", &FOX_DIGEST);
    assert_eq!(third, first);
    let other = h.handle_get_file_encoded(&req, "/srv/site/a.txt", "text/plain", &EMPTY_DIGEST);
    assert!(matches!(other, Step::CompressFile { .. }));
}

#[test]
fn worthless_artifact_is_discarded_and_not_tried_again() {
    let mut h = HttpHandler::new(&options());
    let req = request(Method::Get, Some(gzip()));
    let key = CacheKey { digest: FOX_DIGEST, encoding: "gzip".to_string() };
    let step = h.store_file_encoding(
        &req,
        key.clone(),
        "/srv/site/a.txt".to_string(),
        "/tmp/http/encoded/X.txt.gz".to_string(),
        "text/plain",
        Some((1099, 1000)),
    );
    assert_eq!(
        step,
        Step::Discard {
            artifact: "/tmp/http/encoded/X.txt.gz".to_string(),
            response: raw("/srv/site/a.txt", "text/plain"),
        }
    );
    assert_eq!(h.cache_fs.get(&key), Some(&("/srv/site/a.txt".to_string(), false)));
    assert_eq!(
        h.handle_get_file_encoded(&req, "/srv/site/a.txt", "text/plain", &FOX_DIGEST),
        Step::Respond(raw("/srv/site/a.txt", "text/plain"))
    );
}

#[test]
fn failed_file_compression_sends_the_file() {
    let mut h = HttpHandler::new(&options());
    let req = request(Method::Get, Some(gzip()));
    let key = CacheKey { digest: FOX_DIGEST, encoding: "gzip".to_string() };
    let step = h.store_file_encoding(
        &req,
        key.clone(),
        "/srv/site/a.txt".to_string(),
        "/tmp/http/encoded/X.txt.gz".to_string(),
        "text/plain",
        None,
    );
    assert_eq!(step, Step::Respond(raw("/srv/site/a.txt", "text/plain")));
    assert!(h.cache_fs.get(&key).is_none());
}

#[test]
fn head_of_encoded_file_has_no_body() {
    let mut h = HttpHandler::new(&options());
    let req = request(Method::Head, Some(gzip()));
    let key = CacheKey { digest: FOX_DIGEST, encoding: "gzip".to_string() };
    let mut expected = encoded("/tmp/http/encoded/X.txt.gz", "gzip", "text/plain");
    expected.body = Body::Empty;
    assert_eq!(
        h.store_file_encoding(
            &req,
            key,
            "/srv/site/a.txt".to_string(),
            "/tmp/http/encoded/X.txt.gz".to_string(),
            "text/plain",
            Some((2000, 1000)),
        ),
        Step::Respond(expected)
    );
}

#[test]
fn cache_keys_compare_by_digest_and_encoding() {
    let a = CacheKey { digest: FOX_DIGEST, encoding: "gzip".to_string() };
    let b = CacheKey { digest: FOX_DIGEST, encoding: "gzip".to_string() };
    let c = CacheKey { digest: EMPTY_DIGEST, encoding: "gzip".to_string() };
    let d = CacheKey { digest: FOX_DIGEST, encoding: "br".to_string() };
    assert!(a.same_as(&b));
    assert!(!a.same_as(&c));
    assert!(!a.same_as(&d));
    assert!(a.same_as(&a));
}
