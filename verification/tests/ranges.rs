use https::model::{Body, ByteRangeSpec, FileInfo, Header, Method, Page, PathState, Range, Request, Response, Step, Template};
use https::ops::{Gain, HttpHandler, Options};
use https::range::{write_range, RangeFault, RangeSpec};
use https::resolve::RequestPath;
use https::status::Status;

fn handler() -> HttpHandler {
    HttpHandler::new(&Options {
        hosted_directory: ("site".to_string(), "/srv/site".to_string()),
        follow_symlinks: false,
        check_indices: false,
        allow_writes: false,
        encode_fs: false,
        temp_directory: None,
        user_agent: "http/0.1".to_string(),
        index_extensions: vec![],
        min_encoding_size: 0,
        max_encoding_size: 0,
        min_encoding_gain: Gain { numerator: 1, denominator: 1 },
        blacklisted_encoding_extensions: vec![],
    })
}

fn request(method: Method, range: Option<Range>) -> Request {
    Request {
        method,
        url: "http://localhost:8000/a.bin".to_string(),
        url_path: "a.bin".to_string(),
        segments: vec![],
        range,
        encoding: None,
        has_content_range: false,
        headers: vec![],
    }
}

fn bytes(spec: ByteRangeSpec) -> Range {
    Range::Bytes(vec![spec])
}

fn info(len: u64) -> FileInfo {
    FileInfo { len, binary: true }
}

fn headers(first: u64, last: u64, len: u64, content_length: Option<u64>) -> Vec<Header> {
    let mut h = vec![
        Header::Server("http/0.1".to_string()),
        Header::LastModified("/srv/site/a.unknownext".to_string()),
        Header::ContentRange { first, last, instance_length: len },
    ];
    if let Some(n) = content_length {
        h.push(Header::ContentLength(n));
    }
    h.push(Header::AcceptRanges);
    h.push(Header::ContentType("application/octet-stream".to_string()));
    h
}

const PATH: &str = "/srv/site/a.unknownext";

#[test]
fn classify_closed_range() {
    assert_eq!(RangeSpec::classify(&bytes(ByteRangeSpec::FromTo(2, 5)), 10), RangeSpec::Closed(2, 5));
    assert_eq!(RangeSpec::classify(&bytes(ByteRangeSpec::FromTo(0, 0)), 10), RangeSpec::Closed(0, 0));
    assert_eq!(RangeSpec::classify(&bytes(ByteRangeSpec::FromTo(2, 50)), 10), RangeSpec::Closed(2, 50));
}

#[test]
fn classify_open_end() {
    assert_eq!(RangeSpec::classify(&bytes(ByteRangeSpec::AllFrom(0)), 10), RangeSpec::RightOpen(0));
    assert_eq!(RangeSpec::classify(&bytes(ByteRangeSpec::AllFrom(9)), 10), RangeSpec::RightOpen(9));
    assert_eq!(RangeSpec::classify(&bytes(ByteRangeSpec::AllFrom(10)), 10), RangeSpec::Empty(10, 10));
    assert_eq!(RangeSpec::classify(&bytes(ByteRangeSpec::AllFrom(11)), 10), RangeSpec::Empty(11, 10));
    assert_eq!(RangeSpec::classify(&bytes(ByteRangeSpec::AllFrom(0)), 0), RangeSpec::Empty(0, 0));
}

#[test]
fn classify_suffix() {
    assert_eq!(RangeSpec::classify(&bytes(ByteRangeSpec::Last(3)), 10), RangeSpec::LeftOpen(3));
    assert_eq!(RangeSpec::classify(&bytes(ByteRangeSpec::Last(10)), 10), RangeSpec::LeftOpen(10));
    assert_eq!(RangeSpec::classify(&bytes(ByteRangeSpec::Last(0)), 10), RangeSpec::LeftOpen(0));
    assert_eq!(RangeSpec::classify(&bytes(ByteRangeSpec::Last(11)), 10), RangeSpec::Empty(11, 10));
    assert_eq!(RangeSpec::classify(&bytes(ByteRangeSpec::Last(0)), 0), RangeSpec::Empty(0, 0));
    assert_eq!(RangeSpec::classify(&bytes(ByteRangeSpec::Last(1)), 0), RangeSpec::Empty(1, 0));
}

#[test]
fn classify_invalid() {
    let two = Range::Bytes(vec![ByteRangeSpec::FromTo(0, 1), ByteRangeSpec::FromTo(3, 4)]);
    assert_eq!(RangeSpec::classify(&two, 10), RangeSpec::Invalid(RangeFault::Multiple));
    assert_eq!(RangeSpec::classify(&Range::Bytes(vec![]), 10), RangeSpec::Invalid(RangeFault::Multiple));
    let custom = Range::Unregistered("lines".to_string(), "1-2".to_string());
    assert_eq!(RangeSpec::classify(&custom, 10), RangeSpec::Invalid(RangeFault::CustomUnit));
}

#[test]
fn range_fault_reasons() {
    assert_eq!(RangeFault::Multiple.write_reason(), "More than one range is unsupported.");
    assert_eq!(RangeFault::CustomUnit.write_reason(), "Custom ranges are unsupported.");
}

#[test]
fn range_is_written_as_in_a_header() {
    assert_eq!(write_range(&bytes(ByteRangeSpec::FromTo(0, 499))), "bytes=0-499");
    assert_eq!(write_range(&bytes(ByteRangeSpec::AllFrom(500))), "bytes=500-");
    assert_eq!(write_range(&bytes(ByteRangeSpec::Last(42))), "bytes=-42");
    assert_eq!(
        write_range(&Range::Bytes(vec![
            ByteRangeSpec::FromTo(0, 1),
            ByteRangeSpec::AllFrom(7),
            ByteRangeSpec::Last(3)
        ])),
        "bytes=0-1,7-,-3"
    );
    assert_eq!(write_range(&Range::Bytes(vec![])), "bytes=");
    assert_eq!(write_range(&Range::Unregistered("lines".to_string(), "1-2".to_string())), "lines=1-2");
}

#[test]
fn closed_range_is_partial_content() {
    let h = handler();
    let range = bytes(ByteRangeSpec::FromTo(2, 5));
    let req = request(Method::Get, Some(range.clone()));
    let expected = Step::Respond(Response {
        status: Status::PartialContent,
        headers: headers(2, 5, 10, Some(4)),
        body: Body::FileRange { path: PATH.to_string(), first: 2, last: 5 },
    });
    assert_eq!(h.handle_get_file_range(&req, PATH, &range, &info(10)), expected);
    assert_eq!(h.handle_get_file_closed_range(&req, PATH, 2, 5, &info(10)), expected);
    if let Step::Respond(r) = expected {
        assert_eq!(r.status.code(), 206);
        if let Body::FileRange { first, last, .. } = r.body {
            assert_eq!(last - first + 1, 4);
        }
    }
}

#[test]
fn closed_range_through_get() {
    let h = handler();
    let range = bytes(ByteRangeSpec::FromTo(0, 0));
    let req = request(Method::Get, Some(range));
    let resolved = RequestPath { path: PATH.to_string(), followed_symlink: false, decode_error: false };
    let state = PathState { exists: true, is_dir: false, file: Some(info(1)), file_as_dir: false, indices: vec![] };
    assert_eq!(
        h.handle_get(&req, &resolved, &state),
        Step::Respond(Response {
            status: Status::PartialContent,
            headers: headers(0, 0, 1, Some(1)),
            body: Body::FileRange { path: PATH.to_string(), first: 0, last: 0 },
        })
    );
}

#[test]
fn head_of_range_has_no_body() {
    let h = handler();
    let range = bytes(ByteRangeSpec::FromTo(2, 5));
    let req = request(Method::Head, Some(range.clone()));
    assert_eq!(
        h.handle_get_file_range(&req, PATH, &range, &info(10)),
        Step::Respond(Response {
            status: Status::PartialContent,
            headers: headers(2, 5, 10, Some(4)),
            body: Body::Empty,
        })
    );
}

#[test]
fn open_ended_range_runs_to_the_end() {
    let h = handler();
    let range = bytes(ByteRangeSpec::AllFrom(4));
    let req = request(Method::Get, Some(range.clone()));
    let expected = Step::Respond(Response {
        status: Status::PartialContent,
        headers: headers(4, 9, 10, Some(6)),
        body: Body::FileFrom { path: PATH.to_string(), offset: 4 },
    });
    assert_eq!(h.handle_get_file_range(&req, PATH, &range, &info(10)), expected);
    assert_eq!(h.handle_get_file_right_opened_range(&req, PATH, 4, &info(10)), expected);
}

#[test]
fn suffix_range_serves_the_last_bytes() {
    let h = handler();
    let range = bytes(ByteRangeSpec::Last(3));
    let req = request(Method::Get, Some(range.clone()));
    let expected = Step::Respond(Response {
        status: Status::PartialContent,
        headers: headers(7, 9, 10, Some(3)),
        body: Body::FileFrom { path: PATH.to_string(), offset: 7 },
    });
    assert_eq!(h.handle_get_file_range(&req, PATH, &range, &info(10)), expected);
    assert_eq!(h.handle_get_file_left_opened_range(&req, PATH, 3, &info(10)), expected);
    let whole = bytes(ByteRangeSpec::Last(10));
    assert_eq!(
        h.handle_get_file_range(&req, PATH, &whole, &info(10)),
        Step::Respond(Response {
            status: Status::PartialContent,
            headers: headers(0, 9, 10, Some(10)),
            body: Body::FileFrom { path: PATH.to_string(), offset: 0 },
        })
    );
}

#[test]
fn opened_range_takes_its_parts_as_given() {
    let h = handler();
    let req = request(Method::Get, None);
    assert_eq!(
        h.handle_get_file_opened_range(&req, PATH, 7, 7, 3, "text/x-thing".to_string(), 10),
        Step::Respond(Response {
            status: Status::PartialContent,
            headers: vec![
                Header::Server("http/0.1".to_string()),
                Header::LastModified(PATH.to_string()),
                Header::ContentRange { first: 7, last: 9, instance_length: 10 },
                Header::ContentLength(3),
                Header::AcceptRanges,
                Header::ContentType("text/x-thing".to_string()),
            ],
            body: Body::FileFrom { path: PATH.to_string(), offset: 7 },
        })
    );
}

#[test]
fn range_past_the_end_is_empty() {
    let h = handler();
    let req = request(Method::Get, None);
    let expected = |from: u64| {
        Step::Respond(Response { status: Status::NoContent, headers: headers(from, 10, 10, None), body: Body::Empty })
    };
    assert_eq!(h.handle_get_file_range(&req, PATH, &bytes(ByteRangeSpec::AllFrom(11)), &info(10)), expected(11));
    assert_eq!(h.handle_get_file_range(&req, PATH, &bytes(ByteRangeSpec::Last(11)), &info(10)), expected(11));
    assert_eq!(h.handle_get_file_range(&req, PATH, &bytes(ByteRangeSpec::AllFrom(10)), &info(10)), expected(10));
    assert_eq!(
        h.handle_get_file_range(&req, PATH, &bytes(ByteRangeSpec::AllFrom(u64::MAX)), &info(10)),
        expected(u64::MAX)
    );
    assert_eq!(h.handle_get_file_empty_range(&req, PATH, 11, 10, &info(10)), expected(11));
    if let Step::Respond(r) = expected(11) {
        assert_eq!(r.status.code(), 204);
    }
}

#[test]
fn range_of_an_empty_file_is_empty() {
    let h = handler();
    let req = request(Method::Get, None);
    assert_eq!(
        h.handle_get_file_range(&req, PATH, &bytes(ByteRangeSpec::Last(0)), &info(0)),
        Step::Respond(Response { status: Status::NoContent, headers: headers(0, 0, 0, None), body: Body::Empty })
    );
    assert_eq!(
        h.handle_get_file_range(&req, PATH, &bytes(ByteRangeSpec::AllFrom(0)), &info(0)),
        Step::Respond(Response { status: Status::NoContent, headers: headers(0, 0, 0, None), body: Body::Empty })
    );
}

#[test]
fn multiple_ranges_are_not_satisfiable() {
    let h = handler();
    let range = Range::Bytes(vec![ByteRangeSpec::FromTo(0, 1), ByteRangeSpec::Last(2)]);
    let req = request(Method::Get, Some(range.clone()));
    assert_eq!(
        h.handle_get_file_range(&req, PATH, &range, &info(10)),
        Step::Render(Page {
            status: Status::RangeNotSatisfiable,
            template: Template::Error,
            fields: vec![
                "416 Range Not Satisfiable".to_string(),
                "Requested range <samp>bytes=0-1,-2</samp> could not be fullfilled for file /srv/site/a.unknownext."
                    .to_string(),
                "More than one range is unsupported.".to_string(),
            ],
            allow: None,
        })
    );
}

#[test]
fn custom_ranges_are_not_satisfiable() {
    let h = handler();
    let range = Range::Unregistered("lines".to_string(), "1-2".to_string());
    let req = request(Method::Get, Some(range.clone()));
    assert_eq!(
        h.handle_get_file_range(&req, PATH, &range, &info(10)),
        Step::Render(Page {
            status: Status::RangeNotSatisfiable,
            template: Template::Error,
            fields: vec![
                "416 Range Not Satisfiable".to_string(),
                "Requested range <samp>lines=1-2</samp> could not be fullfilled for file /srv/site/a.unknownext."
                    .to_string(),
                "Custom ranges are unsupported.".to_string(),
            ],
            allow: None,
        })
    );
    assert_eq!(
        h.handle_invalid_range(&req, "/f", &range, "Because."),
        Step::Render(Page {
            status: Status::RangeNotSatisfiable,
            template: Template::Error,
            fields: vec![
                "416 Range Not Satisfiable".to_string(),
                "Requested range <samp>lines=1-2</samp> could not be fullfilled for file /f.".to_string(),
                "Because.".to_string(),
            ],
            allow: None,
        })
    );
}

#[test]
fn range_on_text_file_uses_the_guessed_type() {
    let h = handler();
    let req = request(Method::Get, None);
    match h.handle_get_file_closed_range(&req, "/srv/site/page.html", 0, 1, &FileInfo { len: 5, binary: true }) {
        Step::Respond(r) => assert_eq!(r.headers[5], Header::ContentType("text/html".to_string())),
        other => panic!("unexpected {:?}", other),
    }
    match h.handle_get_file_closed_range(&req, "/srv/site/noext", 0, 1, &FileInfo { len: 5, binary: false }) {
        Step::Respond(r) => assert_eq!(r.headers[5], Header::ContentType("text/plain".to_string())),
        other => panic!("unexpected {:?}", other),
    }
}

#[test]
fn closed_range_of_all_bytes_there_can_be_has_no_length() {
    let h = handler();
    let req = request(Method::Get, None);
    assert_eq!(
        h.handle_get_file_closed_range(&req, PATH, 0, u64::MAX, &info(10)),
        Step::Respond(Response {
            status: Status::PartialContent,
            headers: headers(0, u64::MAX, 10, None),
            body: Body::FileRange { path: PATH.to_string(), first: 0, last: u64::MAX },
        })
    );
    assert_eq!(
        h.handle_get_file_closed_range(&req, PATH, 1, u64::MAX, &info(10)),
        Step::Respond(Response {
            status: Status::PartialContent,
            headers: headers(1, u64::MAX, 10, Some(u64::MAX)),
            body: Body::FileRange { path: PATH.to_string(), first: 1, last: u64::MAX },
        })
    );
}
