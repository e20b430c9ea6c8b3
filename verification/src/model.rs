//! The plain values the handlers work on: what a request asks, what is known
//! of the file system, and what is answered.
//!
//! A value that holds text or a list has a view, written `@`, that says what
//! it holds as sequences; the contracts of the handlers are stated over those.

use crate::status::Status;
use vstd::prelude::*;

verus! {

/// A request method.
#[derive(Clone, Debug, PartialEq, Eq)]
pub enum Method {
    Options,
    Get,
    Post,
    Put,
    Delete,
    Head,
    Trace,
    Connect,
    Patch,
    /// Any other method, by its name.
    Extension(String),
}

/// What a `Method` holds.
pub enum MethodView {
    Options,
    Get,
    Post,
    Put,
    Delete,
    Head,
    Trace,
    Connect,
    Patch,
    Extension(Seq<char>),
}

impl View for Method {
    type V = MethodView;

    open spec fn view(&self) -> MethodView {
        match self {
            Method::Options => MethodView::Options,
            Method::Get => MethodView::Get,
            Method::Post => MethodView::Post,
            Method::Put => MethodView::Put,
            Method::Delete => MethodView::Delete,
            Method::Head => MethodView::Head,
            Method::Trace => MethodView::Trace,
            Method::Connect => MethodView::Connect,
            Method::Patch => MethodView::Patch,
            Method::Extension(s) => MethodView::Extension(s@),
        }
    }
}

impl DeepView for Method {
    type V = MethodView;

    open spec fn deep_view(&self) -> MethodView {
        self@
    }
}

impl MethodView {
    /// The method's name as it is written in a request.
    pub open spec fn name(self) -> Seq<char> {
        match self {
            MethodView::Options => "OPTIONS"@,
            MethodView::Get => "GET"@,
            MethodView::Post => "POST"@,
            MethodView::Put => "PUT"@,
            MethodView::Delete => "DELETE"@,
            MethodView::Head => "HEAD"@,
            MethodView::Trace => "TRACE"@,
            MethodView::Connect => "CONNECT"@,
            MethodView::Patch => "PATCH"@,
            MethodView::Extension(s) => s,
        }
    }
}

impl Method {
    /// The method's name as it is written in a request.
    pub fn name(&self) -> (s: String)
        ensures
            s@ == self@.name(),
    {
        match self {
            Method::Options => "OPTIONS".to_owned(),
            Method::Get => "GET".to_owned(),
            Method::Post => "POST".to_owned(),
            Method::Put => "PUT".to_owned(),
            Method::Delete => "DELETE".to_owned(),
            Method::Head => "HEAD".to_owned(),
            Method::Trace => "TRACE".to_owned(),
            Method::Connect => "CONNECT".to_owned(),
            Method::Patch => "PATCH".to_owned(),
            Method::Extension(s) => s.clone(),
        }
    }
}

/// One range of a `Range` header in bytes.
#[derive(Clone, Copy, Debug, PartialEq, Eq, Structural)]
pub enum ByteRangeSpec {
    /// `first-last`, both inclusive.
    FromTo(u64, u64),
    /// `first-`: everything from `first` on.
    AllFrom(u64),
    /// `-count`: the last `count` bytes.
    Last(u64),
}

/// A parsed `Range` header.
#[derive(Clone, Debug, PartialEq, Eq)]
pub enum Range {
    /// Ranges in bytes.
    Bytes(Vec<ByteRangeSpec>),
    /// Ranges in another unit: the unit and what was asked of it.
    Unregistered(String, String),
}

/// The content encoding that was negotiated for a response.
#[derive(Clone, Debug, PartialEq, Eq)]
pub struct Encoding {
    /// The encoding's name as sent in `Content-Encoding`.
    pub name: String,
    /// The file extension that artifacts in this encoding carry, if it has one.
    pub extension: Option<String>,
}

/// What an `Encoding` holds.
pub struct EncodingView {
    pub name: Seq<char>,
    pub extension: Option<Seq<char>>,
}

impl View for Encoding {
    type V = EncodingView;

    open spec fn view(&self) -> EncodingView {
        EncodingView { name: self.name@, extension: self.extension.deep_view() }
    }
}

impl DeepView for Encoding {
    type V = EncodingView;

    open spec fn deep_view(&self) -> EncodingView {
        self@
    }
}

/// One segment of a request's path.
#[derive(Clone, Debug, PartialEq, Eq)]
pub struct Segment {
    /// The segment as it stands in the URL, percent-encoded.
    pub raw: String,
    /// The segment percent-decoded, where that gives valid UTF-8.
    pub decoded: Option<String>,
}

/// What a request asks.
#[derive(Clone, Debug, PartialEq, Eq)]
pub struct Request {
    pub method: Method,
    /// The request's URL in full.
    pub url: String,
    /// The URL's path, decoded, for display.
    pub url_path: String,
    /// The URL's path, segment by segment.
    pub segments: Vec<Segment>,
    /// The `Range` header, if one was sent.
    pub range: Option<Range>,
    /// The encoding negotiated from `Accept-Encoding`, if any.
    pub encoding: Option<Encoding>,
    /// Whether a `Content-Range` header was sent.
    pub has_content_range: bool,
    /// Every header that was sent, by name and value.
    pub headers: Vec<(String, String)>,
}

impl Request {
    /// Whether the URL's path ends in a separator.
    pub open spec fn spec_ends_in_separator(&self) -> bool {
        self.segments@.len() > 0 && self.segments@.last().raw@.len() == 0
    }

    /// Whether the URL's path ends in a separator.
    pub fn ends_in_separator(&self) -> (b: bool)
        ensures
            b == self.spec_ends_in_separator(),
    {
        self.segments.len() > 0 && self.segments[self.segments.len() - 1].raw.as_str().unicode_len() == 0
    }

    /// Whether the URL names the root of the hosted directory.
    pub open spec fn spec_is_root(&self) -> bool {
        self.segments@.len() == 1 && self.segments@[0].raw@.len() == 0
    }

    /// Whether the URL names the root of the hosted directory.
    pub fn is_root(&self) -> (b: bool)
        ensures
            b == self.spec_is_root(),
    {
        self.segments.len() == 1 && self.segments[0].raw.as_str().unicode_len() == 0
    }

    /// Whether the request is a `HEAD` request.
    pub open spec fn spec_is_head(&self) -> bool {
        self.method is Head
    }

    /// Whether the request is a `HEAD` request.
    pub fn is_head(&self) -> (b: bool)
        ensures
            b == self.spec_is_head(),
    {
        match self.method {
            Method::Head => true,
            _ => false,
        }
    }
}

/// What is known of a file.
#[derive(Clone, Copy, Debug, PartialEq, Eq, Structural)]
pub struct FileInfo {
    /// Its length in bytes.
    pub len: u64,
    /// Whether its content looks binary rather than textual.
    pub binary: bool,
}

/// What is known of the path a request resolved to.
#[derive(Clone, Debug, PartialEq, Eq)]
pub struct PathState {
    /// Whether anything exists at the path.
    pub exists: bool,
    /// Whether a directory is there.
    pub is_dir: bool,
    /// The file that is there, if it is one.
    pub file: Option<FileInfo>,
    /// Whether an ancestor of the path is a file.
    pub file_as_dir: bool,
    /// For each index candidate of the path, in order, the file found there.
    pub indices: Vec<Option<FileInfo>>,
}

/// A calendar time, field by field as the operating system breaks it down.
#[derive(Clone, Copy, Debug, PartialEq, Eq, Structural)]
pub struct FileTime {
    /// Seconds after the minute.
    pub sec: i32,
    /// Minutes after the hour.
    pub min: i32,
    /// Hours after midnight.
    pub hour: i32,
    /// Day of the month, from 1.
    pub mday: i32,
    /// Months since January.
    pub mon: i32,
    /// Years since 1900.
    pub year: i32,
    /// Days since Sunday.
    pub wday: i32,
    /// Days since the first of January.
    pub yday: i32,
    /// Whether daylight saving time is in effect: positive, zero, or negative
    /// where that is not known.
    pub isdst: i32,
    /// Seconds east of UTC.
    pub utcoff: i32,
    /// Nanoseconds after the second.
    pub nsec: i32,
}

impl FileTime {
    /// Whether the time can be written out: its month and day of the week are
    /// in range, and its year can be counted from the year 0.
    pub open spec fn is_valid(&self) -> bool {
        &&& 0 <= self.wday <= 6
        &&& 0 <= self.mon <= 11
        &&& self.year + 1900 <= i32::MAX
    }
}

/// A header of a response.
#[derive(Clone, Debug, PartialEq, Eq)]
pub enum Header {
    Server(String),
    Allow(Vec<Method>),
    /// `Last-Modified`, with the modification time of the file at this path.
    LastModified(String),
    /// `Content-Range` in bytes: the span served and the length of the whole.
    ContentRange { first: u64, last: u64, instance_length: u64 },
    ContentEncoding(String),
    ContentLength(u64),
    /// `Accept-Ranges: bytes`.
    AcceptRanges,
    Location(String),
    ContentType(String),
    /// Any other header, by name and value.
    Raw(String, String),
}

/// What a `Header` holds.
pub enum HeaderView {
    Server(Seq<char>),
    Allow(Seq<MethodView>),
    LastModified(Seq<char>),
    ContentRange { first: u64, last: u64, instance_length: u64 },
    ContentEncoding(Seq<char>),
    ContentLength(u64),
    AcceptRanges,
    Location(Seq<char>),
    ContentType(Seq<char>),
    Raw(Seq<char>, Seq<char>),
}

impl View for Header {
    type V = HeaderView;

    open spec fn view(&self) -> HeaderView {
        match self {
            Header::Server(s) => HeaderView::Server(s@),
            Header::Allow(m) => HeaderView::Allow(m.deep_view()),
            Header::LastModified(p) => HeaderView::LastModified(p@),
            Header::ContentRange { first, last, instance_length } => HeaderView::ContentRange {
                first: *first,
                last: *last,
                instance_length: *instance_length,
            },
            Header::ContentEncoding(e) => HeaderView::ContentEncoding(e@),
            Header::ContentLength(n) => HeaderView::ContentLength(*n),
            Header::AcceptRanges => HeaderView::AcceptRanges,
            Header::Location(l) => HeaderView::Location(l@),
            Header::ContentType(t) => HeaderView::ContentType(t@),
            Header::Raw(n, v) => HeaderView::Raw(n@, v@),
        }
    }
}

impl DeepView for Header {
    type V = HeaderView;

    open spec fn deep_view(&self) -> HeaderView {
        self@
    }
}

/// The body of a response.
#[derive(Clone, Debug, PartialEq, Eq)]
pub enum Body {
    /// No body.
    Empty,
    /// This text.
    Text(String),
    /// These bytes.
    Bytes(Vec<u8>),
    /// The whole file at this path.
    File(String),
    /// The file at `path` from byte `offset` to its end.
    FileFrom { path: String, offset: u64 },
    /// Bytes `first` to `last`, both inclusive, of the file at `path`.
    FileRange { path: String, first: u64, last: u64 },
}

/// What a `Body` holds.
pub enum BodyView {
    Empty,
    Text(Seq<char>),
    Bytes(Seq<u8>),
    File(Seq<char>),
    FileFrom { path: Seq<char>, offset: u64 },
    FileRange { path: Seq<char>, first: u64, last: u64 },
}

impl View for Body {
    type V = BodyView;

    open spec fn view(&self) -> BodyView {
        match self {
            Body::Empty => BodyView::Empty,
            Body::Text(t) => BodyView::Text(t@),
            Body::Bytes(b) => BodyView::Bytes(b@),
            Body::File(p) => BodyView::File(p@),
            Body::FileFrom { path, offset } => BodyView::FileFrom { path: path@, offset: *offset },
            Body::FileRange { path, first, last } => BodyView::FileRange {
                path: path@,
                first: *first,
                last: *last,
            },
        }
    }
}

impl DeepView for Body {
    type V = BodyView;

    open spec fn deep_view(&self) -> BodyView {
        self@
    }
}

impl BodyView {
    /// The bytes that a body taken from a file sends, given what the file
    /// holds. A range that reaches past the end of the file is filled up with
    /// zero bytes.
    pub open spec fn bytes_from(self, content: Seq<u8>) -> Seq<u8> {
        match self {
            BodyView::Empty => Seq::empty(),
            BodyView::Text(t) => vstd::utf8::encode_utf8(t),
            BodyView::Bytes(b) => b,
            BodyView::File(_) => content,
            BodyView::FileFrom { path, offset } => if offset <= content.len() {
                content.subrange(offset as int, content.len() as int)
            } else {
                Seq::empty()
            },
            BodyView::FileRange { path, first, last } => if first <= last {
                Seq::new(
                    (last - first + 1) as nat,
                    |i: int|
                        if first + i < content.len() {
                            content[first + i]
                        } else {
                            0u8
                        },
                )
            } else {
                Seq::empty()
            },
        }
    }
}

/// A response.
#[derive(Clone, Debug, PartialEq, Eq)]
pub struct Response {
    pub status: Status,
    pub headers: Vec<Header>,
    pub body: Body,
}

/// What a `Response` holds.
pub struct ResponseView {
    pub status: Status,
    pub headers: Seq<HeaderView>,
    pub body: BodyView,
}

impl View for Response {
    type V = ResponseView;

    open spec fn view(&self) -> ResponseView {
        ResponseView { status: self.status, headers: self.headers.deep_view(), body: self.body@ }
    }
}

impl DeepView for Response {
    type V = ResponseView;

    open spec fn deep_view(&self) -> ResponseView {
        self@
    }
}

impl ResponseView {
    /// The response as a `HEAD` request gets it: the same without its body.
    pub open spec fn without_body(self) -> ResponseView {
        ResponseView { status: self.status, headers: self.headers, body: BodyView::Empty }
    }

    /// The response as a request gets it: whole, or without its body where
    /// the request is a `HEAD` request.
    pub open spec fn for_request(self, head: bool) -> ResponseView {
        if head {
            self.without_body()
        } else {
            self
        }
    }
}

impl Response {
    /// The response as the request gets it: whole, or without its body where
    /// the request is a `HEAD` request.
    pub fn for_request(self, req: &Request) -> (r: Response)
        ensures
            r@ == self@.for_request(req.spec_is_head()),
    {
        if req.is_head() {
            Response { status: self.status, headers: self.headers, body: Body::Empty }
        } else {
            self
        }
    }
}

/// The page templates.
#[derive(Clone, Copy, Debug, PartialEq, Eq, Structural)]
pub enum Template {
    /// The error page: its fields are a title, a summary and a detail.
    Error,
    /// The directory listing: its fields are the directory's path, an upload
    /// script, the row for the parent directory and the rows of the entries.
    DirectoryListing,
}

/// A page to be rendered from a template and sent with a status.
#[derive(Clone, Debug, PartialEq, Eq)]
pub struct Page {
    pub status: Status,
    pub template: Template,
    /// What fills the template's fields, in order.
    pub fields: Vec<String>,
    /// The methods to list in an `Allow` header, if the response is to have one.
    pub allow: Option<Vec<Method>>,
}

/// What a `Page` holds.
pub struct PageView {
    pub status: Status,
    pub template: Template,
    pub fields: Seq<Seq<char>>,
    pub allow: Option<Seq<MethodView>>,
}

impl View for Page {
    type V = PageView;

    open spec fn view(&self) -> PageView {
        PageView {
            status: self.status,
            template: self.template,
            fields: self.fields.deep_view(),
            allow: self.allow.deep_view(),
        }
    }
}

impl DeepView for Page {
    type V = PageView;

    open spec fn deep_view(&self) -> PageView {
        self@
    }
}

/// The key of a cache entry: the digest of some content and the name of an
/// encoding.
#[derive(Clone, Debug, PartialEq, Eq)]
pub struct CacheKey {
    pub digest: [u8; 32],
    pub encoding: String,
}

/// What a `CacheKey` holds.
pub struct CacheKeyView {
    pub digest: Seq<u8>,
    pub encoding: Seq<char>,
}

impl View for CacheKey {
    type V = CacheKeyView;

    open spec fn view(&self) -> CacheKeyView {
        CacheKeyView { digest: self.digest@, encoding: self.encoding@ }
    }
}

impl DeepView for CacheKey {
    type V = CacheKeyView;

    open spec fn deep_view(&self) -> CacheKeyView {
        self@
    }
}

impl CacheKey {
    /// Whether two keys name the same content in the same encoding.
    pub fn same_as(&self, other: &CacheKey) -> (b: bool)
        ensures
            b == (self@ == other@),
    {
        let mut i: usize = 0;
        while i < 32
            invariant
                i <= 32,
                forall|k: int| 0 <= k < i ==> self.digest@[k] == other.digest@[k],
            decreases 32 - i,
        {
            if self.digest[i] != other.digest[i] {
                return false;
            }
            i += 1;
        }
        assert(self.digest@ =~= other.digest@);
        self.encoding == other.encoding
    }
}

/// What the caller of a handler is to do next.
///
/// The handlers decide; they read no file and send nothing. Where a decision
/// needs something from the file system, or something only a collaborator can
/// compute, the handler returns the step that names it, and the caller comes
/// back with the result to the handler that the step names.
#[derive(Clone, Debug, PartialEq, Eq)]
pub enum Step {
    /// Send this response: the request is answered.
    Respond(Response),
    /// Render this page, then hand the text to
    /// `handle_generated_response_encoding`.
    Render(Page),
    /// Compress `text` in the encoding of `key`, then hand what came of it to
    /// `store_generated_response`.
    CompressText { key: CacheKey, status: Status, allow: Option<Vec<Method>>, text: String },
    /// Resolve the request's path and look at what is there, then hand both to
    /// `handle_resolved`.
    Resolve,
    /// Make sure `temp_dir` exists and compute the digest of the file at
    /// `path`, then hand it to `handle_get_file_encoded`.
    HashFile { temp_dir: String, path: String, mime: String },
    /// Compress the file at `source` into `target` in the encoding of `key`,
    /// then hand what came of it to `store_file_encoding`.
    CompressFile { key: CacheKey, source: String, target: String, mime: String },
    /// Delete the file at `artifact`, then send `response`.
    Discard { artifact: String, response: Response },
    /// List the directory at `dir`, then hand its entries to
    /// `handle_get_dir_listing`.
    ReadDir { dir: String },
    /// Make sure `temp_dir` exists, write the request's body to `staging`,
    /// copy that file to `destination`, creating the directories above it,
    /// then send `response`.
    Store { temp_dir: String, staging: String, destination: String, response: Response },
    /// Delete what is at `path`, a whole directory where `recursive`, then
    /// send `response`.
    Remove { path: String, recursive: bool, response: Response },
    /// Nothing can be done for this request.
    Fault,
}

/// What a `Step` holds.
pub enum StepView {
    Respond(ResponseView),
    Render(PageView),
    CompressText { key: CacheKeyView, status: Status, allow: Option<Seq<MethodView>>, text: Seq<char> },
    Resolve,
    HashFile { temp_dir: Seq<char>, path: Seq<char>, mime: Seq<char> },
    CompressFile { key: CacheKeyView, source: Seq<char>, target: Seq<char>, mime: Seq<char> },
    Discard { artifact: Seq<char>, response: ResponseView },
    ReadDir { dir: Seq<char> },
    Store { temp_dir: Seq<char>, staging: Seq<char>, destination: Seq<char>, response: ResponseView },
    Remove { path: Seq<char>, recursive: bool, response: ResponseView },
    Fault,
}

impl View for Step {
    type V = StepView;

    open spec fn view(&self) -> StepView {
        match self {
            Step::Respond(r) => StepView::Respond(r@),
            Step::Render(p) => StepView::Render(p@),
            Step::CompressText { key, status, allow, text } => StepView::CompressText {
                key: key@,
                status: *status,
                allow: allow.deep_view(),
                text: text@,
            },
            Step::Resolve => StepView::Resolve,
            Step::HashFile { temp_dir, path, mime } => StepView::HashFile {
                temp_dir: temp_dir@,
                path: path@,
                mime: mime@,
            },
            Step::CompressFile { key, source, target, mime } => StepView::CompressFile {
                key: key@,
                source: source@,
                target: target@,
                mime: mime@,
            },
            Step::Discard { artifact, response } => StepView::Discard {
                artifact: artifact@,
                response: response@,
            },
            Step::ReadDir { dir } => StepView::ReadDir { dir: dir@ },
            Step::Store { temp_dir, staging, destination, response } => StepView::Store {
                temp_dir: temp_dir@,
                staging: staging@,
                destination: destination@,
                response: response@,
            },
            Step::Remove { path, recursive, response } => StepView::Remove {
                path: path@,
                recursive: *recursive,
                response: response@,
            },
            Step::Fault => StepView::Fault,
        }
    }
}

impl DeepView for Step {
    type V = StepView;

    open spec fn deep_view(&self) -> StepView {
        self@
    }
}

} // verus!
