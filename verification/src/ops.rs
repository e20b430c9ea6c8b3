//! The handler: what it is configured with, and how it routes a request by
//! its method.

use crate::cache::Cache;
use crate::model::{
    Body, BodyView, CacheKeyView, Header, HeaderView, Method, MethodView, PathState, Request, Response,
    ResponseView, Step, StepView,
};
use crate::outside::{joined_path, path_join, unicase_eq, eq_ignore_ascii_case};
use crate::resolve::{RequestPath, RequestPathView};
use crate::status::Status;
use crate::text::{chars_of, ends_with, ends_with_char};
pub use crate::ports::try_ports;
use vstd::prelude::*;

verus! {

/// How much smaller encoding must make a file to be worth keeping: the size
/// of the file divided by the size of what it was encoded into must reach
/// `numerator / denominator`.
#[derive(Clone, Copy, Debug, PartialEq, Eq, Structural)]
pub struct Gain {
    pub numerator: u64,
    pub denominator: u64,
}

impl Gain {
    /// Whether encoding `plain` bytes into `encoded` bytes reaches the gain.
    pub open spec fn spec_reached(&self, plain: u64, encoded: u64) -> bool {
        plain * self.denominator >= self.numerator * encoded
    }

    /// Whether encoding `plain` bytes into `encoded` bytes reaches the gain.
    pub fn reached(&self, plain: u64, encoded: u64) -> (b: bool)
        ensures
            b == self.spec_reached(plain, encoded),
    {
        assert(plain * self.denominator <= 0xffff_ffff_ffff_ffff * 0xffff_ffff_ffff_ffff)
            by (nonlinear_arith)
            requires
                plain <= 0xffff_ffff_ffff_ffff,
                self.denominator <= 0xffff_ffff_ffff_ffff,
        ;
        assert(self.numerator * encoded <= 0xffff_ffff_ffff_ffff * 0xffff_ffff_ffff_ffff)
            by (nonlinear_arith)
            requires
                encoded <= 0xffff_ffff_ffff_ffff,
                self.numerator <= 0xffff_ffff_ffff_ffff,
        ;
        let left: u128 = (plain as u128) * (self.denominator as u128);
        let right: u128 = (self.numerator as u128) * (encoded as u128);
        left >= right
    }
}

/// What a server is set up with.
#[derive(Debug, PartialEq, Eq)]
pub struct Options {
    /// The hosted directory: the name it is shown under and its path.
    pub hosted_directory: (String, String),
    /// Whether requests may pass through symbolic links.
    pub follow_symlinks: bool,
    /// Whether a directory is answered with its index file where it has one.
    pub check_indices: bool,
    /// Whether files may be written and deleted.
    pub allow_writes: bool,
    /// Whether files are served encoded.
    pub encode_fs: bool,
    /// The directory for temporary files: its name and its path.
    pub temp_directory: Option<(String, String)>,
    /// What the server calls itself in the `Server` header.
    pub user_agent: String,
    /// The extensions under which an index file is looked for, in order.
    pub index_extensions: Vec<String>,
    /// The smallest file, in bytes, that is served encoded.
    pub min_encoding_size: u64,
    /// The largest file, in bytes, that is served encoded.
    pub max_encoding_size: u64,
    /// The gain below which an encoded file is not kept.
    pub min_encoding_gain: Gain,
    /// The extensions of files that are never served encoded.
    pub blacklisted_encoding_extensions: Vec<String>,
}

/// Why the server could not be started.
#[derive(Clone, Copy, Debug, PartialEq, Eq)]
pub enum Error {
    /// An operation on something failed.
    Io { desc: &'static str, op: &'static str, more: Option<&'static str> },
}

/// Serves one hosted directory.
#[derive(Debug)]
pub struct HttpHandler {
    /// The hosted directory: the name it is shown under and its path.
    pub hosted_directory: (String, String),
    /// Whether requests may pass through symbolic links.
    pub follow_symlinks: bool,
    /// Whether a directory is answered with its index file where it has one.
    pub check_indices: bool,
    /// Where uploads are staged: name and path. Writes are allowed exactly
    /// where this is set.
    pub writes_temp_dir: Option<(String, String)>,
    /// Where encoded files are kept: name and path. Files are served encoded
    /// only where this is set.
    pub encoded_temp_dir: Option<(String, String)>,
    /// What the server calls itself in the `Server` header.
    pub user_agent: String,
    /// The extensions under which an index file is looked for, in order.
    pub index_extensions: Vec<String>,
    /// The smallest file, in bytes, that is served encoded.
    pub min_encoding_size: u64,
    /// The largest file, in bytes, that is served encoded.
    pub max_encoding_size: u64,
    /// The gain below which an encoded file is not kept.
    pub min_encoding_gain: Gain,
    /// The extensions of files that are never served encoded.
    pub blacklisted_encoding_extensions: Vec<String>,
    /// Encoded pages: from the digest of a page's text and an encoding to
    /// the encoded bytes.
    pub cache_gen: Cache<Vec<u8>>,
    /// Encoded files: from the digest of a file's content and an encoding to
    /// the path that is served for it, and whether what is there is encoded.
    pub cache_fs: Cache<(String, bool)>,
}

/// The name of a subdirectory `name` of a temporary directory called
/// `temp_name`: the two with one separator between them.
pub open spec fn temp_subdir_name(temp_name: Seq<char>, name: Seq<char>) -> Seq<char> {
    if ends_with(temp_name, '/') || ends_with(temp_name, '\\') {
        temp_name + name
    } else {
        temp_name + "/"@ + name
    }
}

/// A copy of a list of texts.
pub fn duplicate_texts(texts: &Vec<String>) -> (r: Vec<String>)
    ensures
        r.deep_view() == texts.deep_view(),
{
    let mut r: Vec<String> = Vec::new();
    let mut i: usize = 0;
    while i < texts.len()
        invariant
            i <= texts.len(),
            r.len() == i,
            forall|k: int| 0 <= k < i ==> r[k]@ == texts[k]@,
        decreases texts.len() - i,
    {
        r.push(texts[i].clone());
        i += 1;
    }
    assert(r.deep_view() =~= texts.deep_view());
    r
}

impl HttpHandler {
    /// The path of the directory where encoded files are kept; empty where
    /// there is none.
    pub open spec fn encoded_dir(&self) -> Seq<char> {
        match self.encoded_temp_dir {
            Some((_, path)) => path@,
            None => Seq::empty(),
        }
    }

    /// The path of the directory where uploads are staged; empty where there
    /// is none.
    pub open spec fn writes_dir(&self) -> Seq<char> {
        match self.writes_temp_dir {
            Some((_, path)) => path@,
            None => Seq::empty(),
        }
    }

    /// Whether two handlers are set up alike, whatever their caches hold.
    pub open spec fn same_setup(&self, other: &HttpHandler) -> bool {
        &&& self.hosted_directory.deep_view() == other.hosted_directory.deep_view()
        &&& self.follow_symlinks == other.follow_symlinks
        &&& self.check_indices == other.check_indices
        &&& self.writes_temp_dir.deep_view() == other.writes_temp_dir.deep_view()
        &&& self.encoded_temp_dir.deep_view() == other.encoded_temp_dir.deep_view()
        &&& self.user_agent@ == other.user_agent@
        &&& self.index_extensions.deep_view() == other.index_extensions.deep_view()
        &&& self.min_encoding_size == other.min_encoding_size
        &&& self.max_encoding_size == other.max_encoding_size
        &&& self.min_encoding_gain == other.min_encoding_gain
        &&& self.blacklisted_encoding_extensions.deep_view()
            == other.blacklisted_encoding_extensions.deep_view()
    }

    /// A handler for the hosted directory of `opts`, with empty caches. It
    /// takes writes where `opts` allows them and names a temporary directory,
    /// and serves files encoded where `opts` asks for that and names a
    /// temporary directory.
    pub fn new(opts: &Options) -> (h: HttpHandler)
        ensures
            h.hosted_directory.deep_view() == opts.hosted_directory.deep_view(),
            h.follow_symlinks == opts.follow_symlinks,
            h.check_indices == opts.check_indices,
            h.writes_temp_dir.deep_view() == Self::spec_temp_subdir(
                opts.temp_directory.deep_view(),
                opts.allow_writes,
                "writes"@,
            ),
            h.encoded_temp_dir.deep_view() == Self::spec_temp_subdir(
                opts.temp_directory.deep_view(),
                opts.encode_fs,
                "encoded"@,
            ),
            h.user_agent@ == opts.user_agent@,
            h.index_extensions.deep_view() == opts.index_extensions.deep_view(),
            h.min_encoding_size == opts.min_encoding_size,
            h.max_encoding_size == opts.max_encoding_size,
            h.min_encoding_gain == opts.min_encoding_gain,
            h.blacklisted_encoding_extensions.deep_view()
                == opts.blacklisted_encoding_extensions.deep_view(),
            h.cache_gen@ == Map::<CacheKeyView, Vec<u8>>::empty(),
            h.cache_fs@ == Map::<CacheKeyView, (String, bool)>::empty(),
    {
        HttpHandler {
            hosted_directory: (opts.hosted_directory.0.clone(), opts.hosted_directory.1.clone()),
            follow_symlinks: opts.follow_symlinks,
            check_indices: opts.check_indices,
            writes_temp_dir: HttpHandler::temp_subdir(&opts.temp_directory, opts.allow_writes, "writes"),
            encoded_temp_dir: HttpHandler::temp_subdir(&opts.temp_directory, opts.encode_fs, "encoded"),
            user_agent: opts.user_agent.clone(),
            index_extensions: duplicate_texts(&opts.index_extensions),
            min_encoding_size: opts.min_encoding_size,
            max_encoding_size: opts.max_encoding_size,
            min_encoding_gain: opts.min_encoding_gain,
            blacklisted_encoding_extensions: duplicate_texts(&opts.blacklisted_encoding_extensions),
            cache_gen: Cache::new(),
            cache_fs: Cache::new(),
        }
    }

    /// The subdirectory `name` of the temporary directory `td`, by name and
    /// path, where `flag` is set and there is a temporary directory.
    pub open spec fn spec_temp_subdir(
        td: Option<(Seq<char>, Seq<char>)>,
        flag: bool,
        name: Seq<char>,
    ) -> Option<(Seq<char>, Seq<char>)> {
        match td {
            Some((temp_name, temp_dir)) if flag => Some(
                (temp_subdir_name(temp_name, name), joined_path(temp_dir, name)),
            ),
            _ => None,
        }
    }

    /// The subdirectory `name` of the temporary directory `td`, by name and
    /// path, where `flag` is set and there is a temporary directory.
    pub fn temp_subdir(td: &Option<(String, String)>, flag: bool, name: &str) -> (r: Option<(String, String)>)
        ensures
            r.deep_view() == Self::spec_temp_subdir(td.deep_view(), flag, name@),
    {
        match td {
            Some((temp_name, temp_dir)) => {
                if flag {
                    let shown = chars_of(temp_name.as_str());
                    let mut full = temp_name.clone();
                    if !(ends_with_char(&shown, '/') || ends_with_char(&shown, '\\')) {
                        full.append("/");
                    }
                    full.append(name);
                    assert(full@ =~= temp_subdir_name(temp_name@, name@));
                    Some((full, path_join(temp_dir.as_str(), name)))
                } else {
                    None
                }
            },
            None => None,
        }
    }
}

impl Clone for HttpHandler {
    /// A handler set up like this one. Its caches start empty: what one
    /// handler has encoded is not known to its copies.
    fn clone(&self) -> (h: HttpHandler)
        ensures
            h.same_setup(self),
            h.cache_gen@ == Map::<CacheKeyView, Vec<u8>>::empty(),
            h.cache_fs@ == Map::<CacheKeyView, (String, bool)>::empty(),
    {
        HttpHandler {
            hosted_directory: (self.hosted_directory.0.clone(), self.hosted_directory.1.clone()),
            follow_symlinks: self.follow_symlinks,
            check_indices: self.check_indices,
            writes_temp_dir: match &self.writes_temp_dir {
                Some((n, p)) => Some((n.clone(), p.clone())),
                None => None,
            },
            encoded_temp_dir: match &self.encoded_temp_dir {
                Some((n, p)) => Some((n.clone(), p.clone())),
                None => None,
            },
            user_agent: self.user_agent.clone(),
            index_extensions: duplicate_texts(&self.index_extensions),
            min_encoding_size: self.min_encoding_size,
            max_encoding_size: self.max_encoding_size,
            min_encoding_gain: self.min_encoding_gain,
            blacklisted_encoding_extensions: duplicate_texts(&self.blacklisted_encoding_extensions),
            cache_gen: Cache::new(),
            cache_fs: Cache::new(),
        }
    }
}

/// The headers of a request as a `TRACE` response returns them: each by name
/// and value, but for any `Content-Type`.
pub open spec fn echoed(headers: Seq<(String, String)>) -> Seq<HeaderView>
    decreases headers.len(),
{
    if headers.len() == 0 {
        Seq::empty()
    } else if eq_ignore_ascii_case(headers.last().0@, "content-type"@) {
        echoed(headers.drop_last())
    } else {
        echoed(headers.drop_last()).push(HeaderView::Raw(headers.last().0@, headers.last().1@))
    }
}

/// The six methods the server serves, in the order they are listed in.
pub open spec fn served_methods() -> Seq<MethodView> {
    seq![
        MethodView::Options,
        MethodView::Get,
        MethodView::Put,
        MethodView::Delete,
        MethodView::Head,
        MethodView::Trace,
    ]
}

/// The methods a directory takes, in the order they are listed in.
pub open spec fn directory_methods() -> Seq<MethodView> {
    seq![MethodView::Options, MethodView::Get, MethodView::Delete, MethodView::Head, MethodView::Trace]
}

/// What is said of a URL with a segment that does not decode.
pub open spec fn undecodable() -> Seq<char> {
    "<p>Percent-encoding decoded to invalid UTF-8.</p>"@
}

impl HttpHandler {
    /// `OPTIONS`: status 204 and the six methods in `Allow`.
    pub open spec fn spec_handle_options(&self) -> StepView {
        StepView::Respond(
            ResponseView {
                status: Status::NoContent,
                headers: seq![HeaderView::Server(self.user_agent@), HeaderView::Allow(served_methods())],
                body: BodyView::Empty,
            },
        )
    }

    /// Answers `OPTIONS`.
    pub fn handle_options(&self, req: &Request) -> (step: Step)
        ensures
            step@ == self.spec_handle_options(),
    {
        let mut methods: Vec<Method> = Vec::new();
        methods.push(Method::Options);
        methods.push(Method::Get);
        methods.push(Method::Put);
        methods.push(Method::Delete);
        methods.push(Method::Head);
        methods.push(Method::Trace);
        assert(methods.deep_view() =~= served_methods());
        let mut headers: Vec<Header> = Vec::new();
        headers.push(Header::Server(self.user_agent.clone()));
        headers.push(Header::Allow(methods));
        assert(headers.deep_view() =~= seq![
            HeaderView::Server(self.user_agent@),
            HeaderView::Allow(served_methods()),
        ]);
        Step::Respond(Response { status: Status::NoContent, headers, body: Body::Empty })
    }

    /// `TRACE`: status 200, the request's headers with the content type
    /// `message/http`, and no body.
    pub open spec fn spec_handle_trace(req: &Request) -> StepView {
        StepView::Respond(
            ResponseView {
                status: Status::Success,
                headers: echoed(req.headers@).push(HeaderView::ContentType("message/http"@)),
                body: BodyView::Empty,
            },
        )
    }

    /// Answers `TRACE`.
    pub fn handle_trace(&self, req: &Request) -> (step: Step)
        ensures
            step@ == Self::spec_handle_trace(req),
    {
        let mut headers: Vec<Header> = Vec::new();
        let mut i: usize = 0;
        assert(req.headers@.subrange(0, 0) =~= Seq::<(String, String)>::empty());
        assert(headers.deep_view() =~= Seq::<HeaderView>::empty());
        while i < req.headers.len()
            invariant
                i <= req.headers@.len(),
                headers.deep_view() == echoed(req.headers@.subrange(0, i as int)),
            decreases req.headers.len() - i,
        {
            assert(req.headers@.subrange(0, i + 1).drop_last() =~= req.headers@.subrange(0, i as int));
            assert(req.headers@.subrange(0, i + 1).last() == req.headers@[i as int]);
            if !unicase_eq(req.headers[i].0.as_str(), "content-type") {
                let ghost before = headers.deep_view();
                let h = Header::Raw(req.headers[i].0.clone(), req.headers[i].1.clone());
                headers.push(h);
                assert(headers.deep_view() =~= before.push(h@));
            }
            i += 1;
        }
        assert(req.headers@.subrange(0, req.headers@.len() as int) =~= req.headers@);
        let ghost before = headers.deep_view();
        headers.push(Header::ContentType("message/http".to_owned()));
        assert(headers.deep_view() =~= before.push(HeaderView::ContentType("message/http"@)));
        Step::Respond(Response { status: Status::Success, headers, body: Body::Empty })
    }

    /// A bare response: a status, the `Server` header and no body.
    pub open spec fn bare(&self, status: Status) -> ResponseView {
        ResponseView { status, headers: seq![HeaderView::Server(self.user_agent@)], body: BodyView::Empty }
    }

    fn bare_of(&self, status: Status) -> (r: Response)
        ensures
            r@ == self.bare(status),
    {
        let mut headers: Vec<Header> = Vec::new();
        headers.push(Header::Server(self.user_agent.clone()));
        assert(headers.deep_view() =~= seq![HeaderView::Server(self.user_agent@)]);
        Response { status, headers, body: Body::Empty }
    }

    /// What a `GET` or `HEAD` is answered with, given what its path resolved
    /// to and what is there. A segment that did not decode gives status 400,
    /// whatever is there. Nothing there, or a symbolic link on the way where
    /// those are not followed, gives status 404. A file is served, in part
    /// where a range was asked for; anything else is served as a directory.
    pub open spec fn spec_handle_get(&self, req: &Request, resolved: &RequestPath, state: &PathState) -> StepView {
        if resolved.decode_error {
            Self::spec_handle_invalid_url(undecodable())
        } else if !state.exists || (resolved.followed_symlink && !self.follow_symlinks) {
            Self::spec_handle_nonexistant(req)
        } else {
            match state.file {
                Some(info) => match req.range {
                    Some(range) => self.spec_handle_get_file_range(req, resolved.path@, &range, info),
                    None => self.spec_handle_get_file(req, resolved.path@, info),
                },
                None => self.spec_handle_get_dir(req, resolved.path@, state.indices@),
            }
        }
    }

    /// Answers a `GET` or `HEAD`, given what its path resolved to and what
    /// is there.
    pub fn handle_get(&self, req: &Request, resolved: &RequestPath, state: &PathState) -> (step: Step)
        ensures
            step@ == self.spec_handle_get(req, resolved, state),
    {
        if resolved.decode_error {
            self.handle_invalid_url(req, "<p>Percent-encoding decoded to invalid UTF-8.</p>")
        } else if !state.exists || (resolved.followed_symlink && !self.follow_symlinks) {
            self.handle_nonexistant(req)
        } else {
            match &state.file {
                Some(info) => match &req.range {
                    Some(range) => self.handle_get_file_range(req, resolved.path.as_str(), range, info),
                    None => self.handle_get_file(req, resolved.path.as_str(), info),
                },
                None => self.handle_get_dir(req, resolved.path.as_str(), &state.indices),
            }
        }
    }

    /// What an upload to a path is answered with: the body is to be staged
    /// under the path's file name in the directory for uploads and copied to
    /// the path, and the status is 204 where something was there before and
    /// 201 where nothing was. Without a directory for uploads, or for a path
    /// that ends in no file name, nothing can be done.
    pub open spec fn spec_handle_put_file(&self, path: Seq<char>, existant: bool) -> StepView {
        match (self.writes_temp_dir, crate::outside::path_file_name(path)) {
            (Some((_, dir)), Some(name)) => StepView::Store {
                temp_dir: dir@,
                staging: joined_path(dir@, name),
                destination: path,
                response: self.bare(
                    if existant {
                        Status::NoContent
                    } else {
                        Status::Created
                    },
                ),
            },
            _ => StepView::Fault,
        }
    }

    /// Answers an upload to a path, given whether something is there
    /// already.
    pub fn handle_put_file(&self, req: &Request, req_p: &str, existant: bool) -> (step: Step)
        ensures
            step@ == self.spec_handle_put_file(req_p@, existant),
    {
        match &self.writes_temp_dir {
            Some((_, dir)) => match crate::outside::file_name_of(req_p) {
                Some(name) => Step::Store {
                    temp_dir: dir.clone(),
                    staging: path_join(dir.as_str(), name.as_str()),
                    destination: req_p.to_owned(),
                    response: self.bare_of(
                        if existant {
                            Status::NoContent
                        } else {
                            Status::Created
                        },
                    ),
                },
                None => Step::Fault,
            },
            None => Step::Fault,
        }
    }

    /// What a `PUT` is answered with, given what its path resolved to and
    /// what is there. In this order: status 403 where writes are not
    /// allowed; 400 for a segment that did not decode; 405 for a directory;
    /// 400 where a file stands where the path needs a directory; 400 for an
    /// upload of part of a file; else the upload is taken.
    pub open spec fn spec_handle_put(&self, req: &Request, resolved: &RequestPath, state: &PathState) -> StepView {
        if self.writes_temp_dir.is_none() {
            Self::spec_handle_forbidden_method("-w"@, "write requests"@)
        } else if resolved.decode_error {
            Self::spec_handle_invalid_url(undecodable())
        } else if state.is_dir {
            Self::spec_handle_disallowed_method(req, directory_methods(), "directory"@)
        } else if state.file_as_dir {
            Self::spec_handle_invalid_url("<p>Attempted to use file as directory.</p>"@)
        } else if req.has_content_range {
            Self::spec_handle_put_partial_content()
        } else {
            self.spec_handle_put_file(resolved.path@, state.exists)
        }
    }

    /// Answers a `PUT`, given what its path resolved to and what is there.
    pub fn handle_put(&self, req: &Request, resolved: &RequestPath, state: &PathState) -> (step: Step)
        ensures
            step@ == self.spec_handle_put(req, resolved, state),
    {
        if self.writes_temp_dir.is_none() {
            self.handle_forbidden_method(req, "-w", "write requests")
        } else if resolved.decode_error {
            self.handle_invalid_url(req, "<p>Percent-encoding decoded to invalid UTF-8.</p>")
        } else if state.is_dir {
            let mut allowed: Vec<Method> = Vec::new();
            allowed.push(Method::Options);
            allowed.push(Method::Get);
            allowed.push(Method::Delete);
            allowed.push(Method::Head);
            allowed.push(Method::Trace);
            assert(allowed.deep_view() =~= directory_methods());
            self.handle_disallowed_method(req, allowed, "directory")
        } else if state.file_as_dir {
            self.handle_invalid_url(req, "<p>Attempted to use file as directory.</p>")
        } else if req.has_content_range {
            self.handle_put_partial_content(req)
        } else {
            self.handle_put_file(req, resolved.path.as_str(), state.exists)
        }
    }

    /// What deleting a path is answered with: the path is to be removed, a
    /// directory with all that is in it, and the status is 204.
    pub open spec fn spec_handle_delete_path(&self, path: Seq<char>, is_file: bool) -> StepView {
        StepView::Remove { path, recursive: !is_file, response: self.bare(Status::NoContent) }
    }

    /// Answers a `DELETE` of what is at a path, given whether it is a file.
    pub fn handle_delete_path(&self, req: &Request, req_p: &str, is_file: bool) -> (step: Step)
        ensures
            step@ == self.spec_handle_delete_path(req_p@, is_file),
    {
        Step::Remove { path: req_p.to_owned(), recursive: !is_file, response: self.bare_of(Status::NoContent) }
    }

    /// What a `DELETE` is answered with, given what its path resolved to and
    /// what is there. In this order: status 403 where writes are not
    /// allowed; 400 for a segment that did not decode; 404 where nothing is
    /// there, or a symbolic link is on the way where those are not followed;
    /// else what is there is deleted.
    pub open spec fn spec_handle_delete(&self, req: &Request, resolved: &RequestPath, state: &PathState) -> StepView {
        if self.writes_temp_dir.is_none() {
            Self::spec_handle_forbidden_method("-w"@, "write requests"@)
        } else if resolved.decode_error {
            Self::spec_handle_invalid_url(undecodable())
        } else if !state.exists || (resolved.followed_symlink && !self.follow_symlinks) {
            Self::spec_handle_nonexistant(req)
        } else {
            self.spec_handle_delete_path(resolved.path@, state.file.is_some())
        }
    }

    /// Answers a `DELETE`, given what its path resolved to and what is there.
    pub fn handle_delete(&self, req: &Request, resolved: &RequestPath, state: &PathState) -> (step: Step)
        ensures
            step@ == self.spec_handle_delete(req, resolved, state),
    {
        if self.writes_temp_dir.is_none() {
            self.handle_forbidden_method(req, "-w", "write requests")
        } else if resolved.decode_error {
            self.handle_invalid_url(req, "<p>Percent-encoding decoded to invalid UTF-8.</p>")
        } else if !state.exists || (resolved.followed_symlink && !self.follow_symlinks) {
            self.handle_nonexistant(req)
        } else {
            self.handle_delete_path(req, resolved.path.as_str(), state.file.is_some())
        }
    }

    /// What a request is answered with before anything is known of the file
    /// system. `OPTIONS` and `TRACE` are answered at once, and so is a method
    /// that is not served, with status 501, and a `PUT` or `DELETE` where
    /// writes are not allowed, with status 403. For the rest the path is to
    /// be resolved.
    pub open spec fn spec_handle(&self, req: &Request) -> StepView {
        match req.method {
            Method::Options => self.spec_handle_options(),
            Method::Get | Method::Head => StepView::Resolve,
            Method::Put | Method::Delete => if self.writes_temp_dir.is_none() {
                Self::spec_handle_forbidden_method("-w"@, "write requests"@)
            } else {
                StepView::Resolve
            },
            Method::Trace => Self::spec_handle_trace(req),
            _ => Self::spec_handle_bad_method(req),
        }
    }

    /// Routes a request by its method.
    pub fn handle(&self, req: &Request) -> (step: Step)
        ensures
            step@ == self.spec_handle(req),
    {
        match &req.method {
            Method::Options => self.handle_options(req),
            Method::Get => Step::Resolve,
            Method::Head => Step::Resolve,
            Method::Put => if self.writes_temp_dir.is_none() {
                self.handle_forbidden_method(req, "-w", "write requests")
            } else {
                Step::Resolve
            },
            Method::Delete => if self.writes_temp_dir.is_none() {
                self.handle_forbidden_method(req, "-w", "write requests")
            } else {
                Step::Resolve
            },
            Method::Trace => self.handle_trace(req),
            _ => self.handle_bad_method(req),
        }
    }

    /// What a request is answered with once its path is resolved: a `GET` or
    /// `HEAD`, a `PUT` and a `DELETE` each in its own way, and any other
    /// method as before.
    pub open spec fn spec_handle_resolved(&self, req: &Request, resolved: &RequestPath, state: &PathState) -> StepView {
        match req.method {
            Method::Get | Method::Head => self.spec_handle_get(req, resolved, state),
            Method::Put => self.spec_handle_put(req, resolved, state),
            Method::Delete => self.spec_handle_delete(req, resolved, state),
            _ => self.spec_handle(req),
        }
    }

    /// Routes a request whose path is resolved by its method.
    pub fn handle_resolved(&self, req: &Request, resolved: &RequestPath, state: &PathState) -> (step: Step)
        ensures
            step@ == self.spec_handle_resolved(req, resolved, state),
    {
        match &req.method {
            Method::Get => self.handle_get(req, resolved, state),
            Method::Head => self.handle_get(req, resolved, state),
            Method::Put => self.handle_put(req, resolved, state),
            Method::Delete => self.handle_delete(req, resolved, state),
            _ => self.handle(req),
        }
    }

    /// Resolves the path of a request, given for each segment the targets of
    /// the symbolic links that were found after it, in the order they were
    /// followed: from the hosted directory, segment by segment, and after
    /// each segment that counts through its links.
    pub fn parse_requested_path(&self, req: &Request, links: &Vec<Vec<String>>) -> (resolved: RequestPath)
        ensures
            resolved@ == (RequestPathView {
                path: self.hosted_directory.1@,
                followed_symlink: false,
                decode_error: false,
            }).walk(req.segments@, links@, req.segments@.len()),
    {
        let mut resolved = RequestPath::start(self.hosted_directory.1.as_str());
        let ghost origin = resolved@;
        let mut k: usize = 0;
        while k < req.segments.len()
            invariant
                k <= req.segments@.len(),
                resolved@ == origin.walk(req.segments@, links@, k as nat),
            decreases req.segments.len() - k,
        {
            let counts = resolved.append(&req.segments[k]);
            if counts && k < links.len() {
                let ghost appended = resolved@;
                let chain = &links[k];
                let mut j: usize = 0;
                assert(chain@.subrange(0, 0) =~= Seq::<String>::empty());
                while j < chain.len()
                    invariant
                        j <= chain@.len(),
                        resolved@ == appended.follow_all(chain@.subrange(0, j as int)),
                    decreases chain.len() - j,
                {
                    assert(chain@.subrange(0, j + 1).drop_last() =~= chain@.subrange(0, j as int));
                    assert(chain@.subrange(0, j + 1).last() == chain@[j as int]);
                    resolved.follow(chain[j].clone());
                    j += 1;
                }
                assert(chain@.subrange(0, chain@.len() as int) =~= chain@);
            }
            k += 1;
        }
        resolved
    }
}

} // verus!
