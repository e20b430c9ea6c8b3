//! Content encoding with its two caches: rendered pages are encoded in
//! memory, files into artifacts on disk, and what was encoded once is served
//! again without encoding it anew.

use crate::model::{
    Body, BodyView, CacheKey, CacheKeyView, Encoding, FileInfo, Header, HeaderView, Method, MethodView,
    Request, Response, ResponseView, Step, StepView,
};
use crate::ops::HttpHandler;
use crate::outside::{
    eq_ignore_ascii_case, extension_of, guess_mime, guessed_mime, is_usable_extension, joined_path,
    md6_256, md6_digest, path_extension, path_join, path_with_extension, unicase_eq, usable_extension,
    with_extension,
};
use crate::status::Status;
use crate::text::{hex, hex_text};
use vstd::prelude::*;

verus! {

/// The `Allow` header of a response that is to have one.
pub open spec fn allow_header(allow: Option<Seq<MethodView>>) -> Seq<HeaderView> {
    match allow {
        Some(methods) => seq![HeaderView::Allow(methods)],
        None => Seq::empty(),
    }
}

/// The media type of a rendered page.
pub open spec fn page_type() -> Seq<char> {
    "text/html;charset=utf-8"@
}

/// The key under which a page's text is cached in an encoding: the MD6
/// digest of the text's bytes with the encoding's name. A text too long to
/// be digested, one whose length in bits cannot be counted in 64 bits, has
/// no key.
pub open spec fn page_key(text: Seq<char>, encoding: Seq<char>) -> Option<CacheKeyView> {
    let bytes = vstd::utf8::encode_utf8(text);
    if bytes.len() * 8 <= u64::MAX {
        match md6_256(bytes) {
            Some(digest) => Some(CacheKeyView { digest, encoding }),
            None => None,
        }
    } else {
        None
    }
}

fn page_digest(text: &str) -> (r: Option<[u8; 32]>)
    ensures
        match r {
            Some(d) => page_key(text@, Seq::empty()) == Some(
                CacheKeyView { digest: d@, encoding: Seq::empty() },
            ),
            None => page_key(text@, Seq::empty()).is_none(),
        },
{
    let bytes = text.as_bytes();
    if (bytes.len() as u128) * 8 <= 0xffff_ffff_ffff_ffff {
        md6_digest(bytes)
    } else {
        None
    }
}

/// The media type a file is served as: the one guessed from its path, or,
/// where there is none, binary or plain text by what the file holds.
pub open spec fn file_mime(path: Seq<char>, binary: bool) -> Seq<char> {
    match guessed_mime(path) {
        Some((_, text)) => text,
        None => if binary {
            "application/octet-stream"@
        } else {
            "text/plain"@
        },
    }
}

/// The media type a file is served as.
pub fn mime_type_of(path: &str, binary: bool) -> (s: String)
    ensures
        s@ == file_mime(path@, binary),
{
    match guess_mime(path) {
        Some(m) => m.text,
        None => if binary {
            "application/octet-stream".to_owned()
        } else {
            "text/plain".to_owned()
        },
    }
}

/// Whether a media type is guessed from a path. Where one is, what the file
/// holds is not asked for.
pub fn mime_is_guessed(path: &str) -> (b: bool)
    ensures
        b == guessed_mime(path@).is_some(),
{
    guess_mime(path).is_some()
}

/// The extension of the artifact made of a file in an encoding: the file's
/// own extension, if it has one, and then the encoding's, or the encoding's
/// name where it has none.
pub open spec fn artifact_extension(source_extension: Option<Seq<char>>, encoding: &Encoding) -> Seq<char> {
    let suffix = match encoding.extension {
        Some(e) => e@,
        None => encoding.name@,
    };
    match source_extension {
        Some(x) => x + "."@ + suffix,
        None => suffix,
    }
}

/// Where the artifact made of a file in an encoding is kept: in `temp_dir`,
/// named by the digest of the file's content in hexadecimal. There is no
/// such place where the artifact's extension would hold a path separator.
pub open spec fn artifact_path(temp_dir: Seq<char>, digest: Seq<u8>, source: Seq<char>, encoding: &Encoding) -> Option<Seq<char>> {
    let extension = artifact_extension(path_extension(source), encoding);
    if usable_extension(extension) {
        Some(path_with_extension(joined_path(temp_dir, hex_text(digest)), extension))
    } else {
        None
    }
}

fn artifact_path_of(temp_dir: &str, digest: &[u8; 32], source: &str, encoding: &Encoding) -> (r: Option<String>)
    ensures
        r.deep_view() == artifact_path(temp_dir@, digest@, source@, encoding),
{
    let mut extension = String::new();
    match extension_of(source) {
        Some(x) => {
            extension.append(x.as_str());
            extension.append(".");
        },
        None => {},
    }
    match &encoding.extension {
        Some(e) => {
            extension.append(e.as_str());
        },
        None => {
            extension.append(encoding.name.as_str());
        },
    }
    assert(extension@ =~= artifact_extension(path_extension(source@), encoding));
    if is_usable_extension(extension.as_str()) {
        let name = hex(digest.as_slice());
        Some(with_extension(path_join(temp_dir, name.as_str()).as_str(), extension.as_str()))
    } else {
        None
    }
}

fn copy_bytes(bytes: &Vec<u8>) -> (r: Vec<u8>)
    ensures
        r@ == bytes@,
{
    let mut r: Vec<u8> = Vec::new();
    let mut i: usize = 0;
    while i < bytes.len()
        invariant
            i <= bytes.len(),
            r@ == bytes@.subrange(0, i as int),
        decreases bytes.len() - i,
    {
        r.push(bytes[i]);
        assert(r@ =~= bytes@.subrange(0, i + 1));
        i += 1;
    }
    assert(bytes@.subrange(0, bytes.len() as int) =~= bytes@);
    r
}

impl HttpHandler {
    /// A page sent as it is.
    pub open spec fn page_identity(&self, status: Status, text: Seq<char>, allow: Option<Seq<MethodView>>) -> ResponseView {
        ResponseView {
            status,
            headers: seq![HeaderView::Server(self.user_agent@), HeaderView::ContentType(page_type())]
                + allow_header(allow),
            body: BodyView::Text(text),
        }
    }

    /// A page sent encoded.
    pub open spec fn page_encoded(
        &self,
        status: Status,
        encoding: Seq<char>,
        bytes: Seq<u8>,
        allow: Option<Seq<MethodView>>,
    ) -> ResponseView {
        ResponseView {
            status,
            headers: seq![
                HeaderView::Server(self.user_agent@),
                HeaderView::ContentEncoding(encoding),
                HeaderView::ContentType(page_type()),
            ] + allow_header(allow),
            body: BodyView::Bytes(bytes),
        }
    }

    fn page_identity_of(&self, req: &Request, status: Status, text: String, allow: Option<Vec<Method>>) -> (r: Response)
        ensures
            r@ == self.page_identity(status, text@, allow.deep_view()).for_request(req.spec_is_head()),
    {
        let mut headers: Vec<Header> = Vec::new();
        headers.push(Header::Server(self.user_agent.clone()));
        headers.push(Header::ContentType("text/html;charset=utf-8".to_owned()));
        match allow {
            Some(methods) => {
                headers.push(Header::Allow(methods));
            },
            None => {},
        }
        assert(headers.deep_view() =~= self.page_identity(status, text@, allow.deep_view()).headers);
        (Response { status, headers, body: Body::Text(text) }).for_request(req)
    }

    fn page_encoded_of(
        &self,
        req: &Request,
        status: Status,
        encoding: &str,
        bytes: Vec<u8>,
        allow: Option<Vec<Method>>,
    ) -> (r: Response)
        ensures
            r@ == self.page_encoded(status, encoding@, bytes@, allow.deep_view()).for_request(
                req.spec_is_head(),
            ),
    {
        let mut headers: Vec<Header> = Vec::new();
        headers.push(Header::Server(self.user_agent.clone()));
        headers.push(Header::ContentEncoding(encoding.to_owned()));
        headers.push(Header::ContentType("text/html;charset=utf-8".to_owned()));
        match allow {
            Some(methods) => {
                headers.push(Header::Allow(methods));
            },
            None => {},
        }
        assert(headers.deep_view() =~= self.page_encoded(
            status,
            encoding@,
            bytes@,
            allow.deep_view(),
        ).headers);
        (Response { status, headers, body: Body::Bytes(bytes) }).for_request(req)
    }

    /// What becomes of a rendered page. Where no encoding was negotiated, or
    /// the text has no digest, it is sent as it is. Where the cache holds the
    /// text in the negotiated encoding, the cached bytes are sent. Else the
    /// text is to be compressed.
    pub open spec fn spec_handle_generated_response_encoding(
        &self,
        req: &Request,
        status: Status,
        text: Seq<char>,
        allow: Option<Seq<MethodView>>,
    ) -> StepView {
        let identity = StepView::Respond(
            self.page_identity(status, text, allow).for_request(req.spec_is_head()),
        );
        match req.encoding {
            None => identity,
            Some(e) => match page_key(text, e.name@) {
                None => identity,
                Some(key) => if self.cache_gen@.contains_key(key) {
                    StepView::Respond(
                        self.page_encoded(status, e.name@, self.cache_gen@[key]@, allow).for_request(
                            req.spec_is_head(),
                        ),
                    )
                } else {
                    StepView::CompressText { key, status, allow, text }
                },
            },
        }
    }

    /// Decides how a rendered page is sent: as it is, from the cache, or
    /// after compressing it.
    pub fn handle_generated_response_encoding(
        &self,
        req: &Request,
        status: Status,
        text: String,
        allow: Option<Vec<Method>>,
    ) -> (step: Step)
        ensures
            step@ == self.spec_handle_generated_response_encoding(req, status, text@, allow.deep_view()),
    {
        match &req.encoding {
            None => Step::Respond(self.page_identity_of(req, status, text, allow)),
            Some(e) => {
                match page_digest(text.as_str()) {
                    None => Step::Respond(self.page_identity_of(req, status, text, allow)),
                    Some(digest) => {
                        let key = CacheKey { digest, encoding: e.name.clone() };
                        match self.cache_gen.get(&key) {
                            Some(bytes) => Step::Respond(
                                self.page_encoded_of(req, status, e.name.as_str(), copy_bytes(bytes), allow),
                            ),
                            None => Step::CompressText { key, status, allow, text },
                        }
                    },
                }
            },
        }
    }

    /// Takes in what came of compressing a page's text: where it gave bytes,
    /// they are cached under `key` and sent; where it failed, the text is
    /// sent as it is and nothing is cached.
    pub fn store_generated_response(
        &mut self,
        req: &Request,
        key: CacheKey,
        status: Status,
        allow: Option<Vec<Method>>,
        text: String,
        compressed: Option<Vec<u8>>,
    ) -> (r: Response)
        ensures
            final(self).same_setup(old(self)),
            final(self).cache_fs@ == old(self).cache_fs@,
            match compressed {
                Some(bytes) => {
                    &&& final(self).cache_gen@ == old(self).cache_gen@.insert(key@, bytes)
                    &&& r@ == old(self).page_encoded(
                        status,
                        key.encoding@,
                        bytes@,
                        allow.deep_view(),
                    ).for_request(req.spec_is_head())
                },
                None => {
                    &&& final(self).cache_gen@ == old(self).cache_gen@
                    &&& r@ == old(self).page_identity(status, text@, allow.deep_view()).for_request(
                        req.spec_is_head(),
                    )
                },
            },
    {
        match compressed {
            Some(bytes) => {
                let r = self.page_encoded_of(req, status, key.encoding.as_str(), copy_bytes(&bytes), allow);
                self.cache_gen.insert(key, bytes);
                r
            },
            None => self.page_identity_of(req, status, text, allow),
        }
    }

    /// A file sent as it is, with the time it was last modified.
    pub open spec fn file_raw(&self, path: Seq<char>, mime: Seq<char>) -> ResponseView {
        ResponseView {
            status: Status::Success,
            headers: seq![
                HeaderView::Server(self.user_agent@),
                HeaderView::LastModified(path),
                HeaderView::AcceptRanges,
                HeaderView::ContentType(mime),
            ],
            body: BodyView::File(path),
        }
    }

    /// The encoded artifact of a file sent in its place.
    pub open spec fn file_encoded(&self, path: Seq<char>, encoding: Seq<char>, mime: Seq<char>) -> ResponseView {
        ResponseView {
            status: Status::Success,
            headers: seq![
                HeaderView::Server(self.user_agent@),
                HeaderView::ContentEncoding(encoding),
                HeaderView::AcceptRanges,
                HeaderView::ContentType(mime),
            ],
            body: BodyView::File(path),
        }
    }

    fn file_raw_of(&self, req: &Request, path: &str, mime: &str) -> (r: Response)
        ensures
            r@ == self.file_raw(path@, mime@).for_request(req.spec_is_head()),
    {
        let mut headers: Vec<Header> = Vec::new();
        headers.push(Header::Server(self.user_agent.clone()));
        headers.push(Header::LastModified(path.to_owned()));
        headers.push(Header::AcceptRanges);
        headers.push(Header::ContentType(mime.to_owned()));
        assert(headers.deep_view() =~= self.file_raw(path@, mime@).headers);
        (Response { status: Status::Success, headers, body: Body::File(path.to_owned()) }).for_request(req)
    }

    fn file_encoded_of(&self, req: &Request, path: &str, encoding: &str, mime: &str) -> (r: Response)
        ensures
            r@ == self.file_encoded(path@, encoding@, mime@).for_request(req.spec_is_head()),
    {
        let mut headers: Vec<Header> = Vec::new();
        headers.push(Header::Server(self.user_agent.clone()));
        headers.push(Header::ContentEncoding(encoding.to_owned()));
        headers.push(Header::AcceptRanges);
        headers.push(Header::ContentType(mime.to_owned()));
        assert(headers.deep_view() =~= self.file_encoded(path@, encoding@, mime@).headers);
        (Response { status: Status::Success, headers, body: Body::File(path.to_owned()) }).for_request(req)
    }

    /// Whether files with this extension are never served encoded: whether
    /// the extension is on the blacklist, whatever the case of its letters.
    pub open spec fn blacklisted(&self, extension: Seq<char>) -> bool {
        exists|i: int|
            0 <= i < self.blacklisted_encoding_extensions@.len() && eq_ignore_ascii_case(
                (#[trigger] self.blacklisted_encoding_extensions@[i])@,
                extension,
            )
    }

    /// Whether files with this extension are never served encoded.
    pub fn is_blacklisted(&self, extension: &str) -> (b: bool)
        ensures
            b == self.blacklisted(extension@),
    {
        let mut i: usize = 0;
        while i < self.blacklisted_encoding_extensions.len()
            invariant
                i <= self.blacklisted_encoding_extensions@.len(),
                forall|k: int|
                    0 <= k < i ==> !eq_ignore_ascii_case(
                        (#[trigger] self.blacklisted_encoding_extensions@[k])@,
                        extension@,
                    ),
            decreases self.blacklisted_encoding_extensions.len() - i,
        {
            if unicase_eq(self.blacklisted_encoding_extensions[i].as_str(), extension) {
                return true;
            }
            i += 1;
        }
        false
    }

    /// Whether a file may be served encoded: there is a directory for the
    /// artifacts, the file is neither smaller than the smallest nor larger
    /// than the largest size that is encoded, and its extension is not on the
    /// blacklist.
    pub open spec fn encodable(&self, path: Seq<char>, len: u64) -> bool {
        &&& self.encoded_temp_dir.is_some()
        &&& self.min_encoding_size <= len <= self.max_encoding_size
        &&& match path_extension(path) {
            Some(x) => !self.blacklisted(x),
            None => true,
        }
    }

    /// Whether a file may be served encoded.
    pub fn is_encodable(&self, path: &str, len: u64) -> (b: bool)
        ensures
            b == self.encodable(path@, len),
    {
        if self.encoded_temp_dir.is_none() || len < self.min_encoding_size || len > self.max_encoding_size {
            return false;
        }
        match extension_of(path) {
            Some(x) => !self.is_blacklisted(x.as_str()),
            None => true,
        }
    }

    /// What a whole file is answered with. Where the file may be served
    /// encoded and an encoding was negotiated, its digest is asked for; else
    /// the file is sent as it is.
    pub open spec fn spec_handle_get_file(&self, req: &Request, path: Seq<char>, info: FileInfo) -> StepView {
        let mime = file_mime(path, info.binary);
        if self.encodable(path, info.len) && req.encoding.is_some() {
            StepView::HashFile { temp_dir: self.encoded_dir(), path, mime }
        } else {
            StepView::Respond(self.file_raw(path, mime).for_request(req.spec_is_head()))
        }
    }

    /// Answers a request for a whole file.
    pub fn handle_get_file(&self, req: &Request, req_p: &str, info: &FileInfo) -> (step: Step)
        ensures
            step@ == self.spec_handle_get_file(req, req_p@, *info),
    {
        let mime = mime_type_of(req_p, info.binary);
        if self.is_encodable(req_p, info.len) && req.encoding.is_some() {
            match &self.encoded_temp_dir {
                Some((_, dir)) => Step::HashFile { temp_dir: dir.clone(), path: req_p.to_owned(), mime },
                None => Step::Fault,
            }
        } else {
            Step::Respond(self.file_raw_of(req, req_p, mime.as_str()))
        }
    }

    /// What a file is answered with once its digest is known. Where the
    /// cache holds an artifact for the digest in the negotiated encoding, the
    /// artifact is sent; where it holds that encoding was not worth it, the
    /// file it names is sent as it is; where it holds nothing, the file is to
    /// be compressed into its artifact, which needs a directory for artifacts
    /// and a place in it: without either nothing can be done. Without a negotiated encoding the
    /// file is sent as it is.
    pub open spec fn spec_handle_get_file_encoded(
        &self,
        req: &Request,
        path: Seq<char>,
        mime: Seq<char>,
        digest: Seq<u8>,
    ) -> StepView {
        match req.encoding {
            None => StepView::Respond(self.file_raw(path, mime).for_request(req.spec_is_head())),
            Some(e) => {
                let key = CacheKeyView { digest, encoding: e.name@ };
                if self.cache_fs@.contains_key(key) {
                    let (served, encoded) = self.cache_fs@[key];
                    if encoded {
                        StepView::Respond(
                            self.file_encoded(served@, e.name@, mime).for_request(req.spec_is_head()),
                        )
                    } else {
                        StepView::Respond(self.file_raw(served@, mime).for_request(req.spec_is_head()))
                    }
                } else if self.encoded_temp_dir.is_some() {
                    match artifact_path(self.encoded_dir(), digest, path, &e) {
                        Some(target) => StepView::CompressFile { key, source: path, target, mime },
                        None => StepView::Fault,
                    }
                } else {
                    StepView::Fault
                }
            },
        }
    }

    /// Answers a request for a file once the digest of its content is known.
    pub fn handle_get_file_encoded(&self, req: &Request, req_p: &str, mt: &str, digest: &[u8; 32]) -> (step: Step)
        ensures
            step@ == self.spec_handle_get_file_encoded(req, req_p@, mt@, digest@),
    {
        match &req.encoding {
            None => Step::Respond(self.file_raw_of(req, req_p, mt)),
            Some(e) => {
                let key = CacheKey { digest: *digest, encoding: e.name.clone() };
                match self.cache_fs.get(&key) {
                    Some(entry) => {
                        if entry.1 {
                            Step::Respond(self.file_encoded_of(req, entry.0.as_str(), e.name.as_str(), mt))
                        } else {
                            Step::Respond(self.file_raw_of(req, entry.0.as_str(), mt))
                        }
                    },
                    None => {
                        match &self.encoded_temp_dir {
                            Some((_, dir)) => match artifact_path_of(dir.as_str(), digest, req_p, e) {
                                Some(target) => Step::CompressFile {
                                    key,
                                    source: req_p.to_owned(),
                                    target,
                                    mime: mt.to_owned(),
                                },
                                None => Step::Fault,
                            },
                            None => Step::Fault,
                        }
                    },
                }
            },
        }
    }

    /// Takes in what came of compressing a file into its artifact: nothing
    /// where compressing failed, else the sizes of the file and of the
    /// artifact. An artifact that reaches the gain is cached and sent. One
    /// that does not is to be discarded; the cache then holds that the file
    /// is to be sent as it is, and so it is sent. Where compressing failed
    /// the file is sent as it is and nothing is cached.
    pub fn store_file_encoding(
        &mut self,
        req: &Request,
        key: CacheKey,
        source: String,
        target: String,
        mime: &str,
        outcome: Option<(u64, u64)>,
    ) -> (step: Step)
        ensures
            final(self).same_setup(old(self)),
            final(self).cache_gen@ == old(self).cache_gen@,
            match outcome {
                None => {
                    &&& final(self).cache_fs@ == old(self).cache_fs@
                    &&& step@ == StepView::Respond(
                        old(self).file_raw(source@, mime@).for_request(req.spec_is_head()),
                    )
                },
                Some((plain, encoded)) => if old(self).min_encoding_gain.spec_reached(plain, encoded) {
                    &&& final(self).cache_fs@ == old(self).cache_fs@.insert(key@, (target, true))
                    &&& step@ == StepView::Respond(
                        old(self).file_encoded(target@, key.encoding@, mime@).for_request(
                            req.spec_is_head(),
                        ),
                    )
                } else {
                    &&& final(self).cache_fs@ == old(self).cache_fs@.insert(key@, (source, false))
                    &&& step@ == (StepView::Discard {
                        artifact: target@,
                        response: old(self).file_raw(source@, mime@).for_request(req.spec_is_head()),
                    })
                },
            },
    {
        match outcome {
            None => Step::Respond(self.file_raw_of(req, source.as_str(), mime)),
            Some((plain, encoded)) => {
                if self.min_encoding_gain.reached(plain, encoded) {
                    let r = self.file_encoded_of(req, target.as_str(), key.encoding.as_str(), mime);
                    self.cache_fs.insert(key, (target, true));
                    Step::Respond(r)
                } else {
                    let r = self.file_raw_of(req, source.as_str(), mime);
                    self.cache_fs.insert(key, (source, false));
                    Step::Discard { artifact: target, response: r }
                }
            },
        }
    }
}

} // verus!
