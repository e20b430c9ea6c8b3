//! What holds of the handlers taken together.

use crate::encoding::page_key;
use crate::model::{
    BodyView, ByteRangeSpec, CacheKeyView, FileInfo, HeaderView, MethodView, PathState, Range, Request,
    StepView,
};
use crate::ops::{undecodable, HttpHandler};
use crate::ports::{port_in_use, port_scan, spec_after_bind, spec_first_port, start_failed, PortStepView};
use crate::listing::{entry_order, is_listing_of, DirEntry, Order};
use crate::model::Segment;
use crate::resolve::{RequestPath, RequestPathView};
use crate::status::Status;
use crate::text::contains_text;
use vstd::prelude::*;

verus! {

/// A page that was compressed and stored is sent from the cache, byte for
/// byte as it was sent when it was stored, to every later request that
/// renders the same text under the same encoding.
pub proof fn stored_page_is_served_again(
    before: &HttpHandler,
    after: &HttpHandler,
    req: &Request,
    status: Status,
    text: Seq<char>,
    allow: Option<Seq<MethodView>>,
    key: CacheKeyView,
    bytes: Vec<u8>,
)
    requires
        before.spec_handle_generated_response_encoding(req, status, text, allow) == (
        StepView::CompressText { key, status, allow, text }),
        after.same_setup(before),
        after.cache_gen@ == before.cache_gen@.insert(key, bytes),
    ensures
        after.spec_handle_generated_response_encoding(req, status, text, allow) == StepView::Respond(
            before.page_encoded(status, key.encoding, bytes@, allow).for_request(req.spec_is_head()),
        ),
{
    let e = req.encoding.unwrap();
    assert(page_key(text, e.name@) == Some(key));
    assert(after.cache_gen@.contains_key(key));
    assert(after.cache_gen@[key] == bytes);
}

/// An artifact that was stored for a file is sent to every later request
/// for content with the same digest under the same encoding, as it was sent
/// when it was stored.
pub proof fn stored_artifact_is_served_again(
    before: &HttpHandler,
    after: &HttpHandler,
    req: &Request,
    path: Seq<char>,
    mime: Seq<char>,
    digest: Seq<u8>,
    target: String,
)
    requires
        req.encoding.is_some(),
        after.same_setup(before),
        after.cache_fs@ == before.cache_fs@.insert(
            CacheKeyView { digest, encoding: req.encoding.unwrap().name@ },
            (target, true),
        ),
    ensures
        after.spec_handle_get_file_encoded(req, path, mime, digest) == StepView::Respond(
            before.file_encoded(target@, req.encoding.unwrap().name@, mime).for_request(req.spec_is_head()),
        ),
{
    let key = CacheKeyView { digest, encoding: req.encoding.unwrap().name@ };
    assert(after.cache_fs@.contains_key(key));
    assert(after.cache_fs@[key] == (target, true));
}

/// Once encoding a file was found not worth it, every later request for
/// content with the same digest under the same encoding gets the file as it
/// is, and nothing is compressed again.
pub proof fn rejected_encoding_is_not_tried_again(
    before: &HttpHandler,
    after: &HttpHandler,
    req: &Request,
    path: Seq<char>,
    mime: Seq<char>,
    digest: Seq<u8>,
    source: String,
)
    requires
        req.encoding.is_some(),
        after.same_setup(before),
        after.cache_fs@ == before.cache_fs@.insert(
            CacheKeyView { digest, encoding: req.encoding.unwrap().name@ },
            (source, false),
        ),
    ensures
        after.spec_handle_get_file_encoded(req, path, mime, digest) == StepView::Respond(
            before.file_raw(source@, mime).for_request(req.spec_is_head()),
        ),
{
    let key = CacheKeyView { digest, encoding: req.encoding.unwrap().name@ };
    assert(after.cache_fs@.contains_key(key));
    assert(after.cache_fs@[key] == (source, false));
}

/// Storing under one key touches no other: what is cached for other
/// content, or for the same content in another encoding, stays as it was,
/// and nothing that was cached is lost.
pub proof fn storing_touches_one_key<V>(cache: Map<CacheKeyView, V>, key: CacheKeyView, value: V, other: CacheKeyView)
    requires
        other.digest != key.digest || other.encoding != key.encoding,
    ensures
        cache.insert(key, value).contains_key(key) && cache.insert(key, value)[key] == value,
        cache.insert(key, value).contains_key(other) == cache.contains_key(other),
        cache.contains_key(other) ==> cache.insert(key, value)[other] == cache[other],
{
}

/// Two requests for a file with the same content, with the same encoding
/// negotiated, look under the same key of the cache and are answered alike,
/// however often they are made: looking a file up changes nothing.
pub proof fn same_request_selects_same_entry(
    h: &HttpHandler,
    first: &Request,
    second: &Request,
    path: Seq<char>,
    mime: Seq<char>,
    digest: Seq<u8>,
)
    requires
        first.encoding.deep_view() == second.encoding.deep_view(),
        first.spec_is_head() == second.spec_is_head(),
    ensures
        h.spec_handle_get_file_encoded(first, path, mime, digest) == h.spec_handle_get_file_encoded(
            second,
            path,
            mime,
            digest,
        ),
{
    if first.encoding.is_some() {
        let a = first.encoding.unwrap();
        let b = second.encoding.unwrap();
        assert(a.name@ == b.name@);
        assert(a.extension.deep_view() == b.extension.deep_view());
        assert(crate::encoding::artifact_extension(crate::outside::path_extension(path), &a)
            == crate::encoding::artifact_extension(crate::outside::path_extension(path), &b));
    }
}

/// A request for the bytes `from` to `to` of a file that has them is
/// answered with status 206 and exactly those bytes: `to - from + 1` of
/// them, as they stand in the file, with their span and their number in the
/// headers.
pub proof fn closed_range_serves_the_slice(
    h: &HttpHandler,
    req: &Request,
    path: Seq<char>,
    range: &Range,
    info: FileInfo,
    content: Seq<u8>,
    from: u64,
    to: u64,
)
    requires
        range matches Range::Bytes(specs) && specs@ == seq![ByteRangeSpec::FromTo(from, to)],
        from <= to < info.len,
        content.len() == info.len,
        !req.spec_is_head(),
    ensures
        h.spec_handle_get_file_range(req, path, range, info) matches StepView::Respond(r) && {
            &&& r.status == Status::PartialContent
            &&& r.body.bytes_from(content) == content.subrange(from as int, to + 1)
            &&& r.body.bytes_from(content).len() == to - from + 1
            &&& r.headers[2] == (HeaderView::ContentRange {
                first: from,
                last: to,
                instance_length: info.len,
            })
            &&& r.headers[3] == HeaderView::ContentLength((to - from + 1) as u64)
        },
{
    let step = h.spec_handle_get_file_range(req, path, range, info);
    assert(step == h.spec_handle_get_file_closed_range(req, path, from, to, info));
    let r = step->Respond_0;
    assert(r.body == BodyView::FileRange { path, first: from, last: to });
    assert(r.body.bytes_from(content) =~= content.subrange(from as int, to + 1));
}

/// A request for the bytes of a file from a place past its end on, or for
/// more bytes at its end than it has, is answered with status 204, no body,
/// and the file's true length in `Content-Range`.
pub proof fn range_past_the_end_is_empty(
    h: &HttpHandler,
    req: &Request,
    path: Seq<char>,
    range: &Range,
    info: FileInfo,
    from: u64,
)
    requires
        range matches Range::Bytes(specs) && (specs@ == seq![ByteRangeSpec::AllFrom(from)] || specs@
            == seq![ByteRangeSpec::Last(from)]),
        from > info.len,
    ensures
        h.spec_handle_get_file_range(req, path, range, info) matches StepView::Respond(r) && {
            &&& r.status == Status::NoContent
            &&& r.body == BodyView::Empty
            &&& r.body.bytes_from(Seq::empty()).len() == 0
            &&& r.headers[2] == (HeaderView::ContentRange {
                first: from,
                last: info.len,
                instance_length: info.len,
            })
        },
{
    let step = h.spec_handle_get_file_range(req, path, range, info);
    assert(step == h.spec_handle_get_file_empty_range(req, path, from, info.len, info));
}

/// A file that is uploaded can be fetched, replaced and deleted. An upload
/// is stored at the path its URL resolves to, with status 201 where nothing
/// was there and 204 where something was. Once the file is there, a `GET`
/// for the same path is answered with the file at that path, whole, and so
/// with the bytes that were stored; another upload replaces it with status
/// 204; a `DELETE` removes it with status 204. Once it is gone, a `GET` is
/// answered with status 404. What the file system holds after a step is the
/// caller's to bring about: `there` is what is found at the path once the
/// upload is stored, `gone` what is found once it is removed.
pub proof fn upload_round_trip(
    h: &HttpHandler,
    put: &Request,
    get: &Request,
    delete: &Request,
    resolved: &RequestPath,
    before: &PathState,
    there: &PathState,
    gone: &PathState,
    uploaded: Seq<u8>,
)
    requires
        h.writes_temp_dir.is_some(),
        crate::outside::path_file_name(resolved.path@).is_some(),
        !resolved.decode_error,
        !resolved.followed_symlink || h.follow_symlinks,
        put.method is Put && !put.has_content_range,
        get.method is Get && get.range.is_none() && get.encoding.is_none(),
        delete.method is Delete,
        !before.is_dir && !before.file_as_dir,
        there.exists && !there.is_dir && !there.file_as_dir,
        there.file matches Some(info) && info.len == uploaded.len(),
        !gone.exists,
    ensures
        h.spec_handle_resolved(put, resolved, before) matches StepView::Store { destination, response, .. }
            && destination == resolved.path@ && response.status == (if before.exists {
            Status::NoContent
        } else {
            Status::Created
        }),
        h.spec_handle_resolved(get, resolved, there) matches StepView::Respond(r) && r.status
            == Status::Success && r.body == BodyView::File(resolved.path@) && r.body.bytes_from(uploaded)
            == uploaded,
        h.spec_handle_resolved(put, resolved, there) matches StepView::Store { destination, response, .. }
            && destination == resolved.path@ && response.status == Status::NoContent,
        h.spec_handle_resolved(delete, resolved, there) matches StepView::Remove { path, recursive, response }
            && path == resolved.path@ && !recursive && response.status == Status::NoContent,
        h.spec_handle_resolved(get, resolved, gone) matches StepView::Render(page) && page.status
            == Status::NotFound,
{
}

/// Where symbolic links are not followed, a request whose path led through
/// one is answered with status 404, whatever is at the end of the path: a
/// `GET` or a `HEAD` always, a `DELETE` where writes are allowed.
pub proof fn symlink_is_not_found(h: &HttpHandler, req: &Request, resolved: &RequestPath, state: &PathState)
    requires
        !resolved.decode_error,
        resolved.followed_symlink,
        !h.follow_symlinks,
        req.method is Get || req.method is Head || (req.method is Delete && h.writes_temp_dir.is_some()),
    ensures
        h.spec_handle_resolved(req, resolved, state) == HttpHandler::spec_handle_nonexistant(req),
        h.spec_handle_resolved(req, resolved, state) matches StepView::Render(page) && page.status
            == Status::NotFound,
{
}

/// A request whose URL has a segment that does not decode is answered with
/// status 400 and a page that speaks of invalid UTF-8, whatever is at the
/// path: a `GET` or a `HEAD` always, a `PUT` or a `DELETE` where writes are
/// allowed.
pub proof fn undecodable_url_is_bad_request(
    h: &HttpHandler,
    req: &Request,
    resolved: &RequestPath,
    state: &PathState,
)
    requires
        resolved.decode_error,
        req.method is Get || req.method is Head || ((req.method is Put || req.method is Delete)
            && h.writes_temp_dir.is_some()),
    ensures
        h.spec_handle_resolved(req, resolved, state) matches StepView::Render(page) && {
            &&& page.status == Status::BadRequest
            &&& page.fields.len() == 3
            &&& contains_text(page.fields[2], "invalid UTF-8"@)
        },
{
    reveal_strlit("<p>Percent-encoding decoded to invalid UTF-8.</p>");
    reveal_strlit("invalid UTF-8");
    let hay = undecodable();
    let needle = "invalid UTF-8"@;
    assert(hay.subrange(31, 44) =~= needle);
    assert(crate::text::occurs_at(hay, needle, 31));
}

/// Whether each of the first `n` binds failed because its port was in use.
pub open spec fn all_in_use(outcomes: Seq<Option<String>>, n: int) -> bool {
    forall|j: int| 0 <= j < n ==> ((#[trigger] outcomes[j]) matches Some(m) && port_in_use(m@))
}

/// Ports that are in use are passed over one by one: after `n` of them the
/// scan stands at the port `n` further on.
pub proof fn ports_in_use_are_passed(port: u16, up_to: u16, outcomes: Seq<Option<String>>, n: int)
    requires
        0 <= n <= outcomes.len(),
        port + n <= up_to,
        all_in_use(outcomes, n),
    ensures
        port_scan(PortStepView::Try(port), up_to, outcomes) == port_scan(
            PortStepView::Try((port + n) as u16),
            up_to,
            outcomes.subrange(n, outcomes.len() as int),
        ),
    decreases n,
{
    if n == 0 {
        assert(outcomes.subrange(0, outcomes.len() as int) =~= outcomes);
    } else {
        let rest = outcomes.drop_first();
        assert(outcomes[0] matches Some(m) && port_in_use(m@));
        assert(spec_after_bind(port, up_to, outcomes[0].deep_view()) == PortStepView::Try((port + 1) as u16));
        assert forall|j: int| 0 <= j < n - 1 implies ((#[trigger] rest[j]) matches Some(m) && port_in_use(
            m@,
        )) by {
            assert(rest[j] == outcomes[j + 1]);
        }
        ports_in_use_are_passed((port + 1) as u16, up_to, rest, n - 1);
        assert(rest.subrange(n - 1, rest.len() as int) =~= outcomes.subrange(n, outcomes.len() as int));
    }
}

/// The server listens on the first port of the range that could be bound,
/// where every port before it was in use.
pub proof fn first_free_port_is_bound(from: u16, up_to: u16, outcomes: Seq<Option<String>>, n: int)
    requires
        0 <= n < outcomes.len(),
        from + n <= up_to,
        all_in_use(outcomes, n),
        outcomes[n].is_none(),
    ensures
        port_scan(spec_first_port(from, up_to), up_to, outcomes) == PortStepView::Bound((from + n) as u16),
{
    ports_in_use_are_passed(from, up_to, outcomes, n);
    let rest = outcomes.subrange(n, outcomes.len() as int);
    assert(rest[0] == outcomes[n]);
    let bound = PortStepView::Bound((from + n) as u16);
    assert(spec_after_bind((from + n) as u16, up_to, rest[0].deep_view()) == bound);
    assert(port_scan(bound, up_to, rest.drop_first()) == bound);
}

/// A bind that fails for another reason than its port being in use ends
/// the attempt in an error at once, whatever the binds after it would do.
pub proof fn other_failure_is_fatal(from: u16, up_to: u16, outcomes: Seq<Option<String>>, n: int)
    requires
        0 <= n < outcomes.len(),
        from + n <= up_to,
        all_in_use(outcomes, n),
        outcomes[n] matches Some(m) && !port_in_use(m@),
    ensures
        port_scan(spec_first_port(from, up_to), up_to, outcomes) == PortStepView::Failed(start_failed(None)),
{
    ports_in_use_are_passed(from, up_to, outcomes, n);
    let rest = outcomes.subrange(n, outcomes.len() as int);
    assert(rest[0] == outcomes[n]);
    let failed = PortStepView::Failed(start_failed(None));
    assert(spec_after_bind((from + n) as u16, up_to, rest[0].deep_view()) == failed);
    assert(port_scan(failed, up_to, rest.drop_first()) == failed);
}

/// When every port of the range was in use, the attempt ends in the error
/// that no port is free.
pub proof fn range_in_use_has_no_free_port(from: u16, up_to: u16, outcomes: Seq<Option<String>>)
    requires
        from <= up_to,
        outcomes.len() > up_to - from,
        all_in_use(outcomes, up_to - from + 1),
    ensures
        port_scan(spec_first_port(from, up_to), up_to, outcomes) == PortStepView::Failed(
            start_failed(Some("no free ports"@)),
        ),
{
    let n = up_to - from;
    ports_in_use_are_passed(from, up_to, outcomes, n);
    let rest = outcomes.subrange(n, outcomes.len() as int);
    assert(rest[0] == outcomes[n]);
    assert(outcomes[n] matches Some(m) && port_in_use(m@));
    let failed = PortStepView::Failed(start_failed(Some("no free ports"@)));
    assert(spec_after_bind(up_to, up_to, rest[0].deep_view()) == failed);
    assert(port_scan(failed, up_to, rest.drop_first()) == failed);
}

/// In a listing no file stands before a directory.
pub proof fn directories_are_listed_first(listed: Seq<DirEntry>, entries: Seq<DirEntry>, follow_symlinks: bool)
    requires
        is_listing_of(listed, entries, follow_symlinks),
    ensures
        forall|i: int, j: int| 0 <= i < j < listed.len() && listed[i].is_file ==> listed[j].is_file,
{
    assert forall|i: int, j: int| 0 <= i < j < listed.len() && listed[i].is_file implies listed[j].is_file by {
        assert(entry_order(listed[i], listed[j]) != Order::After);
    }
}

/// Following links keeps a decode error, and leaves it recorded that a link
/// was followed.
pub proof fn following_keeps_what_was_found(p: RequestPathView, targets: Seq<String>)
    ensures
        p.follow_all(targets).decode_error == p.decode_error,
        p.followed_symlink ==> p.follow_all(targets).followed_symlink,
        targets.len() > 0 ==> p.follow_all(targets).followed_symlink,
    decreases targets.len(),
{
    if targets.len() > 0 {
        following_keeps_what_was_found(p, targets.drop_last());
    }
}

/// A segment that does not decode is not forgotten: once resolution has
/// met one, the error stays whatever segments and links come after it. The
/// same holds of a symbolic link that was followed.
pub proof fn resolution_forgets_nothing(
    origin: RequestPathView,
    segments: Seq<Segment>,
    links: Seq<Vec<String>>,
    n: nat,
    m: nat,
)
    requires
        n <= m <= segments.len(),
    ensures
        origin.walk(segments, links, n).decode_error ==> origin.walk(segments, links, m).decode_error,
        origin.walk(segments, links, n).followed_symlink ==> origin.walk(segments, links, m).followed_symlink,
    decreases m - n,
{
    if n < m {
        resolution_forgets_nothing(origin, segments, links, n, (m - 1) as nat);
        let k = (m - 1) as int;
        let before = origin.walk(segments, links, (m - 1) as nat);
        if !(segments[k].raw@.len() == 0 || k >= links.len()) {
            following_keeps_what_was_found(before.append(segments[k]), links[k]@);
        }
    }
}

/// A segment that is not empty and does not decode leaves a decode error,
/// wherever in the path it stands.
pub proof fn undecodable_segment_is_recorded(
    origin: RequestPathView,
    segments: Seq<Segment>,
    links: Seq<Vec<String>>,
    k: int,
)
    requires
        0 <= k < segments.len(),
        segments[k].raw@.len() > 0,
        segments[k].decoded.is_none(),
    ensures
        origin.walk(segments, links, segments.len()).decode_error,
{
    let before = origin.walk(segments, links, k as nat);
    if k < links.len() {
        following_keeps_what_was_found(before.append(segments[k]), links[k]@);
    }
    assert(origin.walk(segments, links, (k + 1) as nat).decode_error);
    resolution_forgets_nothing(origin, segments, links, (k + 1) as nat, segments.len());
}

} // verus!
