//! Byte ranges: what a `Range` header asks of a file of a given length, and
//! the response for each shape of range.

use crate::encoding::{file_mime, mime_type_of};
use crate::model::{
    Body, BodyView, ByteRangeSpec, FileInfo, Header, HeaderView, Range, Request, Response, ResponseView,
    Step, StepView,
};
use crate::ops::HttpHandler;
use crate::pages::error_page;
use crate::status::Status;
use crate::text::{decimal, decimal_text};
use vstd::prelude::*;

verus! {

/// Why a range is not served.
#[derive(Clone, Copy, Debug, PartialEq, Eq, Structural)]
pub enum RangeFault {
    /// The header does not hold exactly one range.
    Multiple,
    /// The header counts in a unit other than bytes.
    CustomUnit,
}

/// What a `Range` header asks of a file.
#[derive(Clone, Copy, Debug, PartialEq, Eq, Structural)]
pub enum RangeSpec {
    /// The bytes from the first to the second, both inclusive.
    Closed(u64, u64),
    /// The bytes from this one to the end of the file.
    RightOpen(u64),
    /// This many bytes at the end of the file.
    LeftOpen(u64),
    /// No bytes: the range starts at or after the end of the file, or asks
    /// for more bytes than the file has. With what was asked for and the
    /// file's length.
    Empty(u64, u64),
    /// Nothing that can be served.
    Invalid(RangeFault),
}

impl RangeSpec {
    /// What `range` asks of a file of `len` bytes.
    pub open spec fn spec_classify(range: &Range, len: u64) -> RangeSpec {
        match range {
            Range::Bytes(specs) => if specs@.len() == 1 {
                match specs@[0] {
                    ByteRangeSpec::FromTo(from, to) => RangeSpec::Closed(from, to),
                    ByteRangeSpec::AllFrom(from) => if from >= len {
                        RangeSpec::Empty(from, len)
                    } else {
                        RangeSpec::RightOpen(from)
                    },
                    ByteRangeSpec::Last(count) => if count > len || len == 0 {
                        RangeSpec::Empty(count, len)
                    } else {
                        RangeSpec::LeftOpen(count)
                    },
                }
            } else {
                RangeSpec::Invalid(RangeFault::Multiple)
            },
            Range::Unregistered(_, _) => RangeSpec::Invalid(RangeFault::CustomUnit),
        }
    }

    /// What `range` asks of a file of `len` bytes.
    pub fn classify(range: &Range, len: u64) -> (r: RangeSpec)
        ensures
            r == Self::spec_classify(range, len),
    {
        match range {
            Range::Bytes(specs) => {
                if specs.len() == 1 {
                    match specs[0] {
                        ByteRangeSpec::FromTo(from, to) => RangeSpec::Closed(from, to),
                        ByteRangeSpec::AllFrom(from) => {
                            if from >= len {
                                RangeSpec::Empty(from, len)
                            } else {
                                RangeSpec::RightOpen(from)
                            }
                        },
                        ByteRangeSpec::Last(count) => {
                            if count > len || len == 0 {
                                RangeSpec::Empty(count, len)
                            } else {
                                RangeSpec::LeftOpen(count)
                            }
                        },
                    }
                } else {
                    RangeSpec::Invalid(RangeFault::Multiple)
                }
            },
            Range::Unregistered(_, _) => RangeSpec::Invalid(RangeFault::CustomUnit),
        }
    }
}

impl RangeFault {
    /// The sentence that tells a client of the fault.
    pub open spec fn reason(self) -> Seq<char> {
        match self {
            RangeFault::Multiple => "More than one range is unsupported."@,
            RangeFault::CustomUnit => "Custom ranges are unsupported."@,
        }
    }

    /// The sentence that tells a client of the fault.
    pub fn write_reason(self) -> (s: String)
        ensures
            s@ == self.reason(),
    {
        match self {
            RangeFault::Multiple => "More than one range is unsupported.".to_owned(),
            RangeFault::CustomUnit => "Custom ranges are unsupported.".to_owned(),
        }
    }
}

/// One range as a header writes it.
pub open spec fn byte_range_text(spec: ByteRangeSpec) -> Seq<char> {
    match spec {
        ByteRangeSpec::FromTo(from, to) => decimal_text(from as nat) + "-"@ + decimal_text(to as nat),
        ByteRangeSpec::AllFrom(from) => decimal_text(from as nat) + "-"@,
        ByteRangeSpec::Last(count) => "-"@ + decimal_text(count as nat),
    }
}

/// The first `n` ranges as a header writes them, with commas between them.
pub open spec fn byte_ranges_text(specs: Seq<ByteRangeSpec>, n: nat) -> Seq<char>
    decreases n,
{
    if n == 0 {
        Seq::empty()
    } else if n == 1 {
        byte_range_text(specs[0])
    } else {
        byte_ranges_text(specs, (n - 1) as nat) + ","@ + byte_range_text(specs[n - 1])
    }
}

/// A `Range` header's value as it is written.
pub open spec fn range_text(range: &Range) -> Seq<char> {
    match range {
        Range::Bytes(specs) => "bytes="@ + byte_ranges_text(specs@, specs@.len()),
        Range::Unregistered(unit, asked) => unit@ + "="@ + asked@,
    }
}

fn write_byte_range(spec: ByteRangeSpec) -> (s: String)
    ensures
        s@ == byte_range_text(spec),
{
    let mut s = String::new();
    match spec {
        ByteRangeSpec::FromTo(from, to) => {
            s.append(decimal(from).as_str());
            s.append("-");
            s.append(decimal(to).as_str());
        },
        ByteRangeSpec::AllFrom(from) => {
            s.append(decimal(from).as_str());
            s.append("-");
        },
        ByteRangeSpec::Last(count) => {
            s.append("-");
            s.append(decimal(count).as_str());
        },
    }
    assert(s@ =~= byte_range_text(spec));
    s
}

/// A `Range` header's value as it is written.
pub fn write_range(range: &Range) -> (s: String)
    ensures
        s@ == range_text(range),
{
    let mut s = String::new();
    match range {
        Range::Bytes(specs) => {
            let mut list = String::new();
            let mut i: usize = 0;
            while i < specs.len()
                invariant
                    i <= specs.len(),
                    list@ == byte_ranges_text(specs@, i as nat),
                decreases specs.len() - i,
            {
                if i > 0 {
                    list.append(",");
                }
                list.append(write_byte_range(specs[i]).as_str());
                assert(list@ =~= byte_ranges_text(specs@, (i + 1) as nat));
                i += 1;
            }
            s.append("bytes=");
            s.append(list.as_str());
        },
        Range::Unregistered(unit, asked) => {
            s.append(unit.as_str());
            s.append("=");
            s.append(asked.as_str());
        },
    }
    assert(s@ =~= range_text(range));
    s
}

/// The `Content-Length` header of the bytes from `from` to `to`, both
/// inclusive, where there are such bytes and a header can hold their number.
pub open spec fn closed_length(from: u64, to: u64) -> Seq<HeaderView> {
    if from <= to && to - from < u64::MAX {
        seq![HeaderView::ContentLength((to - from + 1) as u64)]
    } else {
        Seq::empty()
    }
}

impl HttpHandler {
    /// A closed range of a file: status 206, the bytes from `from` to `to`
    /// as the body, the span with the file's length in `Content-Range`, and
    /// the number of bytes in `Content-Length` where a header can hold it.
    pub open spec fn spec_handle_get_file_closed_range(
        &self,
        req: &Request,
        path: Seq<char>,
        from: u64,
        to: u64,
        info: FileInfo,
    ) -> StepView {
        StepView::Respond(
            (ResponseView {
                status: Status::PartialContent,
                headers: seq![
                    HeaderView::Server(self.user_agent@),
                    HeaderView::LastModified(path),
                    HeaderView::ContentRange { first: from, last: to, instance_length: info.len },
                ] + closed_length(from, to) + seq![
                    HeaderView::AcceptRanges,
                    HeaderView::ContentType(file_mime(path, info.binary)),
                ],
                body: BodyView::FileRange { path, first: from, last: to },
            }).for_request(req.spec_is_head()),
        )
    }

    /// Answers a request for the bytes `from` to `to` of a file.
    pub fn handle_get_file_closed_range(&self, req: &Request, req_p: &str, from: u64, to: u64, info: &FileInfo) -> (step: Step)
        ensures
            step@ == self.spec_handle_get_file_closed_range(req, req_p@, from, to, *info),
    {
        let mut headers: Vec<Header> = Vec::new();
        headers.push(Header::Server(self.user_agent.clone()));
        headers.push(Header::LastModified(req_p.to_owned()));
        headers.push(Header::ContentRange { first: from, last: to, instance_length: info.len });
        if from <= to && to - from < u64::MAX {
            headers.push(Header::ContentLength(to - from + 1));
        }
        headers.push(Header::AcceptRanges);
        headers.push(Header::ContentType(mime_type_of(req_p, info.binary)));
        assert(headers.deep_view() =~= seq![
            HeaderView::Server(self.user_agent@),
            HeaderView::LastModified(req_p@),
            HeaderView::ContentRange { first: from, last: to, instance_length: info.len },
        ] + closed_length(from, to) + seq![
            HeaderView::AcceptRanges,
            HeaderView::ContentType(file_mime(req_p@, info.binary)),
        ]);
        Step::Respond(
            (Response {
                status: Status::PartialContent,
                headers,
                body: Body::FileRange { path: req_p.to_owned(), first: from, last: to },
            }).for_request(req),
        )
    }

    /// A range that runs to the end of a file: status 206, the file from
    /// `offset` on as the body, the span from `first` to the last byte in
    /// `Content-Range`, and the number of bytes in `Content-Length`.
    pub open spec fn spec_handle_get_file_opened_range(
        &self,
        req: &Request,
        path: Seq<char>,
        offset: u64,
        first: u64,
        content_length: u64,
        mime: Seq<char>,
        len: u64,
    ) -> StepView {
        StepView::Respond(
            (ResponseView {
                status: Status::PartialContent,
                headers: seq![
                    HeaderView::Server(self.user_agent@),
                    HeaderView::LastModified(path),
                    HeaderView::ContentRange { first, last: (len - 1) as u64, instance_length: len },
                    HeaderView::ContentLength(content_length),
                    HeaderView::AcceptRanges,
                    HeaderView::ContentType(mime),
                ],
                body: BodyView::FileFrom { path, offset },
            }).for_request(req.spec_is_head()),
        )
    }

    /// Answers a request for a range that runs to the end of a file of `len`
    /// bytes, which is not empty.
    pub fn handle_get_file_opened_range(
        &self,
        req: &Request,
        req_p: &str,
        offset: u64,
        first: u64,
        content_length: u64,
        mt: String,
        len: u64,
    ) -> (step: Step)
        requires
            len > 0,
        ensures
            step@ == self.spec_handle_get_file_opened_range(
                req,
                req_p@,
                offset,
                first,
                content_length,
                mt@,
                len,
            ),
    {
        let mut headers: Vec<Header> = Vec::new();
        let ghost mime = mt@;
        headers.push(Header::Server(self.user_agent.clone()));
        headers.push(Header::LastModified(req_p.to_owned()));
        headers.push(Header::ContentRange { first, last: len - 1, instance_length: len });
        headers.push(Header::ContentLength(content_length));
        headers.push(Header::AcceptRanges);
        headers.push(Header::ContentType(mt));
        assert(headers.deep_view() =~= seq![
            HeaderView::Server(self.user_agent@),
            HeaderView::LastModified(req_p@),
            HeaderView::ContentRange { first, last: (len - 1) as u64, instance_length: len },
            HeaderView::ContentLength(content_length),
            HeaderView::AcceptRanges,
            HeaderView::ContentType(mime),
        ]);
        Step::Respond(
            (Response {
                status: Status::PartialContent,
                headers,
                body: Body::FileFrom { path: req_p.to_owned(), offset },
            }).for_request(req),
        )
    }

    /// The bytes of a file from `from` on: the span from `from` to the last
    /// byte, `len - from` bytes.
    pub open spec fn spec_handle_get_file_right_opened_range(
        &self,
        req: &Request,
        path: Seq<char>,
        from: u64,
        info: FileInfo,
    ) -> StepView {
        self.spec_handle_get_file_opened_range(
            req,
            path,
            from,
            from,
            (info.len - from) as u64,
            file_mime(path, info.binary),
            info.len,
        )
    }

    /// Answers a request for the bytes of a file from `from` on, where the
    /// file has such bytes.
    pub fn handle_get_file_right_opened_range(&self, req: &Request, req_p: &str, from: u64, info: &FileInfo) -> (step: Step)
        requires
            from < info.len,
        ensures
            step@ == self.spec_handle_get_file_right_opened_range(req, req_p@, from, *info),
    {
        let mime = mime_type_of(req_p, info.binary);
        self.handle_get_file_opened_range(req, req_p, from, from, info.len - from, mime, info.len)
    }

    /// The last `count` bytes of a file: the span from `len - count` to the
    /// last byte, `count` bytes.
    pub open spec fn spec_handle_get_file_left_opened_range(
        &self,
        req: &Request,
        path: Seq<char>,
        count: u64,
        info: FileInfo,
    ) -> StepView {
        self.spec_handle_get_file_opened_range(
            req,
            path,
            (info.len - count) as u64,
            (info.len - count) as u64,
            count,
            file_mime(path, info.binary),
            info.len,
        )
    }

    /// Answers a request for the last `count` bytes of a file that is not
    /// empty and has that many.
    pub fn handle_get_file_left_opened_range(&self, req: &Request, req_p: &str, count: u64, info: &FileInfo) -> (step: Step)
        requires
            count <= info.len,
            info.len > 0,
        ensures
            step@ == self.spec_handle_get_file_left_opened_range(req, req_p@, count, *info),
    {
        let mime = mime_type_of(req_p, info.binary);
        self.handle_get_file_opened_range(
            req,
            req_p,
            info.len - count,
            info.len - count,
            count,
            mime,
            info.len,
        )
    }

    /// A range that holds no byte of the file: status 204, no body, and what
    /// was asked for with the file's length in `Content-Range`.
    pub open spec fn spec_handle_get_file_empty_range(
        &self,
        req: &Request,
        path: Seq<char>,
        from: u64,
        to: u64,
        info: FileInfo,
    ) -> StepView {
        StepView::Respond(
            ResponseView {
                status: Status::NoContent,
                headers: seq![
                    HeaderView::Server(self.user_agent@),
                    HeaderView::LastModified(path),
                    HeaderView::ContentRange { first: from, last: to, instance_length: info.len },
                    HeaderView::AcceptRanges,
                    HeaderView::ContentType(file_mime(path, info.binary)),
                ],
                body: BodyView::Empty,
            },
        )
    }

    /// Answers a request for a range that holds no byte of the file.
    pub fn handle_get_file_empty_range(&self, req: &Request, req_p: &str, from: u64, to: u64, info: &FileInfo) -> (step: Step)
        ensures
            step@ == self.spec_handle_get_file_empty_range(req, req_p@, from, to, *info),
    {
        let mut headers: Vec<Header> = Vec::new();
        headers.push(Header::Server(self.user_agent.clone()));
        headers.push(Header::LastModified(req_p.to_owned()));
        headers.push(Header::ContentRange { first: from, last: to, instance_length: info.len });
        headers.push(Header::AcceptRanges);
        headers.push(Header::ContentType(mime_type_of(req_p, info.binary)));
        assert(headers.deep_view() =~= seq![
            HeaderView::Server(self.user_agent@),
            HeaderView::LastModified(req_p@),
            HeaderView::ContentRange { first: from, last: to, instance_length: info.len },
            HeaderView::AcceptRanges,
            HeaderView::ContentType(file_mime(req_p@, info.binary)),
        ]);
        Step::Respond(Response { status: Status::NoContent, headers, body: Body::Empty })
    }

    /// A range that cannot be served: status 416, naming the range, the file
    /// and the reason.
    pub open spec fn spec_handle_invalid_range(path: Seq<char>, range: &Range, reason: Seq<char>) -> StepView {
        error_page(
            Status::RangeNotSatisfiable,
            "416 Range Not Satisfiable"@,
            "Requested range <samp>"@ + range_text(range) + "</samp> could not be fullfilled for file "@
                + path + "."@,
            reason,
            None,
        )
    }

    /// Answers a request for a range that cannot be served with status 416.
    pub fn handle_invalid_range(&self, req: &Request, req_p: &str, range: &Range, reason: &str) -> (step: Step)
        ensures
            step@ == Self::spec_handle_invalid_range(req_p@, range, reason@),
    {
        let mut summary = String::new();
        summary.append("Requested range <samp>");
        summary.append(write_range(range).as_str());
        summary.append("</samp> could not be fullfilled for file ");
        summary.append(req_p);
        summary.append(".");
        assert(summary@ =~= "Requested range <samp>"@ + range_text(range)
            + "</samp> could not be fullfilled for file "@ + req_p@ + "."@);
        crate::pages::render_error(
            Status::RangeNotSatisfiable,
            "416 Range Not Satisfiable".to_owned(),
            summary,
            reason.to_owned(),
            None,
        )
    }

    /// What a request for a range of a file is answered with, by what the
    /// range asks of a file of that length.
    pub open spec fn spec_handle_get_file_range(&self, req: &Request, path: Seq<char>, range: &Range, info: FileInfo) -> StepView {
        match RangeSpec::spec_classify(range, info.len) {
            RangeSpec::Closed(from, to) => self.spec_handle_get_file_closed_range(req, path, from, to, info),
            RangeSpec::RightOpen(from) => self.spec_handle_get_file_right_opened_range(req, path, from, info),
            RangeSpec::LeftOpen(count) => self.spec_handle_get_file_left_opened_range(req, path, count, info),
            RangeSpec::Empty(from, to) => self.spec_handle_get_file_empty_range(req, path, from, to, info),
            RangeSpec::Invalid(fault) => Self::spec_handle_invalid_range(path, range, fault.reason()),
        }
    }

    /// Answers a request for a range of a file.
    pub fn handle_get_file_range(&self, req: &Request, req_p: &str, range: &Range, info: &FileInfo) -> (step: Step)
        ensures
            step@ == self.spec_handle_get_file_range(req, req_p@, range, *info),
    {
        match RangeSpec::classify(range, info.len) {
            RangeSpec::Closed(from, to) => self.handle_get_file_closed_range(req, req_p, from, to, info),
            RangeSpec::RightOpen(from) => self.handle_get_file_right_opened_range(req, req_p, from, info),
            RangeSpec::LeftOpen(count) => self.handle_get_file_left_opened_range(req, req_p, count, info),
            RangeSpec::Empty(from, to) => self.handle_get_file_empty_range(req, req_p, from, to, info),
            RangeSpec::Invalid(fault) => self.handle_invalid_range(
                req,
                req_p,
                range,
                fault.write_reason().as_str(),
            ),
        }
    }
}

} // verus!
