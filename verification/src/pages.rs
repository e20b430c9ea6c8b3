//! The error pages: for each way a request can fail, the status and the three
//! fields of the page that says so.

use crate::model::{Method, MethodView, Page, PageView, Request, Step, StepView, Template};
use crate::ops::HttpHandler;
use crate::status::Status;
use vstd::prelude::*;

verus! {

/// The step that renders an error page with these fields.
pub open spec fn error_page(
    status: Status,
    title: Seq<char>,
    summary: Seq<char>,
    detail: Seq<char>,
    allow: Option<Seq<MethodView>>,
) -> StepView {
    StepView::Render(
        PageView { status, template: Template::Error, fields: seq![title, summary, detail], allow },
    )
}

pub(crate) fn render_error(status: Status, title: String, summary: String, detail: String, allow: Option<Vec<Method>>) -> (step: Step)
    ensures
        step@ == error_page(status, title@, summary@, detail@, allow.deep_view()),
{
    let mut fields: Vec<String> = Vec::new();
    let ghost expected = seq![title@, summary@, detail@];
    fields.push(title);
    fields.push(summary);
    fields.push(detail);
    assert(fields.deep_view() =~= expected);
    Step::Render(Page { status, template: Template::Error, fields, allow })
}

/// What separates the name at place `i` of a list of `n` names from the
/// next: a comma, with "and" before the last name, and nothing after it.
pub open spec fn name_separator(i: int, n: int) -> Seq<char> {
    if i == n - 2 {
        ", and "@
    } else if i == n - 1 {
        Seq::empty()
    } else {
        ", "@
    }
}

/// The first `n` of `methods` by name, each followed by what separates it
/// from the next.
pub open spec fn method_names(methods: Seq<MethodView>, n: nat) -> Seq<char>
    decreases n,
{
    if n == 0 {
        Seq::empty()
    } else {
        method_names(methods, (n - 1) as nat) + methods[n - 1].name() + name_separator(
            n - 1,
            methods.len() as int,
        )
    }
}

/// The methods by name, as a sentence lists them.
pub fn write_method_names(methods: &Vec<Method>) -> (s: String)
    ensures
        s@ == method_names(methods.deep_view(), methods@.len()),
{
    let mut s = String::new();
    let mut i: usize = 0;
    let n: usize = methods.len();
    while i < n
        invariant
            i <= n,
            n == methods@.len(),
            s@ == method_names(methods.deep_view(), i as nat),
        decreases n - i,
    {
        assert(methods.deep_view()[i as int] == methods@[i as int]@);
        let ghost before = s@;
        s.append(methods[i].name().as_str());
        if n >= 2 && i == n - 2 {
            s.append(", and ");
        } else if i == n - 1 {
        } else {
            s.append(", ");
        }
        assert(s@ =~= before + methods.deep_view()[i as int].name() + name_separator(i as int, n as int));
        i += 1;
    }
    s
}

impl HttpHandler {
    /// A URL that cannot be served, and why: status 400.
    pub open spec fn spec_handle_invalid_url(cause: Seq<char>) -> StepView {
        error_page(Status::BadRequest, "400 Bad Request"@, "The request URL was invalid."@, cause, None)
    }

    /// Answers a URL that cannot be served with status 400 and the cause.
    pub fn handle_invalid_url(&self, req: &Request, cause: &str) -> (step: Step)
        ensures
            step@ == Self::spec_handle_invalid_url(cause@),
    {
        render_error(
            Status::BadRequest,
            "400 Bad Request".to_owned(),
            "The request URL was invalid.".to_owned(),
            cause.to_owned(),
            None,
        )
    }

    /// Nothing to serve at the URL: status 404, naming the URL's path.
    pub open spec fn spec_handle_nonexistant(req: &Request) -> StepView {
        error_page(
            Status::NotFound,
            "404 Not Found"@,
            "The requested entity \""@ + req.url_path@ + "\" doesn't exist."@,
            Seq::empty(),
            None,
        )
    }

    /// Answers a request for what does not exist with status 404.
    pub fn handle_nonexistant(&self, req: &Request) -> (step: Step)
        ensures
            step@ == Self::spec_handle_nonexistant(req),
    {
        let mut summary = String::new();
        summary.append("The requested entity \"");
        summary.append(req.url_path.as_str());
        summary.append("\" doesn't exist.");
        assert(summary@ =~= "The requested entity \""@ + req.url_path@ + "\" doesn't exist."@);
        render_error(Status::NotFound, "404 Not Found".to_owned(), summary, String::new(), None)
    }

    /// A method that what the URL names does not take: status 405, with the
    /// methods it does take, in the page and in an `Allow` header.
    pub open spec fn spec_handle_disallowed_method(req: &Request, allowed: Seq<MethodView>, tpe: Seq<char>) -> StepView {
        error_page(
            Status::MethodNotAllowed,
            "405 Method Not Allowed"@,
            "Can't "@ + req.method@.name() + " on a "@ + tpe + "."@,
            "<p>Allowed methods: "@ + method_names(allowed, allowed.len()) + "</p>"@,
            Some(allowed),
        )
    }

    /// Answers a method that what the URL names does not take with status
    /// 405 and the methods it does take.
    pub fn handle_disallowed_method(&self, req: &Request, allowed: Vec<Method>, tpe: &str) -> (step: Step)
        ensures
            step@ == Self::spec_handle_disallowed_method(req, allowed.deep_view(), tpe@),
    {
        let mut summary = String::new();
        summary.append("Can't ");
        summary.append(req.method.name().as_str());
        summary.append(" on a ");
        summary.append(tpe);
        summary.append(".");
        assert(summary@ =~= "Can't "@ + req.method@.name() + " on a "@ + tpe@ + "."@);
        let mut detail = String::new();
        detail.append("<p>Allowed methods: ");
        detail.append(write_method_names(&allowed).as_str());
        detail.append("</p>");
        assert(detail@ =~= "<p>Allowed methods: "@ + method_names(
            allowed.deep_view(),
            allowed.deep_view().len(),
        ) + "</p>"@);
        render_error(
            Status::MethodNotAllowed,
            "405 Method Not Allowed".to_owned(),
            summary,
            detail,
            Some(allowed),
        )
    }

    /// An upload of part of a file: status 400.
    pub open spec fn spec_handle_put_partial_content() -> StepView {
        error_page(
            Status::BadRequest,
            "400 Bad Request"@,
            "<a href=\"https://tools.ietf.org/html/rfc7231#section-4.3.3\">RFC7231 forbids partial-content PUT requests.</a>"@,
            Seq::empty(),
            None,
        )
    }

    /// Answers an upload that carries a `Content-Range` with status 400.
    pub fn handle_put_partial_content(&self, req: &Request) -> (step: Step)
        ensures
            step@ == Self::spec_handle_put_partial_content(),
    {
        render_error(
            Status::BadRequest,
            "400 Bad Request".to_owned(),
            "<a href=\"https://tools.ietf.org/html/rfc7231#section-4.3.3\">RFC7231 forbids partial-content PUT requests.</a>".to_owned(),
            String::new(),
            None,
        )
    }

    /// A method that is switched off: status 403, naming the switch that
    /// turns it on and what it turns on.
    pub open spec fn spec_handle_forbidden_method(switch: Seq<char>, desc: Seq<char>) -> StepView {
        error_page(
            Status::Forbidden,
            "403 Forbidden"@,
            "This feature is currently disabled."@,
            "<p>Ask the server administrator to pass <samp>"@ + switch
                + "</samp> to the executable to enable support for "@ + desc + ".</p>"@,
            None,
        )
    }

    /// Answers a method that is switched off with status 403.
    pub fn handle_forbidden_method(&self, req: &Request, switch: &str, desc: &str) -> (step: Step)
        ensures
            step@ == Self::spec_handle_forbidden_method(switch@, desc@),
    {
        let mut detail = String::new();
        detail.append("<p>Ask the server administrator to pass <samp>");
        detail.append(switch);
        detail.append("</samp> to the executable to enable support for ");
        detail.append(desc);
        detail.append(".</p>");
        assert(detail@ =~= "<p>Ask the server administrator to pass <samp>"@ + switch@
            + "</samp> to the executable to enable support for "@ + desc@ + ".</p>"@);
        render_error(
            Status::Forbidden,
            "403 Forbidden".to_owned(),
            "This feature is currently disabled.".to_owned(),
            detail,
            None,
        )
    }

    /// A method the server does not know: status 501, naming the method and
    /// the six that are served.
    pub open spec fn spec_handle_bad_method(req: &Request) -> StepView {
        error_page(
            Status::NotImplemented,
            "501 Not Implemented"@,
            "This operation was not implemented."@,
            "<p>Unsupported request method: "@ + req.method@.name()
                + ".<br />\nSupported methods: OPTIONS, GET, PUT, DELETE, HEAD and TRACE.</p>"@,
            None,
        )
    }

    /// Answers a method the server does not know with status 501.
    pub fn handle_bad_method(&self, req: &Request) -> (step: Step)
        ensures
            step@ == Self::spec_handle_bad_method(req),
    {
        let mut detail = String::new();
        detail.append("<p>Unsupported request method: ");
        detail.append(req.method.name().as_str());
        detail.append(".<br />\nSupported methods: OPTIONS, GET, PUT, DELETE, HEAD and TRACE.</p>");
        assert(detail@ =~= "<p>Unsupported request method: "@ + req.method@.name()
            + ".<br />\nSupported methods: OPTIONS, GET, PUT, DELETE, HEAD and TRACE.</p>"@);
        render_error(
            Status::NotImplemented,
            "501 Not Implemented".to_owned(),
            "This operation was not implemented.".to_owned(),
            detail,
            None,
        )
    }
}

} // verus!
