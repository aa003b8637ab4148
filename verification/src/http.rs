//! The HTTP requests the connectors ask to be made, and the steps of a tool call: either a
//! request to send (whose response comes back as the next input) or the final outcome.
use vstd::prelude::*;

verus! {

/// HTTP methods used by the connectors.
#[derive(Clone, Copy, PartialEq, Eq, Structural)]
pub enum Method {
    Get,
    Post,
    Patch,
    Put,
    Delete,
}

/// A request to make on behalf of a tool call.
pub struct HttpRequest {
    pub method: Method,
    pub url: String,
    /// The body, if any: JSON text (`application/json`), or a form when `form` is set.
    pub body: Option<String>,
    /// Whether the body is `application/x-www-form-urlencoded`.
    pub form: bool,
    /// Whether the connector's credentials go with the request.
    pub authenticated: bool,
    /// Whether a response that is not JSON reads as `{"status":"triggered"}` rather than
    /// failing the call.
    pub lenient: bool,
    /// Whether only the status of the response is read: it comes back as
    /// `{"success": <2xx>, "status": "<code and reason>"}` in place of the body. Together with
    /// `raw_text`, the body is read too: it comes back as the text member `text` (empty when it
    /// cannot be read), with a member `invalid_json` holding the JSON parser's message when that
    /// text is not JSON.
    pub status_only: bool,
    /// Whether the request is only tried: its parsed response comes back as the one element of
    /// an array, and a failure, or a response that is not JSON, as an empty array.
    pub best_effort: bool,
    /// Whether a `204 No Content` response reads as `{"success": true}`.
    pub no_content: bool,
    /// Whether the body is read as text: it comes back as a JSON string, unparsed.
    pub raw_text: bool,
    /// A bearer token that goes with the request in place of the connector's credentials.
    pub bearer: Option<String>,
}

/// The next step of a tool call.
pub enum Step {
    Send(HttpRequest),
    Done(Result<String, String>),
}

/// A request, with its texts as character sequences.
pub struct RequestView {
    pub method: Method,
    pub url: Seq<char>,
    pub body: Option<Seq<char>>,
    pub form: bool,
    pub authenticated: bool,
    pub lenient: bool,
    pub status_only: bool,
    pub best_effort: bool,
    pub no_content: bool,
    pub raw_text: bool,
    pub bearer: Option<Seq<char>>,
}

/// A step, with its texts as character sequences.
pub enum StepView {
    Send(RequestView),
    Done(Result<Seq<char>, Seq<char>>),
}

impl View for Step {
    type V = StepView;

    open spec fn view(&self) -> StepView {
        match self {
            Step::Send(r) => StepView::Send(
                RequestView {
                    method: r.method,
                    url: r.url@,
                    body: match r.body {
                        Some(b) => Some(b@),
                        None => None,
                    },
                    form: r.form,
                    authenticated: r.authenticated,
                    lenient: r.lenient,
                    status_only: r.status_only,
                    best_effort: r.best_effort,
                    no_content: r.no_content,
                    raw_text: r.raw_text,
                    bearer: match r.bearer {
                        Some(t) => Some(t@),
                        None => None,
                    },
                },
            ),
            Step::Done(Ok(t)) => StepView::Done(Ok(t@)),
            Step::Done(Err(e)) => StepView::Done(Err(e@)),
        }
    }
}

/// An authenticated request with a JSON body or none.
pub open spec fn send_view(method: Method, url: Seq<char>, body: Option<Seq<char>>) -> StepView {
    StepView::Send(
        RequestView {
            method,
            url,
            body,
            form: false,
            authenticated: true,
            lenient: false,
            status_only: false,
            best_effort: false,
            no_content: false,
            raw_text: false,
            bearer: None,
        },
    )
}

/// An authenticated `POST` of a form.
pub open spec fn form_view(url: Seq<char>, body: Seq<char>) -> StepView {
    StepView::Send(
        RequestView {
            method: Method::Post,
            url,
            body: Some(body),
            form: true,
            authenticated: true,
            lenient: false,
            status_only: false,
            best_effort: false,
            no_content: false,
            raw_text: false,
            bearer: None,
        },
    )
}

/// An authenticated request without a body whose response is read for its status alone.
pub open spec fn status_view(method: Method, url: Seq<char>) -> StepView {
    StepView::Send(
        RequestView {
            method,
            url,
            body: None,
            form: false,
            authenticated: true,
            lenient: false,
            status_only: true,
            best_effort: false,
            no_content: false,
            raw_text: false,
            bearer: None,
        },
    )
}

/// A failed outcome.
pub open spec fn fail_view(e: Seq<char>) -> StepView {
    StepView::Done(Err(e))
}

/// A successful outcome.
pub open spec fn ok_view(t: Seq<char>) -> StepView {
    StepView::Done(Ok(t))
}

/// An authenticated request step.
pub fn send(method: Method, url: String, body: Option<String>) -> (s: Step)
    ensures
        s@ == send_view(
            method,
            url@,
            match body {
                Some(b) => Some(b@),
                None => None,
            },
        ),
{
    Step::Send(
        HttpRequest {
            method,
            url,
            body,
            form: false,
            authenticated: true,
            lenient: false,
            status_only: false,
            best_effort: false,
            no_content: false,
            raw_text: false,
            bearer: None,
        },
    )
}

/// An authenticated form `POST` step.
pub fn send_form(url: String, body: String) -> (s: Step)
    ensures
        s@ == form_view(url@, body@),
{
    Step::Send(
        HttpRequest {
            method: Method::Post,
            url,
            body: Some(body),
            form: true,
            authenticated: true,
            lenient: false,
            status_only: false,
            best_effort: false,
            no_content: false,
            raw_text: false,
            bearer: None,
        },
    )
}

/// An authenticated step that reads the status of the response alone.
pub fn send_status(method: Method, url: String) -> (s: Step)
    ensures
        s@ == status_view(method, url@),
{
    Step::Send(
        HttpRequest {
            method,
            url,
            body: None,
            form: false,
            authenticated: true,
            lenient: false,
            status_only: true,
            best_effort: false,
            no_content: false,
            raw_text: false,
            bearer: None,
        },
    )
}


/// An authenticated request without a body whose status and text are read (see `status_only`).
pub open spec fn status_text_view(method: Method, url: Seq<char>) -> StepView {
    StepView::Send(
        RequestView {
            method,
            url,
            body: None,
            form: false,
            authenticated: true,
            lenient: false,
            status_only: true,
            best_effort: false,
            no_content: false,
            raw_text: true,
            bearer: None,
        },
    )
}

/// An authenticated step whose response is read for its status and text.
pub fn send_status_text(method: Method, url: String) -> (s: Step)
    ensures
        s@ == status_text_view(method, url@),
{
    Step::Send(
        HttpRequest {
            method,
            url,
            body: None,
            form: false,
            authenticated: true,
            lenient: false,
            status_only: true,
            best_effort: false,
            no_content: false,
            raw_text: true,
            bearer: None,
        },
    )
}

/// An authenticated request without a body whose outcome is not read.
pub open spec fn best_effort_view(method: Method, url: Seq<char>) -> StepView {
    StepView::Send(
        RequestView {
            method,
            url,
            body: None,
            form: false,
            authenticated: true,
            lenient: false,
            status_only: false,
            best_effort: true,
            no_content: false,
            raw_text: false,
            bearer: None,
        },
    )
}

/// An authenticated step whose outcome is not read.
pub fn send_best_effort(method: Method, url: String) -> (s: Step)
    ensures
        s@ == best_effort_view(method, url@),
{
    Step::Send(
        HttpRequest {
            method,
            url,
            body: None,
            form: false,
            authenticated: true,
            lenient: false,
            status_only: false,
            best_effort: true,
            no_content: false,
            raw_text: false,
            bearer: None,
        },
    )
}

/// An authenticated request whose `204 No Content` response reads as `{"success": true}`.
pub open spec fn no_content_view(method: Method, url: Seq<char>, body: Option<Seq<char>>) -> StepView {
    StepView::Send(
        RequestView {
            method,
            url,
            body,
            form: false,
            authenticated: true,
            lenient: false,
            status_only: false,
            best_effort: false,
            no_content: true,
            raw_text: false,
            bearer: None,
        },
    )
}

/// An authenticated step whose `204 No Content` response reads as `{"success": true}`.
pub fn send_no_content(method: Method, url: String, body: Option<String>) -> (s: Step)
    ensures
        s@ == no_content_view(
            method,
            url@,
            match body {
                Some(b) => Some(b@),
                None => None,
            },
        ),
{
    Step::Send(
        HttpRequest {
            method,
            url,
            body,
            form: false,
            authenticated: true,
            lenient: false,
            status_only: false,
            best_effort: false,
            no_content: true,
            raw_text: false,
            bearer: None,
        },
    )
}

/// An authenticated `GET` whose response is read as text.
pub open spec fn text_view(url: Seq<char>) -> StepView {
    StepView::Send(
        RequestView {
            method: Method::Get,
            url,
            body: None,
            form: false,
            authenticated: true,
            lenient: false,
            status_only: false,
            best_effort: false,
            no_content: false,
            raw_text: true,
            bearer: None,
        },
    )
}

/// An authenticated `GET` step whose response is read as text.
pub fn send_text(url: String) -> (s: Step)
    ensures
        s@ == text_view(url@),
{
    Step::Send(
        HttpRequest {
            method: Method::Get,
            url,
            body: None,
            form: false,
            authenticated: true,
            lenient: false,
            status_only: false,
            best_effort: false,
            no_content: false,
            raw_text: true,
            bearer: None,
        },
    )
}

/// An authenticated request with a JSON body that is only tried (see `best_effort`).
pub open spec fn fallible_view(method: Method, url: Seq<char>, body: Seq<char>) -> StepView {
    StepView::Send(
        RequestView {
            method,
            url,
            body: Some(body),
            form: false,
            authenticated: true,
            lenient: false,
            status_only: false,
            best_effort: true,
            no_content: false,
            raw_text: false,
            bearer: None,
        },
    )
}

/// An authenticated step with a JSON body that is only tried (see `best_effort`).
pub fn send_fallible(method: Method, url: String, body: String) -> (s: Step)
    ensures
        s@ == fallible_view(method, url@, body@),
{
    Step::Send(
        HttpRequest {
            method,
            url,
            body: Some(body),
            form: false,
            authenticated: true,
            lenient: false,
            status_only: false,
            best_effort: true,
            no_content: false,
            raw_text: false,
            bearer: None,
        },
    )
}

} // verus!
