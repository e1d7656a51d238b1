//! What is asked of the remote service and what its answers mean. Nothing here touches
//! the network: a request is described, and an answer that was received is judged.

use crate::record::{AutofillDataRef, AutofillView, RequestedAutofillFields};
use crate::wire::{record_text, text_mask, WireError, WireErrorView};
use vstd::prelude::*;

verus! {

/// The address under which the remote service keeps its requests.
pub const BASE_URL: &'static str = "https://absher-zt.vrtgs.xyz/requests/";

/// The address that the `url` crate gives for a reference resolved against a base, both
/// taken as texts; or the message of its refusal.
pub uninterp spec fn resolved_url(base: Seq<char>, reference: Seq<char>) -> Result<
    Seq<char>,
    Seq<char>,
>;

/// `url::Url::parse` on the base, then `url::Url::join` with the reference: the text of
/// the address that comes out, or the message of the error of whichever of the two
/// refused.
#[verifier::external_body]
fn resolve_url(base: &str, reference: &str) -> (r: Result<String, String>)
    ensures
        match r {
            Ok(address) => resolved_url(base@, reference@) == Ok::<Seq<char>, Seq<char>>(
                address@,
            ),
            Err(message) => resolved_url(base@, reference@) == Err::<Seq<char>, Seq<char>>(
                message@,
            ),
        },
{
    url::Url::parse(base).and_then(|b| b.join(reference)).map(String::from).map_err(
        |e| e.to_string(),
    )
}

/// How a request is made.
#[derive(Clone, Copy, Debug, PartialEq, Eq, Structural)]
pub enum Method {
    Get,
    Post,
}

/// One request to the remote service.
#[derive(Debug)]
pub struct HttpRequest {
    pub method: Method,
    pub url: String,
    /// The JSON text to send, if any.
    pub body: Option<String>,
}

/// What a request says.
pub struct HttpRequestView {
    pub method: Method,
    pub url: Seq<char>,
    pub body: Option<Seq<char>>,
}

impl View for HttpRequest {
    type V = HttpRequestView;

    open spec fn view(&self) -> HttpRequestView {
        HttpRequestView {
            method: self.method,
            url: self.url@,
            body: match self.body {
                Some(text) => Some(text@),
                None => None,
            },
        }
    }
}

/// What came of one request.
#[derive(Debug)]
pub enum HttpReply {
    /// The service answered.
    Answer { status: u16, body: String },
    /// No answer came; the transport's message.
    Failure(String),
}

/// What a reply says.
pub enum HttpReplyView {
    Answer { status: u16, body: Seq<char> },
    Failure(Seq<char>),
}

impl View for HttpReply {
    type V = HttpReplyView;

    open spec fn view(&self) -> HttpReplyView {
        match self {
            HttpReply::Answer { status, body } => HttpReplyView::Answer {
                status: *status,
                body: body@,
            },
            HttpReply::Failure(message) => HttpReplyView::Failure(message@),
        }
    }
}

/// Why a command that speaks to the remote service failed.
#[derive(Debug)]
pub enum GatewayError {
    /// The code gives no address; the message of the refusal.
    Url(String),
    /// No answer came; the transport's message.
    Transport(String),
    /// The service answered with a status that is no success.
    Status(u16),
    /// The answer's body is no mask.
    Body(WireError),
}

/// What a `GatewayError` says.
pub enum GatewayErrorView {
    Url(Seq<char>),
    Transport(Seq<char>),
    Status(u16),
    Body(WireErrorView),
}

impl View for GatewayError {
    type V = GatewayErrorView;

    open spec fn view(&self) -> GatewayErrorView {
        match self {
            GatewayError::Url(message) => GatewayErrorView::Url(message@),
            GatewayError::Transport(message) => GatewayErrorView::Transport(message@),
            GatewayError::Status(status) => GatewayErrorView::Status(*status),
            GatewayError::Body(e) => GatewayErrorView::Body(e@),
        }
    }
}

/// One decimal digit as a text.
pub open spec fn digit_text(d: nat) -> Seq<char> {
    if d == 0 {
        "0"@
    } else if d == 1 {
        "1"@
    } else if d == 2 {
        "2"@
    } else if d == 3 {
        "3"@
    } else if d == 4 {
        "4"@
    } else if d == 5 {
        "5"@
    } else if d == 6 {
        "6"@
    } else if d == 7 {
        "7"@
    } else if d == 8 {
        "8"@
    } else {
        "9"@
    }
}

/// A number in decimal digits, without leading zeros.
pub open spec fn decimal(n: nat) -> Seq<char>
    decreases n,
{
    if n < 10 {
        digit_text(n)
    } else {
        decimal(n / 10) + digit_text(n % 10)
    }
}

fn digit(d: u16) -> (r: &'static str)
    requires
        d < 10,
    ensures
        r@ == digit_text(d as nat),
{
    if d == 0 {
        "0"
    } else if d == 1 {
        "1"
    } else if d == 2 {
        "2"
    } else if d == 3 {
        "3"
    } else if d == 4 {
        "4"
    } else if d == 5 {
        "5"
    } else if d == 6 {
        "6"
    } else if d == 7 {
        "7"
    } else if d == 8 {
        "8"
    } else {
        "9"
    }
}

fn decimal_text(n: u16) -> (r: String)
    ensures
        r@ == decimal(n as nat),
    decreases n,
{
    if n < 10 {
        digit(n).to_owned()
    } else {
        decimal_text(n / 10).concat(digit(n % 10))
    }
}

impl GatewayErrorView {
    /// The error in words.
    pub open spec fn message(self) -> Seq<char> {
        match self {
            GatewayErrorView::Url(message) => message,
            GatewayErrorView::Transport(message) => message,
            GatewayErrorView::Status(status) => "HTTP status "@ + decimal(status as nat),
            GatewayErrorView::Body(e) => e.message(),
        }
    }
}

impl GatewayError {
    /// The error in words, as a command reports it.
    pub fn message(&self) -> (r: String)
        ensures
            r@ == self@.message(),
    {
        match self {
            GatewayError::Url(message) => message.clone(),
            GatewayError::Transport(message) => message.clone(),
            GatewayError::Status(status) => {
                let digits = decimal_text(*status);
                "HTTP status ".to_owned().concat(digits.as_str())
            },
            GatewayError::Body(e) => e.message(),
        }
    }
}

/// Whether a status is a success: 200 to 299.
pub open spec fn is_success(status: u16) -> bool {
    200 <= status < 300
}

/// The address of the request with this code, or why the code gives none.
pub open spec fn request_address(code: Seq<char>) -> Result<Seq<char>, GatewayErrorView> {
    match resolved_url(BASE_URL@, code) {
        Ok(address) => Ok(address),
        Err(message) => Err(GatewayErrorView::Url(message)),
    }
}

/// The request that asks which fields the request with this code wants.
pub open spec fn fetch_request(code: Seq<char>) -> Result<HttpRequestView, GatewayErrorView> {
    match request_address(code) {
        Ok(url) => Ok(HttpRequestView { method: Method::Get, url, body: None }),
        Err(e) => Err(e),
    }
}

/// The request that hands a record to the request with this code.
pub open spec fn submit_request(code: Seq<char>, record: AutofillView) -> Result<
    HttpRequestView,
    GatewayErrorView,
> {
    match request_address(code) {
        Ok(url) => Ok(
            HttpRequestView { method: Method::Post, url, body: Some(record_text(record)) },
        ),
        Err(e) => Err(e),
    }
}

/// What the answer to a fetch means: the mask in the body of a successful answer.
pub open spec fn fetch_outcome(reply: HttpReplyView) -> Result<
    RequestedAutofillFields,
    GatewayErrorView,
> {
    match reply {
        HttpReplyView::Failure(message) => Err(GatewayErrorView::Transport(message)),
        HttpReplyView::Answer { status, body } => {
            if !is_success(status) {
                Err(GatewayErrorView::Status(status))
            } else {
                match text_mask(body) {
                    Ok(mask) => Ok(mask),
                    Err(e) => Err(GatewayErrorView::Body(e)),
                }
            }
        },
    }
}

/// What the answer to a submission means: done exactly when the status is a success.
pub open spec fn submit_outcome(reply: HttpReplyView) -> Result<(), GatewayErrorView> {
    match reply {
        HttpReplyView::Failure(message) => Err(GatewayErrorView::Transport(message)),
        HttpReplyView::Answer { status, body } => {
            if is_success(status) {
                Ok(())
            } else {
                Err(GatewayErrorView::Status(status))
            }
        },
    }
}

/// The address of the request with this code: the code resolved as a reference
/// against `BASE_URL`.
pub fn request_url(code: &str) -> (r: Result<String, GatewayError>)
    ensures
        match r {
            Ok(address) => request_address(code@) == Ok::<Seq<char>, GatewayErrorView>(address@),
            Err(e) => request_address(code@) == Err::<Seq<char>, GatewayErrorView>(e@),
        },
{
    match resolve_url(BASE_URL, code) {
        Ok(address) => Ok(address),
        Err(message) => Err(GatewayError::Url(message)),
    }
}

/// Whether a status is a success: 200 to 299.
pub fn status_is_success(status: u16) -> (r: bool)
    ensures
        r == is_success(status),
{
    200 <= status && status < 300
}

impl HttpRequest {
    /// The request that asks which fields the request with this code wants.
    pub fn fetch(code: &str) -> (r: Result<HttpRequest, GatewayError>)
        ensures
            match r {
                Ok(request) => fetch_request(code@) == Ok::<HttpRequestView, GatewayErrorView>(
                    request@,
                ),
                Err(e) => fetch_request(code@) == Err::<HttpRequestView, GatewayErrorView>(e@),
            },
    {
        match request_url(code) {
            Ok(url) => Ok(HttpRequest { method: Method::Get, url, body: None }),
            Err(e) => Err(e),
        }
    }

    /// The request that hands `record` to the request with this code.
    pub fn submit(code: &str, record: &AutofillDataRef<'_>) -> (r: Result<
        HttpRequest,
        GatewayError,
    >)
        ensures
            match r {
                Ok(request) => submit_request(code@, record@) == Ok::<
                    HttpRequestView,
                    GatewayErrorView,
                >(request@),
                Err(e) => submit_request(code@, record@) == Err::<
                    HttpRequestView,
                    GatewayErrorView,
                >(e@),
            },
    {
        match request_url(code) {
            Ok(url) => Ok(
                HttpRequest { method: Method::Post, url, body: Some(record.to_json_text()) },
            ),
            Err(e) => Err(e),
        }
    }
}

impl HttpReply {
    /// The mask that the answer to a fetch holds.
    pub fn into_mask(self) -> (r: Result<RequestedAutofillFields, GatewayError>)
        ensures
            match r {
                Ok(mask) => fetch_outcome(self@) == Ok::<RequestedAutofillFields, GatewayErrorView>(
                    mask,
                ),
                Err(e) => fetch_outcome(self@) == Err::<RequestedAutofillFields, GatewayErrorView>(
                    e@,
                ),
            },
    {
        match self {
            HttpReply::Failure(message) => Err(GatewayError::Transport(message)),
            HttpReply::Answer { status, body } => {
                if !status_is_success(status) {
                    Err(GatewayError::Status(status))
                } else {
                    match RequestedAutofillFields::from_json_text(body.as_str()) {
                        Ok(mask) => Ok(mask),
                        Err(e) => Err(GatewayError::Body(e)),
                    }
                }
            },
        }
    }

    /// Whether the answer to a submission says that it is done.
    pub fn into_done(self) -> (r: Result<(), GatewayError>)
        ensures
            match r {
                Ok(_) => submit_outcome(self@) == Ok::<(), GatewayErrorView>(()),
                Err(e) => submit_outcome(self@) == Err::<(), GatewayErrorView>(e@),
            },
    {
        match self {
            HttpReply::Failure(message) => Err(GatewayError::Transport(message)),
            HttpReply::Answer { status, body } => {
                if status_is_success(status) {
                    Ok(())
                } else {
                    Err(GatewayError::Status(status))
                }
            },
        }
    }
}

} // verus!
