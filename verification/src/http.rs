//! Requests to a store and the replies to them, as plain values: the library
//! says what to send and reads what came back; sending is the caller's part.

use vstd::prelude::*;
use vstd::string::StringExecFns;
use crate::json::{Json, JsonView};
use crate::text::decimal;
use crate::text::decimal_string;

verus! {

/// The HTTP method of a request.
#[derive(Clone, Copy, Debug, PartialEq, Eq, Structural)]
pub enum Method {
    Get,
    Post,
}

/// A request to send.
#[derive(Debug, PartialEq, Eq)]
pub struct HttpRequest {
    pub method: Method,
    pub url: String,
    /// The bearer credential of the `Authorization` header, if one is sent.
    pub bearer: Option<String>,
    /// The query parameters, unencoded, in order.
    pub query: Vec<(String, String)>,
    /// Whether the body is announced as `application/json`.
    pub json_content: bool,
    /// The JSON body, if there is one.
    pub body: Option<Json>,
}

/// What an `HttpRequest` holds.
pub struct HttpRequestView {
    pub method: Method,
    pub url: Seq<char>,
    pub bearer: Option<Seq<char>>,
    pub query: Seq<(Seq<char>, Seq<char>)>,
    pub json_content: bool,
    pub body: Option<JsonView>,
}

impl View for HttpRequest {
    type V = HttpRequestView;

    open spec fn view(&self) -> HttpRequestView {
        HttpRequestView {
            method: self.method,
            url: self.url@,
            bearer: self.bearer.deep_view(),
            query: self.query.deep_view(),
            json_content: self.json_content,
            body: self.body.deep_view(),
        }
    }
}

impl DeepView for HttpRequest {
    type V = HttpRequestView;

    open spec fn deep_view(&self) -> HttpRequestView {
        self@
    }
}

/// What came back for a request.
#[derive(Debug, PartialEq, Eq)]
pub enum HttpReply {
    /// No response was had; the text says why.
    Failed(String),
    /// A response with its status code and its body, or the reason why the
    /// body could not be read.
    Response { status: u16, body: Result<String, String> },
}

/// What an `HttpReply` holds.
pub enum HttpReplyView {
    Failed(Seq<char>),
    Response { status: u16, body: Result<Seq<char>, Seq<char>> },
}

/// The characters of a body, or of the reason it could not be read.
pub open spec fn body_view(body: Result<String, String>) -> Result<Seq<char>, Seq<char>> {
    match body {
        Ok(text) => Ok(text@),
        Err(why) => Err(why@),
    }
}

impl View for HttpReply {
    type V = HttpReplyView;

    open spec fn view(&self) -> HttpReplyView {
        match self {
            HttpReply::Failed(why) => HttpReplyView::Failed(why@),
            HttpReply::Response { status, body } => HttpReplyView::Response {
                status: *status,
                body: body_view(*body),
            },
        }
    }
}

impl DeepView for HttpReply {
    type V = HttpReplyView;

    open spec fn deep_view(&self) -> HttpReplyView {
        self@
    }
}

/// A status code of the success class, 200 to 299.
pub open spec fn success(status: u16) -> bool {
    200 <= status < 300
}

/// Whether `status` is of the success class.
pub fn is_success(status: u16) -> (r: bool)
    ensures
        r == success(status),
{
    200 <= status && status < 300
}

/// The body of an error response: its text, empty where it was unreadable.
pub open spec fn text_or_empty(body: Result<Seq<char>, Seq<char>>) -> Seq<char> {
    match body {
        Ok(text) => text,
        Err(_) => Seq::empty(),
    }
}

/// The class of a failure.
#[derive(Clone, Copy, Debug, PartialEq, Eq, Structural)]
pub enum ErrorKind {
    /// Key material is missing, unreadable or malformed, or signing failed.
    Credential,
    /// No response, or a body that could not be read.
    Transport,
    /// A response outside the success class.
    Status,
    /// A body that is not the JSON expected.
    Parse,
    /// An event that the operation under way does not expect.
    Protocol,
}

/// A failure of a store operation.
#[derive(Debug, PartialEq, Eq)]
pub struct ApiError {
    pub kind: ErrorKind,
    pub message: String,
}

/// What an `ApiError` holds.
pub struct ApiErrorView {
    pub kind: ErrorKind,
    pub message: Seq<char>,
}

impl View for ApiError {
    type V = ApiErrorView;

    open spec fn view(&self) -> ApiErrorView {
        ApiErrorView { kind: self.kind, message: self.message@ }
    }
}

impl DeepView for ApiError {
    type V = ApiErrorView;

    open spec fn deep_view(&self) -> ApiErrorView {
        self@
    }
}

/// The error of class `kind` whose message is `message`.
pub open spec fn failure(kind: ErrorKind, message: Seq<char>) -> ApiErrorView {
    ApiErrorView { kind, message }
}

/// The message of a response outside the success class: the lead, the status
/// code in decimal, a colon and the body.
pub open spec fn status_message(lead: Seq<char>, status: u16, body: Seq<char>) -> Seq<char> {
    lead + decimal(status as int) + ": "@ + body
}

impl ApiError {
    /// The error of class `kind` with the message `text`.
    pub fn new(kind: ErrorKind, text: &str) -> (e: ApiError)
        ensures
            e@ == failure(kind, text@),
    {
        ApiError { kind, message: String::from_str(text) }
    }

    /// The error of class `kind` whose message is `lead` followed by `detail`.
    pub fn with_detail(kind: ErrorKind, lead: &str, detail: &str) -> (e: ApiError)
        ensures
            e@ == failure(kind, lead@ + detail@),
    {
        ApiError { kind, message: join(lead, detail) }
    }

    /// The error for a response outside the success class.
    pub fn status(lead: &str, status: u16, body: &Result<String, String>) -> (e: ApiError)
        ensures
            e@ == failure(ErrorKind::Status, status_message(lead@, status, text_or_empty(body_view(*body)))),
    {
        let mut message = String::from_str(lead);
        let code = decimal_string(status as i64);
        message.append(code.as_str());
        message.append(": ");
        match body {
            Ok(text) => {
                message.append(text.as_str());
            },
            Err(_) => {
                assert(message@ + Seq::<char>::empty() == message@);
            },
        }
        ApiError { kind: ErrorKind::Status, message }
    }
}

/// `a` followed by `b`.
pub fn join(a: &str, b: &str) -> (s: String)
    ensures
        s@ == a@ + b@,
{
    let mut s = String::from_str(a);
    s.append(b);
    s
}

/// `a`, `b` and `c` in a row.
pub fn join3(a: &str, b: &str, c: &str) -> (s: String)
    ensures
        s@ == a@ + b@ + c@,
{
    let mut s = String::from_str(a);
    s.append(b);
    s.append(c);
    s
}

/// The pair of owned strings for `name` and `value`.
pub fn pair(name: &str, value: &str) -> (p: (String, String))
    ensures
        p.deep_view() == (name@, value@),
{
    (String::from_str(name), String::from_str(value))
}

/// The JSON string holding `text`.
pub fn json_text(text: &str) -> (j: Json)
    ensures
        j@ == JsonView::Text(text@),
{
    Json::Text(String::from_str(text))
}

/// The JSON object with the one member `name`.
pub fn object1(name: &str, value: Json) -> (j: Json)
    ensures
        j@ == JsonView::Object(seq![(name@, value@)]),
{
    let mut members: Vec<(String, Json)> = Vec::new();
    members.push((String::from_str(name), value));
    let j = Json::Object(members);
    assert(j@->Object_0 =~= seq![(name@, value@)]);
    j
}

/// The JSON object with the two members `n1` and `n2`, in that order.
pub fn object2(n1: &str, v1: Json, n2: &str, v2: Json) -> (j: Json)
    ensures
        j@ == JsonView::Object(seq![(n1@, v1@), (n2@, v2@)]),
{
    let mut members: Vec<(String, Json)> = Vec::new();
    members.push((String::from_str(n1), v1));
    members.push((String::from_str(n2), v2));
    let j = Json::Object(members);
    assert(j@->Object_0 =~= seq![(n1@, v1@), (n2@, v2@)]);
    j
}

/// The JSON object with the three members `n1`, `n2` and `n3`, in that order.
pub fn object3(n1: &str, v1: Json, n2: &str, v2: Json, n3: &str, v3: Json) -> (j: Json)
    ensures
        j@ == JsonView::Object(seq![(n1@, v1@), (n2@, v2@), (n3@, v3@)]),
{
    let mut members: Vec<(String, Json)> = Vec::new();
    members.push((String::from_str(n1), v1));
    members.push((String::from_str(n2), v2));
    members.push((String::from_str(n3), v3));
    let j = Json::Object(members);
    assert(j@->Object_0 =~= seq![(n1@, v1@), (n2@, v2@), (n3@, v3@)]);
    j
}

} // verus!
