//! What the adapters of both stores do with a reply before they look at its
//! JSON: no response, a status outside the success class, an unreadable body.

use vstd::prelude::*;
use vstd::string::StringExecFns;
use crate::http::{
    failure, is_success, status_message, success, text_or_empty, ApiError, ApiErrorView, ErrorKind,
    HttpReply, HttpReplyView,
};
use crate::json::{parse, parsed_document, Json, JsonView};
use crate::review::{Review, ReviewResponse, ReviewResponseView, ReviewView};

verus! {

/// The wording of the failures of one request.
pub struct Wording {
    /// Leads the message where no response was had.
    pub no_response: Seq<char>,
    /// Leads the message for a status outside the success class.
    pub bad_status: Seq<char>,
    /// Leads the message where the body could not be read.
    pub unreadable: Seq<char>,
    /// Leads the message where the body is not JSON.
    pub not_json: Seq<char>,
}

/// The text of the body of a reply in the success class, or the failure that
/// the reply amounts to.
pub open spec fn body_of(reply: HttpReplyView, w: Wording) -> Result<Seq<char>, ApiErrorView> {
    match reply {
        HttpReplyView::Failed(why) => Err(failure(ErrorKind::Transport, w.no_response + why)),
        HttpReplyView::Response { status, body } => if !success(status) {
            Err(failure(ErrorKind::Status, status_message(w.bad_status, status, text_or_empty(body))))
        } else {
            match body {
                Err(why) => Err(failure(ErrorKind::Transport, w.unreadable + why)),
                Ok(text) => Ok(text),
            }
        },
    }
}

/// `message` followed by the body that it is about.
pub open spec fn with_payload(message: Seq<char>, text: Seq<char>) -> Seq<char> {
    message + ". Response was: "@ + text
}

/// The body of a reply as far as it was read: its text, or nothing.
pub open spec fn payload_of(reply: HttpReplyView) -> Seq<char> {
    match reply {
        HttpReplyView::Response { body: Ok(text), .. } => text,
        _ => Seq::empty(),
    }
}

/// The failure for a body that is not what was expected: it carries the
/// body behind its message.
pub open spec fn unexpected_body(message: Seq<char>, reply: HttpReplyView) -> ApiErrorView {
    failure(ErrorKind::Parse, with_payload(message, payload_of(reply)))
}

/// The JSON document in the body of a reply in the success class, or the
/// failure that the reply amounts to. A body that is not JSON is reported
/// with the parser's words and the body itself.
pub open spec fn document_of(reply: HttpReplyView, w: Wording) -> Result<JsonView, ApiErrorView> {
    match body_of(reply, w) {
        Err(e) => Err(e),
        Ok(text) => match parsed_document(text) {
            Err(detail) => Err(unexpected_body(w.not_json + detail, reply)),
            Ok(doc) => Ok(doc),
        },
    }
}

/// The plain form of a borrowed text or a failure.
pub open spec fn text_or_failure(r: Result<&String, ApiError>) -> Result<Seq<char>, ApiErrorView> {
    match r {
        Ok(text) => Ok(text@),
        Err(e) => Err(e@),
    }
}

/// The plain form of a document or a failure.
pub open spec fn document_or_failure(r: Result<Json, ApiError>) -> Result<JsonView, ApiErrorView> {
    match r {
        Ok(doc) => Ok(doc@),
        Err(e) => Err(e@),
    }
}

/// The leads of the failures of one request.
pub struct Leads<'a> {
    pub no_response: &'a str,
    pub bad_status: &'a str,
    pub unreadable: &'a str,
    pub not_json: &'a str,
}

impl<'a> View for Leads<'a> {
    type V = Wording;

    open spec fn view(&self) -> Wording {
        Wording {
            no_response: self.no_response@,
            bad_status: self.bad_status@,
            unreadable: self.unreadable@,
            not_json: self.not_json@,
        }
    }
}

/// Reads the body of a reply in the success class.
pub fn read_body<'r>(reply: &'r HttpReply, leads: &Leads) -> (r: Result<&'r String, ApiError>)
    ensures
        text_or_failure(r) == body_of(reply@, leads@),
{
    match reply {
        HttpReply::Failed(why) => Err(
            ApiError::with_detail(ErrorKind::Transport, leads.no_response, why.as_str()),
        ),
        HttpReply::Response { status, body } => {
            if !is_success(*status) {
                Err(ApiError::status(leads.bad_status, *status, body))
            } else {
                match body {
                    Err(why) => Err(ApiError::with_detail(ErrorKind::Transport, leads.unreadable, why.as_str())),
                    Ok(text) => Ok(text),
                }
            }
        },
    }
}

/// The body of `reply` as far as it was read.
pub fn payload(reply: &HttpReply) -> (text: &str)
    ensures
        text@ == payload_of(reply@),
{
    match reply {
        HttpReply::Response { body: Ok(text), .. } => text.as_str(),
        _ => {
            proof {
                reveal_strlit("");
            }
            ""
        },
    }
}

/// The failure for a body of `reply` that is not what was expected.
pub fn body_failure(message: &str, reply: &HttpReply) -> (e: ApiError)
    ensures
        e@ == unexpected_body(message@, reply@),
{
    let mut text = crate::http::join(message, ". Response was: ");
    text.append(payload(reply));
    ApiError { kind: ErrorKind::Parse, message: text }
}

/// Reads the JSON document in the body of a reply in the success class.
pub fn read_document(reply: &HttpReply, leads: &Leads) -> (r: Result<Json, ApiError>)
    ensures
        document_or_failure(r) == document_of(reply@, leads@),
{
    let text = read_body(reply, leads)?;
    match parse(text.as_str()) {
        Ok(doc) => Ok(doc),
        Err(e) => Err(body_failure(crate::http::join(leads.not_json, e.detail.as_str()).as_str(), reply)),
    }
}

/// What a reply to the posting of a response amounts to.
pub open spec fn submit_outcome(reply: HttpReplyView) -> Result<(), ApiErrorView> {
    match reply {
        HttpReplyView::Failed(why) => Err(failure(ErrorKind::Transport, "Failed to submit response: "@ + why)),
        HttpReplyView::Response { status, body } => if !success(status) {
            Err(
                failure(
                    ErrorKind::Status,
                    status_message(
                        "Failed to submit response with status "@,
                        status,
                        text_or_empty(body),
                    ),
                ),
            )
        } else {
            Ok(())
        },
    }
}

/// The string member `key` of `doc`, or `fallback` where it is missing.
pub open spec fn text_or(doc: JsonView, key: Seq<char>, fallback: Seq<char>) -> Seq<char> {
    match doc.str_at(key) {
        Some(s) => s,
        None => fallback,
    }
}

/// The plain form of a list of reviews or a failure.
pub open spec fn reviews_view(r: Result<Vec<Review>, ApiError>) -> Result<Seq<ReviewView>, ApiErrorView> {
    match r {
        Ok(reviews) => Ok(reviews.deep_view()),
        Err(e) => Err(e@),
    }
}

/// The plain form of a response or a failure.
pub open spec fn response_view(r: Result<ReviewResponse, ApiError>) -> Result<ReviewResponseView, ApiErrorView> {
    match r {
        Ok(response) => Ok(response@),
        Err(e) => Err(e@),
    }
}

/// The plain form of nothing or a failure.
pub open spec fn unit_view(r: Result<(), ApiError>) -> Result<(), ApiErrorView> {
    match r {
        Ok(_) => Ok(()),
        Err(e) => Err(e@),
    }
}

/// Reads the reply to the posting of a response.
pub fn read_submission(reply: &HttpReply) -> (r: Result<(), ApiError>)
    ensures
        unit_view(r) == submit_outcome(reply@),
{
    match reply {
        HttpReply::Failed(why) => Err(
            ApiError::with_detail(ErrorKind::Transport, "Failed to submit response: ", why.as_str()),
        ),
        HttpReply::Response { status, body } => {
            if !is_success(*status) {
                Err(ApiError::status("Failed to submit response with status ", *status, body))
            } else {
                Ok(())
            }
        },
    }
}

/// The string member `key` of `doc`, or the empty string.
pub fn text_or_default(doc: &Json, key: &str) -> (s: String)
    ensures
        s@ == text_or(doc@, key@, Seq::empty()),
{
    match doc.str_at(key) {
        Some(s) => s.clone(),
        None => String::new(),
    }
}

} // verus!
