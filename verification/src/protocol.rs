//! What passes between a store adapter and its caller: the operation asked
//! for, what the adapter wants done next, and what came of that.

use vstd::prelude::*;
use crate::http::{ApiError, ApiErrorView, HttpReply, HttpReplyView, HttpRequest, HttpRequestView};
use crate::review::{Review, ReviewResponse, ReviewResponseView, ReviewView};

verus! {

/// An operation of a store adapter.
#[derive(Debug, PartialEq, Eq)]
pub enum Call {
    /// The first batch of reviews.
    GetReviews,
    /// The next batch of reviews.
    LoadNextPage,
    /// All reviews, from the start.
    RefreshAll,
    SubmitResponse { review_id: String, response_body: String },
    GetReviewResponse { review_id: String },
    /// The details of the response with this identifier, on a store that
    /// keeps responses as resources of their own.
    GetResponseDetails { response_id: String },
}

/// What a `Call` holds.
pub enum CallView {
    GetReviews,
    LoadNextPage,
    RefreshAll,
    SubmitResponse { review_id: Seq<char>, response_body: Seq<char> },
    GetReviewResponse { review_id: Seq<char> },
    GetResponseDetails { response_id: Seq<char> },
}

impl View for Call {
    type V = CallView;

    open spec fn view(&self) -> CallView {
        match self {
            Call::GetReviews => CallView::GetReviews,
            Call::LoadNextPage => CallView::LoadNextPage,
            Call::RefreshAll => CallView::RefreshAll,
            Call::SubmitResponse { review_id, response_body } => CallView::SubmitResponse {
                review_id: review_id@,
                response_body: response_body@,
            },
            Call::GetReviewResponse { review_id } => CallView::GetReviewResponse { review_id: review_id@ },
            Call::GetResponseDetails { response_id } => CallView::GetResponseDetails {
                response_id: response_id@,
            },
        }
    }
}

/// The result of an operation that went well.
#[derive(Debug, PartialEq, Eq)]
pub enum Outcome {
    Reviews(Vec<Review>),
    Submitted,
    Response(Option<ReviewResponse>),
}

/// What an `Outcome` holds.
pub enum OutcomeView {
    Reviews(Seq<ReviewView>),
    Submitted,
    Response(Option<ReviewResponseView>),
}

impl View for Outcome {
    type V = OutcomeView;

    open spec fn view(&self) -> OutcomeView {
        match self {
            Outcome::Reviews(reviews) => OutcomeView::Reviews(reviews.deep_view()),
            Outcome::Submitted => OutcomeView::Submitted,
            Outcome::Response(response) => OutcomeView::Response(response.deep_view()),
        }
    }
}

/// What an adapter asks of its caller next, or how the operation ended.
#[derive(Debug, PartialEq, Eq)]
pub enum Action {
    /// Read the file at this path and hand its text back.
    ReadFile(String),
    /// Send this request and hand the reply back.
    Send(HttpRequest),
    /// The operation is over and gave this.
    Done(Outcome),
    /// The operation is over and failed.
    Failed(ApiError),
}

/// What an `Action` holds.
pub enum ActionView {
    ReadFile(Seq<char>),
    Send(HttpRequestView),
    Done(OutcomeView),
    Failed(ApiErrorView),
}

impl View for Action {
    type V = ActionView;

    open spec fn view(&self) -> ActionView {
        match self {
            Action::ReadFile(path) => ActionView::ReadFile(path@),
            Action::Send(request) => ActionView::Send(request@),
            Action::Done(outcome) => ActionView::Done(outcome@),
            Action::Failed(error) => ActionView::Failed(error@),
        }
    }
}

/// What the caller hands back after an action.
#[derive(Debug, PartialEq, Eq)]
pub enum Event {
    /// The text of the file asked for, or why it could not be read.
    File(Result<String, String>),
    /// The reply to the request sent.
    Reply(HttpReply),
}

/// What an `Event` holds.
pub enum EventView {
    File(Result<Seq<char>, Seq<char>>),
    Reply(HttpReplyView),
}

impl View for Event {
    type V = EventView;

    open spec fn view(&self) -> EventView {
        match self {
            Event::File(contents) => EventView::File(crate::http::body_view(*contents)),
            Event::Reply(reply) => EventView::Reply(reply@),
        }
    }
}

/// A signed assertion and the audience it is addressed to.
#[derive(Debug, PartialEq, Eq)]
pub struct Assertion {
    pub jwt: String,
    pub audience: String,
}

/// What an `Assertion` holds.
pub struct AssertionView {
    pub jwt: Seq<char>,
    pub audience: Seq<char>,
}

impl View for Assertion {
    type V = AssertionView;

    open spec fn view(&self) -> AssertionView {
        AssertionView { jwt: self.jwt@, audience: self.audience@ }
    }
}

/// The plain form of a signing result.
pub open spec fn signed_view(r: Result<Assertion, ApiError>) -> Result<AssertionView, ApiErrorView> {
    match r {
        Ok(a) => Ok(a@),
        Err(e) => Err(e@),
    }
}

/// What moves an adapter on: a new operation, the assertion signed from the
/// key material that was read, or the reply to the request that was sent.
#[derive(Debug, PartialEq, Eq)]
pub enum Input {
    Begin(Call),
    Signed(Result<Assertion, ApiError>),
    Reply(HttpReply),
}

/// What an `Input` holds.
pub enum InputView {
    Begin(CallView),
    Signed(Result<AssertionView, ApiErrorView>),
    Reply(HttpReplyView),
}

impl View for Input {
    type V = InputView;

    open spec fn view(&self) -> InputView {
        match self {
            Input::Begin(call) => InputView::Begin(call@),
            Input::Signed(result) => InputView::Signed(signed_view(*result)),
            Input::Reply(reply) => InputView::Reply(reply@),
        }
    }
}

/// Where an adapter stands in the operation under way.
#[derive(Debug, PartialEq, Eq)]
pub enum Stage {
    /// No operation is under way.
    Idle,
    /// The key material was asked for.
    Key(Call),
    /// The assertion was sent in exchange for an access token.
    Token(Call),
    /// The operation's request was sent.
    Reply(Call),
}

/// What a `Stage` holds.
pub enum StageView {
    Idle,
    Key(CallView),
    Token(CallView),
    Reply(CallView),
}

impl View for Stage {
    type V = StageView;

    open spec fn view(&self) -> StageView {
        match self {
            Stage::Idle => StageView::Idle,
            Stage::Key(call) => StageView::Key(call@),
            Stage::Token(call) => StageView::Token(call@),
            Stage::Reply(call) => StageView::Reply(call@),
        }
    }
}

/// The failure for an event that the operation under way does not expect.
pub open spec fn unexpected() -> ApiErrorView {
    crate::http::failure(crate::http::ErrorKind::Protocol, "Unexpected event"@)
}

/// The failure for an event that the operation under way does not expect.
pub fn unexpected_event() -> (e: ApiError)
    ensures
        e@ == unexpected(),
{
    ApiError::new(crate::http::ErrorKind::Protocol, "Unexpected event")
}

/// The action that ends an operation with `result`.
pub open spec fn finished(result: Result<OutcomeView, ApiErrorView>) -> ActionView {
    match result {
        Ok(outcome) => ActionView::Done(outcome),
        Err(error) => ActionView::Failed(error),
    }
}

} // verus!
