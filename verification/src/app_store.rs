//! The adapter for App Store Connect: one bulk listing of reviews, a posted
//! response resource, and a two-step lookup of the response to a review.

use vstd::prelude::*;
use vstd::string::StringExecFns;
use crate::config::{Config, ConfigView};
use crate::http::{
    failure, join, join3, json_text, object1, object2, object3, pair, ApiError, ApiErrorView,
    ErrorKind, HttpReply, HttpReplyView, HttpRequest, HttpRequestView, Method,
};
use crate::json::{parse, parsed_document, Json, JsonView};
use crate::jwt::{
    ec_key_from_pem, ec_key_refusal, encode, led_by, sealed, Claims, ClaimsView, SigningAlgorithm,
};
use crate::listing::listing_of;
use crate::protocol::{
    finished, signed_view, unexpected, unexpected_event, Action, ActionView, Assertion,
    AssertionView, Call, CallView, Event, EventView, Input, InputView, Outcome, OutcomeView, Stage,
    StageView,
};
use crate::replies::{
    body_failure, body_of, document_of, read_body, read_document, read_submission, response_view,
    reviews_view, submit_outcome, text_or, text_or_default, unexpected_body, Leads, Wording,
};
use crate::review::{
    review_of, reviews_of, ResponseState, Review, ReviewDataView, ReviewResponse,
    ReviewResponseView, ReviewView, ReviewsResponse,
};
use crate::shape::{member, present};
use crate::text::same_text;
use crate::time::{parse_rfc3339, rfc3339_instant, Timestamp};
use crate::token::{mintable, minted, renewal_due, CredentialView, TokenManager};

verus! {

/// How long a signed assertion is used, in seconds; it is signed to be valid
/// for longer.
pub const TOKEN_LIFETIME_SECS: u32 = 900;

/// How long a signed assertion is valid, in seconds.
pub const ASSERTION_VALIDITY_SECS: i64 = 1200;

/// The root of the REST interface.
pub open spec fn base() -> Seq<char> {
    "https://api.appstoreconnect.apple.com/v1"@
}

/// The audience of every assertion.
pub open spec fn audience() -> Seq<char> {
    "appstoreconnect-v1"@
}

/// The request for the reviews of an app: up to 200, newest first.
pub open spec fn reviews_request(app_id: Seq<char>, token: Seq<char>) -> HttpRequestView {
    HttpRequestView {
        method: Method::Get,
        url: base() + "/apps/"@ + app_id + "/customerReviews"@,
        bearer: Some(token),
        query: seq![("limit"@, "200"@), ("sort"@, "-createdDate"@)],
        json_content: false,
        body: None,
    }
}

/// The response resource to post for a review.
pub open spec fn response_resource(review_id: Seq<char>, response_body: Seq<char>) -> JsonView {
    JsonView::Object(
        seq![
            (
                "data"@,
                JsonView::Object(
                    seq![
                        (
                            "attributes"@,
                            JsonView::Object(seq![("responseBody"@, JsonView::Text(response_body))]),
                        ),
                        (
                            "relationships"@,
                            JsonView::Object(
                                seq![
                                    (
                                        "review"@,
                                        JsonView::Object(
                                            seq![
                                                (
                                                    "data"@,
                                                    JsonView::Object(
                                                        seq![
                                                            ("id"@, JsonView::Text(review_id)),
                                                            ("type"@, JsonView::Text("customerReviews"@)),
                                                        ],
                                                    ),
                                                ),
                                            ],
                                        ),
                                    ),
                                ],
                            ),
                        ),
                        ("type"@, JsonView::Text("customerReviewResponses"@)),
                    ],
                ),
            ),
        ],
    )
}

/// The request that posts a response to a review.
pub open spec fn submit_request(token: Seq<char>, review_id: Seq<char>, response_body: Seq<char>) -> HttpRequestView {
    HttpRequestView {
        method: Method::Post,
        url: base() + "/customerReviewResponses"@,
        bearer: Some(token),
        query: Seq::empty(),
        json_content: true,
        body: Some(response_resource(review_id, response_body)),
    }
}

/// The request for the link from a review to its response.
pub open spec fn lookup_request(token: Seq<char>, review_id: Seq<char>) -> HttpRequestView {
    HttpRequestView {
        method: Method::Get,
        url: base() + "/customerReviews/"@ + review_id + "/relationships/response"@,
        bearer: Some(token),
        query: Seq::empty(),
        json_content: false,
        body: None,
    }
}

/// The request for the details of a response.
pub open spec fn details_request(token: Seq<char>, response_id: Seq<char>) -> HttpRequestView {
    HttpRequestView {
        method: Method::Get,
        url: base() + "/customerReviewResponses/"@ + response_id,
        bearer: Some(token),
        query: Seq::empty(),
        json_content: false,
        body: None,
    }
}

/// The request that carries out `call`; a call for more pages or for a
/// refresh is one for the listing.
pub open spec fn request_for(app_id: Seq<char>, token: Seq<char>, call: CallView) -> HttpRequestView {
    match call {
        CallView::SubmitResponse { review_id, response_body } => submit_request(token, review_id, response_body),
        CallView::GetReviewResponse { review_id } => lookup_request(token, review_id),
        CallView::GetResponseDetails { response_id } => details_request(token, response_id),
        _ => reviews_request(app_id, token),
    }
}

/// The wording of the failures of the listing request.
pub open spec fn reviews_wording() -> Wording {
    Wording {
        no_response: "Failed to fetch reviews: "@,
        bad_status: "API request failed with status "@,
        unreadable: "Failed to read response text: "@,
        not_json: "Failed to parse reviews response: "@,
    }
}

/// The message for a listing that is JSON of another shape than expected.
pub open spec fn shape_message(field: Seq<char>, text: Seq<char>) -> Seq<char> {
    "Failed to parse reviews response: missing or invalid field `"@ + field + "`. Response was: "@ + text
}

/// The message for a listing that is not JSON.
pub open spec fn syntax_message(detail: Seq<char>, text: Seq<char>) -> Seq<char> {
    "Failed to parse reviews response: "@ + detail + ". Response was: "@ + text
}

/// The reviews that a reply to the listing request holds, in its order, or
/// the failure it amounts to.
pub open spec fn reviews_outcome(reply: HttpReplyView) -> Result<Seq<ReviewView>, ApiErrorView> {
    match body_of(reply, reviews_wording()) {
        Err(e) => Err(e),
        Ok(text) => match parsed_document(text) {
            Err(detail) => Err(failure(ErrorKind::Parse, syntax_message(detail, text))),
            Ok(doc) => match listing_of(doc) {
                Err(field) => Err(failure(ErrorKind::Parse, shape_message(field, text))),
                Ok(listing) => Ok(listing.data.map_values(|d: ReviewDataView| review_of(d))),
            },
        },
    }
}

/// The wording of the failures of the lookup of a response link.
pub open spec fn lookup_wording() -> Wording {
    Wording {
        no_response: "Failed to fetch response: "@,
        bad_status: "Failed to fetch response with status "@,
        unreadable: "Failed to read response: "@,
        not_json: "Failed to parse relationship response: "@,
    }
}

/// The identifier of the response that a link document names, if it names
/// one: the string `id` of its `data`.
pub open spec fn linked_response(doc: JsonView) -> Option<Seq<char>> {
    match present(doc, "data"@) {
        Some(data) => data.str_at("id"@),
        None => None,
    }
}

/// The identifier of the response to a review that a reply to the lookup
/// names; none where the store answers 404 or names none.
pub open spec fn lookup_outcome(reply: HttpReplyView) -> Result<Option<Seq<char>>, ApiErrorView> {
    if reply matches HttpReplyView::Response { status, .. } && status == 404 {
        Ok(None)
    } else {
        match document_of(reply, lookup_wording()) {
            Err(e) => Err(e),
            Ok(doc) => Ok(linked_response(doc)),
        }
    }
}

/// The wording of the failures of the request for a response's details.
pub open spec fn details_wording() -> Wording {
    Wording {
        no_response: "Failed to fetch response details: "@,
        bad_status: "Failed to fetch response details with status "@,
        unreadable: "Failed to read response: "@,
        not_json: "Failed to parse response details: "@,
    }
}

/// The state that the attributes of a response give: published where they
/// say so, pending otherwise.
pub open spec fn state_of(attributes: JsonView) -> ResponseState {
    if attributes.str_at("state"@) == Some("PUBLISHED"@) {
        ResponseState::Published
    } else {
        ResponseState::Pending
    }
}

/// The response that a details document describes. A failure names what is
/// wrong with the document; `details_outcome` puts the body behind it.
pub open spec fn response_of(response_id: Seq<char>, doc: JsonView) -> Result<ReviewResponseView, ApiErrorView> {
    match doc.get("data"@) {
        None => Err(failure(ErrorKind::Parse, "Invalid response data format"@)),
        Some(data) => match data.get("attributes"@) {
            None => Err(failure(ErrorKind::Parse, "Invalid response data format"@)),
            Some(attributes) => match rfc3339_instant(text_or(attributes, "lastModifiedDate"@, Seq::empty())) {
                Err(why) => Err(failure(ErrorKind::Parse, "Failed to parse date: "@ + why)),
                Ok(last_modified_date) => Ok(
                    ReviewResponseView {
                        id: response_id,
                        response_body: text_or(attributes, "responseBody"@, Seq::empty()),
                        last_modified_date,
                        state: state_of(attributes),
                    },
                ),
            },
        },
    }
}

/// The response that a reply to the details request describes.
pub open spec fn details_outcome(response_id: Seq<char>, reply: HttpReplyView) -> Result<
    ReviewResponseView,
    ApiErrorView,
> {
    match document_of(reply, details_wording()) {
        Err(e) => Err(e),
        Ok(doc) => match response_of(response_id, doc) {
            Err(e) => Err(unexpected_body(e.message, reply)),
            Ok(response) => Ok(response),
        },
    }
}

/// The path of the private key, provided the key's identifier and the issuer
/// are configured too.
pub open spec fn key_path(config: ConfigView) -> Result<Seq<char>, ApiErrorView> {
    if config.private_key_path is None {
        Err(failure(ErrorKind::Credential, "Private key path not configured for iOS"@))
    } else if config.key_id is None {
        Err(failure(ErrorKind::Credential, "Key ID not configured for iOS"@))
    } else if config.issuer_id is None {
        Err(failure(ErrorKind::Credential, "Issuer ID not configured for iOS"@))
    } else {
        Ok(config.private_key_path->0)
    }
}

/// What an App Store adapter holds.
pub struct AppStoreView {
    pub config: ConfigView,
    pub credential: Option<CredentialView>,
    pub stage: StageView,
}

impl AppStoreView {
    /// The adapter at rest.
    pub open spec fn idle(self) -> AppStoreView {
        AppStoreView { stage: StageView::Idle, ..self }
    }

    /// The adapter at another stage.
    pub open spec fn at(self, stage: StageView) -> AppStoreView {
        AppStoreView { stage, ..self }
    }

    /// Sending the request of `call` with the credential held.
    pub open spec fn dispatch(self, call: CallView) -> (AppStoreView, ActionView) {
        match self.credential {
            Some(c) => (
                self.at(StageView::Reply(call)),
                ActionView::Send(request_for(self.config.app_id, c.token, call)),
            ),
            None => (self.idle(), ActionView::Failed(unexpected())),
        }
    }

    /// Making sure of a credential before the request of `call`: with one
    /// that is not yet due for renewal the request goes out; otherwise the
    /// private key is asked for first, or the operation fails where the
    /// configuration names none.
    pub open spec fn authorize(self, call: CallView, now: Timestamp) -> (AppStoreView, ActionView) {
        if renewal_due(self.credential, now) {
            match key_path(self.config) {
                Err(e) => (self.idle(), ActionView::Failed(e)),
                Ok(path) => (self.at(StageView::Key(call)), ActionView::ReadFile(path)),
            }
        } else {
            self.dispatch(call)
        }
    }

    /// The start of `call`. There are no further pages to load: loading one
    /// is over at once with an empty batch.
    pub open spec fn begin(self, call: CallView, now: Timestamp) -> (AppStoreView, ActionView) {
        if call is LoadNextPage {
            (self.idle(), ActionView::Done(OutcomeView::Reviews(Seq::empty())))
        } else {
            self.authorize(call, now)
        }
    }

    /// What a signing result leads to: with an assertion it is held as the
    /// credential and the request of the pending call goes out.
    pub open spec fn signed(self, result: Result<AssertionView, ApiErrorView>, now: Timestamp) -> (
        AppStoreView,
        ActionView,
    ) {
        match self.stage {
            StageView::Key(call) => match result {
                Err(e) => (self.idle(), ActionView::Failed(e)),
                Ok(assertion) => AppStoreView {
                    credential: Some(minted(assertion.jwt, now, TOKEN_LIFETIME_SECS)),
                    ..self
                }.dispatch(call),
            },
            _ => (self.idle(), ActionView::Failed(unexpected())),
        }
    }

    /// What a reply leads to: the end of the operation, or for a review that
    /// has a response the request for its details, before which the
    /// credential is made sure of like before any other request.
    pub open spec fn replied(self, reply: HttpReplyView, now: Timestamp) -> (AppStoreView, ActionView) {
        match self.stage {
            StageView::Reply(CallView::SubmitResponse { .. }) => (
                self.idle(),
                finished(
                    match submit_outcome(reply) {
                        Ok(_) => Ok(OutcomeView::Submitted),
                        Err(e) => Err(e),
                    },
                ),
            ),
            StageView::Reply(CallView::GetReviewResponse { .. }) => match lookup_outcome(reply) {
                Err(e) => (self.idle(), ActionView::Failed(e)),
                Ok(None) => (self.idle(), ActionView::Done(OutcomeView::Response(None))),
                Ok(Some(response_id)) => self.authorize(CallView::GetResponseDetails { response_id }, now),
            },
            StageView::Reply(CallView::GetResponseDetails { response_id }) => (
                self.idle(),
                finished(
                    match details_outcome(response_id, reply) {
                        Ok(response) => Ok(OutcomeView::Response(Some(response))),
                        Err(e) => Err(e),
                    },
                ),
            ),
            StageView::Reply(_) => (
                self.idle(),
                finished(
                    match reviews_outcome(reply) {
                        Ok(reviews) => Ok(OutcomeView::Reviews(reviews)),
                        Err(e) => Err(e),
                    },
                ),
            ),
            _ => (self.idle(), ActionView::Failed(unexpected())),
        }
    }

    /// The adapter and its action after `input` at `now`.
    pub open spec fn step(self, input: InputView, now: Timestamp) -> (AppStoreView, ActionView) {
        match input {
            InputView::Begin(call) => self.begin(call, now),
            InputView::Signed(result) => self.signed(result, now),
            InputView::Reply(reply) => self.replied(reply, now),
        }
    }
}

/// A credential is never used within the margin of its expiry: whatever
/// moves the adapter on, a request that goes out carries the credential
/// then held, and that credential is not due for renewal.
pub proof fn lemma_requests_carry_fresh_credential(c: AppStoreView, input: InputView, now: Timestamp)
    requires
        mintable(now),
    ensures
        c.step(input, now).1 matches ActionView::Send(request) ==> {
            &&& c.step(input, now).0.credential is Some
            &&& !renewal_due(c.step(input, now).0.credential, now)
            &&& request.bearer == Some(c.step(input, now).0.credential->0.token)
        },
{
}

/// A credential that is due for renewal is renewed once: the operation asks
/// for the key and, once the assertion is signed, sends its request with it.
/// An operation that starts while more than the margin is left of the fifteen
/// minutes asks for no key and sends its request with the same assertion.
pub proof fn lemma_renewed_once(
    c: AppStoreView,
    call: CallView,
    next: CallView,
    assertion: AssertionView,
    now: Timestamp,
    later: Timestamp,
)
    requires
        renewal_due(c.credential, now),
        key_path(c.config) is Ok,
        !(call is LoadNextPage),
        !(next is LoadNextPage),
        mintable(now),
        now.not_after(later),
        later.secs + crate::token::REFRESH_MARGIN_SECS < now.secs + TOKEN_LIFETIME_SECS,
    ensures
        ({
            let (asked, first) = c.step(InputView::Begin(call), now);
            let (sent, second) = asked.step(InputView::Signed(Ok(assertion)), now);
            let (again, third) = sent.idle().step(InputView::Begin(next), later);
            &&& first == ActionView::ReadFile(key_path(c.config)->Ok_0)
            &&& second == ActionView::Send(request_for(c.config.app_id, assertion.jwt, call))
            &&& third == ActionView::Send(request_for(c.config.app_id, assertion.jwt, next))
            &&& again.credential == sent.credential
        }),
{
}

/// What the assertion signed at `now` states: the issuer, the store's
/// audience and an expiry twenty minutes on, under the configured key's
/// identifier.
pub open spec fn claims_for(config: ConfigView, now: Timestamp) -> Result<ClaimsView, ApiErrorView> {
    if config.key_id is None {
        Err(failure(ErrorKind::Credential, "Key ID not configured for iOS"@))
    } else if config.issuer_id is None {
        Err(failure(ErrorKind::Credential, "Issuer ID not configured for iOS"@))
    } else {
        Ok(
            ClaimsView {
                algorithm: SigningAlgorithm::Es256,
                key_id: config.key_id->0,
                texts: seq![("iss"@, config.issuer_id->0), ("aud"@, audience())],
                numbers: seq![("exp"@, (now.secs + ASSERTION_VALIDITY_SECS) as i64)],
            },
        )
    }
}

/// What signing may give for the key material read. Without a key
/// identifier or an issuer nothing is signed, a failure to read the key is
/// passed on, and a key that is refused fails with the refusal. Otherwise
/// an assertion is addressed to the store's audience, and a failure is one
/// of the encoding.
pub open spec fn signing_of(
    config: ConfigView,
    file: Result<Seq<char>, Seq<char>>,
    now: Timestamp,
    result: Result<AssertionView, ApiErrorView>,
) -> bool {
    match claims_for(config, now) {
        Err(e) => result == Err::<AssertionView, ApiErrorView>(e),
        Ok(_) => match file {
            Err(why) => result == Err::<AssertionView, ApiErrorView>(
                failure(ErrorKind::Credential, "Failed to read private key file: "@ + why),
            ),
            Ok(pem) => match ec_key_refusal(pem) {
                Some(why) => result == Err::<AssertionView, ApiErrorView>(
                    failure(ErrorKind::Credential, "Failed to create encoding key from EC private key: "@ + why),
                ),
                None => match result {
                    Ok(assertion) => assertion.audience == audience(),
                    Err(e) => e.kind == ErrorKind::Credential && led_by(e.message, "Failed to encode JWT: "@),
                },
            },
        },
    }
}

/// The adapter for App Store Connect.
#[derive(Debug, PartialEq, Eq)]
pub struct AppStoreConnectClient {
    config: Config,
    tokens: TokenManager,
    stage: Stage,
}

impl View for AppStoreConnectClient {
    type V = AppStoreView;

    closed spec fn view(&self) -> AppStoreView {
        AppStoreView { config: self.config@, credential: self.tokens@, stage: self.stage@ }
    }
}

fn reviews_leads() -> (l: Leads<'static>)
    ensures
        l@ == reviews_wording(),
{
    Leads {
        no_response: "Failed to fetch reviews: ",
        bad_status: "API request failed with status ",
        unreadable: "Failed to read response text: ",
        not_json: "Failed to parse reviews response: ",
    }
}

fn lookup_leads() -> (l: Leads<'static>)
    ensures
        l@ == lookup_wording(),
{
    Leads {
        no_response: "Failed to fetch response: ",
        bad_status: "Failed to fetch response with status ",
        unreadable: "Failed to read response: ",
        not_json: "Failed to parse relationship response: ",
    }
}

fn details_leads() -> (l: Leads<'static>)
    ensures
        l@ == details_wording(),
{
    Leads {
        no_response: "Failed to fetch response details: ",
        bad_status: "Failed to fetch response details with status ",
        unreadable: "Failed to read response: ",
        not_json: "Failed to parse response details: ",
    }
}

/// The plain form of an optional text or a failure.
pub open spec fn lookup_view(r: Result<Option<String>, ApiError>) -> Result<Option<Seq<char>>, ApiErrorView> {
    match r {
        Ok(id) => Ok(id.deep_view()),
        Err(e) => Err(e@),
    }
}

/// Reads the reviews out of a reply to the listing request.
pub fn read_reviews(reply: &HttpReply) -> (r: Result<Vec<Review>, ApiError>)
    ensures
        reviews_view(r) == reviews_outcome(reply@),
{
    let leads = reviews_leads();
    let text = read_body(reply, &leads)?;
    match parse(text.as_str()) {
        Err(e) => {
            let mut message = join3("Failed to parse reviews response: ", e.detail.as_str(), ". Response was: ");
            message.append(text.as_str());
            Err(ApiError { kind: ErrorKind::Parse, message })
        },
        Ok(doc) => match ReviewsResponse::from_json(&doc) {
            Err(field) => {
                let mut message = join3(
                    "Failed to parse reviews response: missing or invalid field `",
                    field.as_str(),
                    "`. Response was: ",
                );
                message.append(text.as_str());
                Err(ApiError { kind: ErrorKind::Parse, message })
            },
            Ok(listing) => Ok(reviews_of(listing)),
        },
    }
}

/// Reads the identifier of a review's response out of a reply to the lookup.
pub fn read_lookup(reply: &HttpReply) -> (r: Result<Option<String>, ApiError>)
    ensures
        lookup_view(r) == lookup_outcome(reply@),
{
    match reply {
        HttpReply::Response { status, .. } => {
            if *status == 404 {
                return Ok(None);
            }
        },
        _ => {},
    }
    let leads = lookup_leads();
    let doc = read_document(reply, &leads)?;
    match member(&doc, "data") {
        Some(data) => match data.str_at("id") {
            Some(id) => Ok(Some(id.clone())),
            None => Ok(None),
        },
        None => Ok(None),
    }
}

/// Reads a response out of a details document.
pub fn read_response(response_id: &str, doc: &Json) -> (r: Result<ReviewResponse, ApiError>)
    ensures
        response_view(r) == response_of(response_id@, doc@),
{
    let attributes = match doc.get("data") {
        None => {
            return Err(ApiError::new(ErrorKind::Parse, "Invalid response data format"));
        },
        Some(data) => match data.get("attributes") {
            None => {
                return Err(ApiError::new(ErrorKind::Parse, "Invalid response data format"));
            },
            Some(attributes) => attributes,
        },
    };
    let response_body = text_or_default(attributes, "responseBody");
    let last_modified = text_or_default(attributes, "lastModifiedDate");
    let last_modified_date = match parse_rfc3339(last_modified.as_str()) {
        Err(why) => {
            return Err(ApiError::with_detail(ErrorKind::Parse, "Failed to parse date: ", why.as_str()));
        },
        Ok(t) => t,
    };
    let state = match attributes.str_at("state") {
        Some(s) => if same_text(s.as_str(), "PUBLISHED") {
            ResponseState::Published
        } else {
            ResponseState::Pending
        },
        None => ResponseState::Pending,
    };
    Ok(ReviewResponse { id: String::from_str(response_id), response_body, last_modified_date, state })
}

/// Reads a response out of a reply to the details request.
pub fn read_details(response_id: &str, reply: &HttpReply) -> (r: Result<ReviewResponse, ApiError>)
    ensures
        response_view(r) == details_outcome(response_id@, reply@),
{
    let leads = details_leads();
    let doc = read_document(reply, &leads)?;
    match read_response(response_id, &doc) {
        Err(e) => Err(body_failure(e.message.as_str(), reply)),
        Ok(response) => Ok(response),
    }
}

fn get_request(url: String, token: &str) -> (r: HttpRequest)
    ensures
        r@ == (HttpRequestView {
            method: Method::Get,
            url: url@,
            bearer: Some(token@),
            query: Seq::empty(),
            json_content: false,
            body: None,
        }),
{
    let r = HttpRequest {
        method: Method::Get,
        url,
        bearer: Some(String::from_str(token)),
        query: Vec::new(),
        json_content: false,
        body: None,
    };
    assert(r.query.deep_view() =~= Seq::empty());
    r
}

fn build_reviews_request(app_id: &str, token: &str) -> (r: HttpRequest)
    ensures
        r@ == reviews_request(app_id@, token@),
{
    let mut url = join3("https://api.appstoreconnect.apple.com/v1", "/apps/", app_id);
    url.append("/customerReviews");
    let mut query: Vec<(String, String)> = Vec::new();
    query.push(pair("limit", "200"));
    query.push(pair("sort", "-createdDate"));
    assert(query.deep_view() =~= seq![("limit"@, "200"@), ("sort"@, "-createdDate"@)]);
    HttpRequest {
        method: Method::Get,
        url,
        bearer: Some(String::from_str(token)),
        query,
        json_content: false,
        body: None,
    }
}

fn build_submit_request(token: &str, review_id: &str, response_body: &str) -> (r: HttpRequest)
    ensures
        r@ == submit_request(token@, review_id@, response_body@),
{
    let target = object2("id", json_text(review_id), "type", json_text("customerReviews"));
    let relationships = object1("review", object1("data", target));
    let attributes = object1("responseBody", json_text(response_body));
    let resource = object3(
        "attributes",
        attributes,
        "relationships",
        relationships,
        "type",
        json_text("customerReviewResponses"),
    );
    let body = object1("data", resource);
    let query: Vec<(String, String)> = Vec::new();
    assert(query.deep_view() =~= Seq::empty());
    HttpRequest {
        method: Method::Post,
        url: join("https://api.appstoreconnect.apple.com/v1", "/customerReviewResponses"),
        bearer: Some(String::from_str(token)),
        query,
        json_content: true,
        body: Some(body),
    }
}

fn build_lookup_request(token: &str, review_id: &str) -> (r: HttpRequest)
    ensures
        r@ == lookup_request(token@, review_id@),
{
    let mut url = join3("https://api.appstoreconnect.apple.com/v1", "/customerReviews/", review_id);
    url.append("/relationships/response");
    get_request(url, token)
}

fn build_details_request(token: &str, response_id: &str) -> (r: HttpRequest)
    ensures
        r@ == details_request(token@, response_id@),
{
    get_request(join3("https://api.appstoreconnect.apple.com/v1", "/customerReviewResponses/", response_id), token)
}

fn build_request(app_id: &str, token: &str, call: &Call) -> (r: HttpRequest)
    ensures
        r@ == request_for(app_id@, token@, call@),
{
    match call {
        Call::SubmitResponse { review_id, response_body } => build_submit_request(
            token,
            review_id.as_str(),
            response_body.as_str(),
        ),
        Call::GetReviewResponse { review_id } => build_lookup_request(token, review_id.as_str()),
        Call::GetResponseDetails { response_id } => build_details_request(token, response_id.as_str()),
        _ => build_reviews_request(app_id, token),
    }
}

impl AppStoreConnectClient {
    /// An adapter at rest, without a credential.
    pub fn new(config: Config) -> (c: AppStoreConnectClient)
        ensures
            c@ == (AppStoreView { config: config@, credential: None, stage: StageView::Idle }),
    {
        AppStoreConnectClient { config, tokens: TokenManager::new(), stage: Stage::Idle }
    }

    /// Whether an operation is under way.
    pub fn is_busy(&self) -> (r: bool)
        ensures
            r == !(self@.stage is Idle),
    {
        match &self.stage {
            Stage::Idle => false,
            _ => true,
        }
    }

    /// What the assertion signed at `now` states.
    pub fn assertion_claims(&self, now: &Timestamp) -> (r: Result<Claims, ApiError>)
        requires
            mintable(*now),
        ensures
            (match r {
                Ok(claims) => Ok(claims@),
                Err(e) => Err(e@),
            }) == claims_for(self@.config, *now),
    {
        let key_id = match &self.config.key_id {
            None => {
                return Err(ApiError::new(ErrorKind::Credential, "Key ID not configured for iOS"));
            },
            Some(id) => id.clone(),
        };
        let issuer_id = match &self.config.issuer_id {
            None => {
                return Err(ApiError::new(ErrorKind::Credential, "Issuer ID not configured for iOS"));
            },
            Some(id) => id,
        };
        let mut texts: Vec<(String, String)> = Vec::new();
        texts.push(pair("iss", issuer_id.as_str()));
        texts.push(pair("aud", "appstoreconnect-v1"));
        let mut numbers: Vec<(String, i64)> = Vec::new();
        numbers.push((String::from_str("exp"), now.secs + ASSERTION_VALIDITY_SECS));
        assert(texts.deep_view() =~= seq![("iss"@, self.config@.issuer_id->0), ("aud"@, audience())]);
        assert(numbers.deep_view() =~= seq![("exp"@, (now.secs + ASSERTION_VALIDITY_SECS) as i64)]);
        Ok(Claims { algorithm: SigningAlgorithm::Es256, key_id, texts, numbers })
    }

    /// Signs the assertion that authenticates against the store with the key
    /// material read from the configured file.
    pub fn generate_jwt(&self, key_file: &Result<String, String>, now: &Timestamp) -> (r: Result<
        Assertion,
        ApiError,
    >)
        requires
            mintable(*now),
        ensures
            signing_of(self@.config, crate::http::body_view(*key_file), *now, signed_view(r)),
    {
        let claims = self.assertion_claims(now)?;
        let pem = match key_file {
            Err(why) => {
                return Err(
                    ApiError::with_detail(ErrorKind::Credential, "Failed to read private key file: ", why.as_str()),
                );
            },
            Ok(pem) => pem,
        };
        let key = match ec_key_from_pem(pem.as_str()) {
            Err(why) => {
                return Err(
                    ApiError::with_detail(
                        ErrorKind::Credential,
                        "Failed to create encoding key from EC private key: ",
                        why.as_str(),
                    ),
                );
            },
            Ok(key) => key,
        };
        let encoded = encode(claims.algorithm, claims.key_id.as_str(), &claims.texts, &claims.numbers, &key);
        sealed(encoded, "appstoreconnect-v1")
    }

    fn key_path(&self) -> (r: Result<String, ApiError>)
        ensures
            crate::shape::text_result_of(r) == key_path(self.config@),
    {
        match &self.config.private_key_path {
            None => Err(ApiError::new(ErrorKind::Credential, "Private key path not configured for iOS")),
            Some(path) => {
                if self.config.key_id.is_none() {
                    Err(ApiError::new(ErrorKind::Credential, "Key ID not configured for iOS"))
                } else if self.config.issuer_id.is_none() {
                    Err(ApiError::new(ErrorKind::Credential, "Issuer ID not configured for iOS"))
                } else {
                    Ok(path.clone())
                }
            },
        }
    }

    fn dispatch(&mut self, call: Call) -> (a: Action)
        ensures
            (final(self)@, a@) == old(self)@.dispatch(call@),
    {
        match self.tokens.token() {
            Some(token) => {
                let request = build_request(self.config.app_id.as_str(), token.as_str(), &call);
                self.stage = Stage::Reply(call);
                Action::Send(request)
            },
            None => {
                self.stage = Stage::Idle;
                Action::Failed(unexpected_event())
            },
        }
    }

    fn begin(&mut self, call: Call, now: &Timestamp) -> (a: Action)
        ensures
            (final(self)@, a@) == old(self)@.begin(call@, *now),
    {
        match call {
            Call::LoadNextPage => {
                self.stage = Stage::Idle;
                let reviews: Vec<Review> = Vec::new();
                assert(reviews.deep_view() =~= Seq::empty());
                return Action::Done(Outcome::Reviews(reviews));
            },
            _ => {},
        }
        self.authorize(call, now)
    }

    fn authorize(&mut self, call: Call, now: &Timestamp) -> (a: Action)
        ensures
            (final(self)@, a@) == old(self)@.authorize(call@, *now),
    {
        if self.tokens.needs_refresh(now) {
            match self.key_path() {
                Err(e) => {
                    self.stage = Stage::Idle;
                    Action::Failed(e)
                },
                Ok(path) => {
                    self.stage = Stage::Key(call);
                    Action::ReadFile(path)
                },
            }
        } else {
            self.dispatch(call)
        }
    }

    fn signed(&mut self, result: Result<Assertion, ApiError>, now: &Timestamp) -> (a: Action)
        requires
            mintable(*now),
        ensures
            (final(self)@, a@) == old(self)@.signed(signed_view(result), *now),
    {
        let mut stage = Stage::Idle;
        core::mem::swap(&mut self.stage, &mut stage);
        match stage {
            Stage::Key(call) => match result {
                Err(e) => Action::Failed(e),
                Ok(assertion) => {
                    self.tokens.store(assertion.jwt, now, TOKEN_LIFETIME_SECS);
                    self.dispatch(call)
                },
            },
            _ => Action::Failed(unexpected_event()),
        }
    }

    fn replied(&mut self, reply: &HttpReply, now: &Timestamp) -> (a: Action)
        ensures
            (final(self)@, a@) == old(self)@.replied(reply@, *now),
    {
        let mut stage = Stage::Idle;
        core::mem::swap(&mut self.stage, &mut stage);
        match stage {
            Stage::Reply(Call::SubmitResponse { .. }) => match read_submission(reply) {
                Ok(_) => Action::Done(Outcome::Submitted),
                Err(e) => Action::Failed(e),
            },
            Stage::Reply(Call::GetReviewResponse { .. }) => match read_lookup(reply) {
                Err(e) => Action::Failed(e),
                Ok(None) => Action::Done(Outcome::Response(None)),
                Ok(Some(response_id)) => self.authorize(Call::GetResponseDetails { response_id }, now),
            },
            Stage::Reply(Call::GetResponseDetails { response_id }) => match read_details(
                response_id.as_str(),
                reply,
            ) {
                Ok(response) => Action::Done(Outcome::Response(Some(response))),
                Err(e) => Action::Failed(e),
            },
            Stage::Reply(_) => match read_reviews(reply) {
                Ok(reviews) => Action::Done(Outcome::Reviews(reviews)),
                Err(e) => Action::Failed(e),
            },
            _ => Action::Failed(unexpected_event()),
        }
    }

    /// Moves the adapter on by `input` and says what to do next.
    pub fn advance(&mut self, input: Input, now: &Timestamp) -> (a: Action)
        requires
            mintable(*now),
        ensures
            (final(self)@, a@) == old(self)@.step(input@, *now),
    {
        match input {
            Input::Begin(call) => self.begin(call, now),
            Input::Signed(result) => self.signed(result, now),
            Input::Reply(reply) => self.replied(&reply, now),
        }
    }

    /// Moves the adapter on by what the caller hands back: a reply as it is,
    /// key material by way of the assertion signed with it.
    pub fn resume(&mut self, event: Event, now: &Timestamp) -> (a: Action)
        requires
            mintable(*now),
        ensures
            match event@ {
                EventView::Reply(reply) => (final(self)@, a@) == old(self)@.step(InputView::Reply(reply), *now),
                EventView::File(file) => exists|result: Result<AssertionView, ApiErrorView>|
                    signing_of(old(self)@.config, file, *now, result) && (final(self)@, a@) == old(self)@.step(
                        InputView::Signed(result),
                        *now,
                    ),
            },
    {
        match event {
            Event::Reply(reply) => self.advance(Input::Reply(reply), now),
            Event::File(file) => {
                let result = self.generate_jwt(&file, now);
                let ghost witness = signed_view(result);
                let a = self.advance(Input::Signed(result), now);
                assert(signing_of(old(self)@.config, crate::http::body_view(file), *now, witness) && (self@, a@)
                    == old(self)@.step(
                    InputView::Signed(witness),
                    *now,
                ));
                a
            },
        }
    }

    /// Starts fetching the reviews of the app.
    pub fn get_reviews(&mut self, now: &Timestamp) -> (a: Action)
        requires
            mintable(*now),
        ensures
            (final(self)@, a@) == old(self)@.step(InputView::Begin(CallView::GetReviews), *now),
    {
        self.advance(Input::Begin(Call::GetReviews), now)
    }

    /// Starts posting `response_body` as the response to a review.
    pub fn submit_response(&mut self, review_id: &str, response_body: &str, now: &Timestamp) -> (a: Action)
        requires
            mintable(*now),
        ensures
            (final(self)@, a@) == old(self)@.step(
                InputView::Begin(
                    CallView::SubmitResponse { review_id: review_id@, response_body: response_body@ },
                ),
                *now,
            ),
    {
        self.advance(
            Input::Begin(
                Call::SubmitResponse {
                    review_id: String::from_str(review_id),
                    response_body: String::from_str(response_body),
                },
            ),
            now,
        )
    }

    /// Starts looking up the response to a review.
    pub fn get_review_response(&mut self, review_id: &str, now: &Timestamp) -> (a: Action)
        requires
            mintable(*now),
        ensures
            (final(self)@, a@) == old(self)@.step(
                InputView::Begin(CallView::GetReviewResponse { review_id: review_id@ }),
                *now,
            ),
    {
        self.advance(Input::Begin(Call::GetReviewResponse { review_id: String::from_str(review_id) }), now)
    }
}

} // verus!
