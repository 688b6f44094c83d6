//! The adapter for Google Play: reviews page by page, replies posted to a
//! review, and access tokens had in exchange for a signed assertion.

use vstd::prelude::*;
use vstd::string::StringExecFns;
use crate::config::{Config, ConfigView};
use crate::http::{
    failure, join, join3, json_text, object1, object2, pair, ApiError, ApiErrorView, ErrorKind,
    HttpReply, HttpReplyView, HttpRequest, HttpRequestView, Method,
};
use crate::json::{parse, parsed_document, Json, JsonView};
use crate::jwt::{
    encode, led_by, rsa_key_from_pem, rsa_key_refusal, sealed, Claims, ClaimsView, SigningAlgorithm,
};
use crate::protocol::{
    finished, signed_view, unexpected, unexpected_event, Action, ActionView, Assertion,
    AssertionView, Call, CallView, Event, EventView, Input, InputView, Outcome, OutcomeView, Stage,
    StageView,
};
use crate::replies::{
    body_failure, document_of, read_document, read_submission, submit_outcome, text_or,
    text_or_default, unexpected_body, Leads, Wording,
};
use crate::review::{
    valid_rating, ResponseState, Review, ReviewResponse, ReviewResponseView, ReviewView,
};
use crate::shape::{read_text, required_text};
use crate::text::{decimal, decimal_string, integer_of, parse_i64};
use crate::time::{instant_at, representable, Timestamp};
use crate::token::{mintable, minted, renewal_due, CredentialView, TokenManager};

verus! {

/// How long an access token is used, in seconds.
pub const TOKEN_LIFETIME_SECS: u32 = 3300;

/// How long a signed assertion is valid, in seconds.
pub const ASSERTION_VALIDITY_SECS: i64 = 3600;

/// The root of the REST interface.
pub open spec fn base() -> Seq<char> {
    "https://www.googleapis.com/androidpublisher/v3"@
}

/// `acc` with `part` behind it, a bar between the two; empty parts leave no
/// trace.
pub open spec fn with_part(acc: Seq<char>, part: Seq<char>) -> Seq<char> {
    if part.len() == 0 {
        acc
    } else if acc.len() == 0 {
        part
    } else {
        acc + " | "@ + part
    }
}

/// The device, the API level of its system and the language of a user comment,
/// those that are given joined by bars, or `Unknown` where none is.
pub open spec fn territory_of(comment: JsonView) -> Seq<char> {
    let device = text_or(comment, "device"@, Seq::empty());
    let system = match comment.i64_at("androidOsVersion"@) {
        Some(level) => "API "@ + decimal(level as int),
        None => Seq::empty(),
    };
    let language = text_or(comment, "reviewerLanguage"@, Seq::empty());
    let shown = with_part(with_part(with_part(Seq::empty(), device), system), language);
    if shown.len() == 0 {
        "Unknown"@
    } else {
        shown
    }
}

/// The app version of a user comment: its name and, in brackets, its code;
/// one of the two where the other is missing.
pub open spec fn version_of(comment: JsonView) -> Option<Seq<char>> {
    match (comment.str_at("appVersionName"@), comment.i64_at("appVersionCode"@)) {
        (Some(name), Some(code)) => Some(name + " ("@ + decimal(code as int) + ")"@),
        (Some(name), None) => Some(name),
        (None, Some(code)) => Some("Build "@ + decimal(code as int)),
        (None, None) => None,
    }
}

/// The instant that a comment was last modified: the decimal `seconds` of
/// its `lastModified`.
pub open spec fn modified_seconds(comment: JsonView) -> Option<i64> {
    match comment.get("lastModified"@) {
        None => None,
        Some(modified) => match modified.str_at("seconds"@) {
            None => None,
            Some(text) => integer_of(text),
        },
    }
}

/// The user comment of a review item: the `userComment` of the first of its
/// `comments`.
pub open spec fn user_comment_of(item: JsonView) -> Option<JsonView> {
    match item.get("comments"@) {
        None => None,
        Some(comments) => match comments.as_array() {
            None => None,
            Some(list) => if list.len() == 0 {
                None
            } else {
                list[0].get("userComment"@)
            },
        },
    }
}

/// The review that an item of a page describes. An item describes none
/// unless it has a string `reviewId` and a user comment with a `starRating`
/// of one to five, a `text` and a modification time that the calendar can
/// hold. Everything else is optional.
pub open spec fn review_in(item: JsonView) -> Option<ReviewView> {
    match (item.str_at("reviewId"@), user_comment_of(item)) {
        (Some(id), Some(comment)) => match (
            comment.i64_at("starRating"@),
            comment.get("text"@),
            modified_seconds(comment),
        ) {
            (Some(stars), Some(text), Some(secs)) => if valid_rating(stars as int) && representable(secs, 0) {
                Some(
                    ReviewView {
                        id,
                        rating: stars as i32,
                        title: None,
                        body: text.as_str(),
                        reviewer_nickname: text_or(item, "authorName"@, "Anonymous"@),
                        created_date: Timestamp { secs, nanos: 0 },
                        territory: territory_of(comment),
                        version: version_of(comment),
                        response: None,
                    },
                )
            } else {
                None
            },
            _ => None,
        },
        _ => None,
    }
}

/// The reviews that the first `upto` items describe, in their order; items
/// that describe none are passed over.
pub open spec fn reviews_among(items: Seq<JsonView>, upto: int) -> Seq<ReviewView>
    decreases upto,
{
    if upto <= 0 {
        Seq::empty()
    } else {
        match review_in(items[upto - 1]) {
            Some(review) => reviews_among(items, upto - 1).push(review),
            None => reviews_among(items, upto - 1),
        }
    }
}

/// One page of reviews and the token of the page after it, if there is one.
pub struct PageView {
    pub reviews: Seq<ReviewView>,
    pub next: Option<Seq<char>>,
}

/// The page that a document describes: the reviews among its `reviews` and
/// the `nextPageToken` of its `tokenPagination`.
pub open spec fn page_of(doc: JsonView) -> PageView {
    PageView {
        reviews: match doc.get("reviews"@) {
            Some(JsonView::Array(items)) => reviews_among(items, items.len() as int),
            _ => Seq::empty(),
        },
        next: match doc.get("tokenPagination"@) {
            Some(pagination) => pagination.str_at("nextPageToken"@),
            None => None,
        },
    }
}

/// The wording of the failures of a page request.
pub open spec fn page_wording() -> Wording {
    Wording {
        no_response: "Failed to fetch reviews: "@,
        bad_status: "API request failed with status "@,
        unreadable: "Failed to read response text: "@,
        not_json: "Failed to parse reviews response: "@,
    }
}

/// The page that a reply to a page request holds, or the failure it amounts
/// to.
pub open spec fn page_outcome(reply: HttpReplyView) -> Result<PageView, ApiErrorView> {
    match document_of(reply, page_wording()) {
        Err(e) => Err(e),
        Ok(doc) => Ok(page_of(doc)),
    }
}

/// The first developer comment among `comments[from..]`.
pub open spec fn developer_comment_from(comments: Seq<JsonView>, from: int) -> Option<JsonView>
    decreases comments.len() - from,
{
    if from < 0 || from >= comments.len() {
        None
    } else {
        match comments[from].get("developerComment"@) {
            Some(comment) => Some(comment),
            None => developer_comment_from(comments, from + 1),
        }
    }
}

/// The developer's reply that a review document holds, if it holds one. A
/// reply is published at once. Where its modification time is missing it
/// counts as the epoch, and where the calendar cannot hold it, as `now`.
pub open spec fn reply_in(review_id: Seq<char>, doc: JsonView, now: Timestamp) -> Option<ReviewResponseView> {
    match doc.get("comments"@) {
        Some(JsonView::Array(comments)) => match developer_comment_from(comments, 0) {
            None => None,
            Some(comment) => {
                let secs = match modified_seconds(comment) {
                    Some(secs) => secs,
                    None => 0i64,
                };
                Some(
                    ReviewResponseView {
                        id: review_id + "-response"@,
                        response_body: text_or(comment, "text"@, Seq::empty()),
                        last_modified_date: if representable(secs, 0) {
                            Timestamp { secs, nanos: 0 }
                        } else {
                            now
                        },
                        state: ResponseState::Published,
                    },
                )
            },
        },
        _ => None,
    }
}

/// The wording of the failures of the request for one review.
pub open spec fn review_wording() -> Wording {
    Wording {
        no_response: "Failed to fetch review: "@,
        bad_status: ""@,
        unreadable: "Failed to read response text: "@,
        not_json: "Failed to parse review response: "@,
    }
}

/// The developer's reply that a reply to the request for one review holds;
/// none where the status is outside the success class.
pub open spec fn reply_outcome(review_id: Seq<char>, reply: HttpReplyView, now: Timestamp) -> Result<
    Option<ReviewResponseView>,
    ApiErrorView,
> {
    if reply matches HttpReplyView::Response { status, .. } && !crate::http::success(status) {
        Ok(None)
    } else {
        match document_of(reply, review_wording()) {
            Err(e) => Err(e),
            Ok(doc) => Ok(reply_in(review_id, doc, now)),
        }
    }
}

fn append_part(acc: &mut String, part: &str)
    ensures
        final(acc)@ == with_part(old(acc)@, part@),
{
    if part.is_empty() {
    } else if acc.as_str().is_empty() {
        acc.append(part);
        assert(old(acc)@ + part@ =~= part@);
    } else {
        acc.append(" | ");
        acc.append(part);
    }
}

fn territory(comment: &Json) -> (s: String)
    ensures
        s@ == territory_of(comment@),
{
    let device = text_or_default(comment, "device");
    let system = match comment.i64_at("androidOsVersion") {
        Some(level) => join("API ", decimal_string(level).as_str()),
        None => String::new(),
    };
    let language = text_or_default(comment, "reviewerLanguage");
    let mut shown = String::new();
    append_part(&mut shown, device.as_str());
    append_part(&mut shown, system.as_str());
    append_part(&mut shown, language.as_str());
    if shown.as_str().is_empty() {
        String::from_str("Unknown")
    } else {
        shown
    }
}

fn version(comment: &Json) -> (v: Option<String>)
    ensures
        v.deep_view() == version_of(comment@),
{
    match (comment.str_at("appVersionName"), comment.i64_at("appVersionCode")) {
        (Some(name), Some(code)) => {
            let mut v = join3(name.as_str(), " (", decimal_string(code).as_str());
            v.append(")");
            Some(v)
        },
        (Some(name), None) => Some(name.clone()),
        (None, Some(code)) => Some(join("Build ", decimal_string(code).as_str())),
        (None, None) => None,
    }
}

fn modified(comment: &Json) -> (r: Option<i64>)
    ensures
        r == modified_seconds(comment@),
{
    match comment.get("lastModified") {
        None => None,
        Some(m) => match m.str_at("seconds") {
            None => None,
            Some(text) => parse_i64(text.as_str()),
        },
    }
}

fn user_comment(item: &Json) -> (r: Option<&Json>)
    ensures
        crate::json::view_of(r) == user_comment_of(item@),
{
    match item.get("comments") {
        None => None,
        Some(comments) => match comments.as_array() {
            None => None,
            Some(list) => {
                if list.len() == 0 {
                    None
                } else {
                    assert(list.deep_view()[0] == list@[0]@);
                    list[0].get("userComment")
                }
            },
        },
    }
}

/// The plain form of an optional review.
pub open spec fn review_view(r: Option<Review>) -> Option<ReviewView> {
    match r {
        Some(review) => Some(review@),
        None => None,
    }
}

/// Reads the review that an item of a page describes.
pub fn parse_google_play_review(review_data: &Json) -> (r: Option<Review>)
    ensures
        review_view(r) == review_in(review_data@),
{
    let id = review_data.str_at("reviewId")?.clone();
    let reviewer_nickname = match review_data.str_at("authorName") {
        Some(name) => name.clone(),
        None => String::from_str("Anonymous"),
    };
    let comment = user_comment(review_data)?;
    let stars = comment.i64_at("starRating")?;
    if stars < 1 || stars > 5 {
        return None;
    }
    let body = match comment.get("text")?.as_str() {
        Some(text) => Some(text.clone()),
        None => None,
    };
    let secs = modified(comment)?;
    let created_date = instant_at(secs, 0)?;
    Some(
        Review {
            id,
            rating: stars as i32,
            title: None,
            body,
            reviewer_nickname,
            created_date,
            territory: territory(comment),
            version: version(comment),
            response: None,
        },
    )
}

/// The reviews of a page and the token of the page after it.
#[derive(Debug, PartialEq, Eq)]
pub struct Page {
    pub reviews: Vec<Review>,
    pub next: Option<String>,
}

impl View for Page {
    type V = PageView;

    open spec fn view(&self) -> PageView {
        PageView { reviews: self.reviews.deep_view(), next: self.next.deep_view() }
    }
}

/// The plain form of a page or a failure.
pub open spec fn page_view(r: Result<Page, ApiError>) -> Result<PageView, ApiErrorView> {
    match r {
        Ok(page) => Ok(page@),
        Err(e) => Err(e@),
    }
}

/// Reads the page that a document describes.
pub fn read_page_document(doc: &Json) -> (page: Page)
    ensures
        page@ == page_of(doc@),
{
    let mut reviews: Vec<Review> = Vec::new();
    assert(reviews.deep_view() =~= Seq::empty());
    match doc.get("reviews") {
        Some(list) => match list.as_array() {
            Some(items) => {
                let mut i: usize = 0;
                while i < items.len()
                    invariant
                        i <= items.len(),
                        reviews.deep_view() == reviews_among(items.deep_view(), i as int),
                    decreases items.len() - i,
                {
                    assert(items.deep_view()[i as int] == items@[i as int]@);
                    match parse_google_play_review(&items[i]) {
                        Some(review) => {
                            let ghost before = reviews.deep_view();
                            reviews.push(review);
                            assert(reviews.deep_view() =~= before.push(review@));
                        },
                        None => {},
                    }
                    i += 1;
                }
            },
            None => {},
        },
        None => {},
    }
    let next = match doc.get("tokenPagination") {
        Some(pagination) => match pagination.str_at("nextPageToken") {
            Some(token) => Some(token.clone()),
            None => None,
        },
        None => None,
    };
    Page { reviews, next }
}

fn page_leads() -> (l: Leads<'static>)
    ensures
        l@ == page_wording(),
{
    Leads {
        no_response: "Failed to fetch reviews: ",
        bad_status: "API request failed with status ",
        unreadable: "Failed to read response text: ",
        not_json: "Failed to parse reviews response: ",
    }
}

fn review_leads() -> (l: Leads<'static>)
    ensures
        l@ == review_wording(),
{
    Leads {
        no_response: "Failed to fetch review: ",
        bad_status: "",
        unreadable: "Failed to read response text: ",
        not_json: "Failed to parse review response: ",
    }
}

/// Reads the page out of a reply to a page request.
pub fn read_page(reply: &HttpReply) -> (r: Result<Page, ApiError>)
    ensures
        page_view(r) == page_outcome(reply@),
{
    let leads = page_leads();
    let doc = read_document(reply, &leads)?;
    Ok(read_page_document(&doc))
}

/// The plain form of an optional response.
pub open spec fn optional_response(r: Option<ReviewResponse>) -> Option<ReviewResponseView> {
    match r {
        Some(response) => Some(response@),
        None => None,
    }
}

/// Reads the developer's reply that a review document holds.
pub fn read_reply_document(review_id: &str, doc: &Json, now: &Timestamp) -> (r: Option<ReviewResponse>)
    ensures
        optional_response(r) == reply_in(review_id@, doc@, *now),
{
    let comments = doc.get("comments")?.as_array()?;
    let mut i: usize = 0;
    while i < comments.len()
        invariant
            i <= comments.len(),
            doc@.get("comments"@) == Some(JsonView::Array(comments.deep_view())),
            developer_comment_from(comments.deep_view(), i as int) == developer_comment_from(
                comments.deep_view(),
                0,
            ),
        decreases comments.len() - i,
    {
        assert(comments.deep_view()[i as int] == comments@[i as int]@);
        match comments[i].get("developerComment") {
            Some(comment) => {
                let secs = match modified(comment) {
                    Some(secs) => secs,
                    None => 0,
                };
                let last_modified_date = match instant_at(secs, 0) {
                    Some(t) => t,
                    None => *now,
                };
                return Some(
                    ReviewResponse {
                        id: join(review_id, "-response"),
                        response_body: text_or_default(comment, "text"),
                        last_modified_date,
                        state: ResponseState::Published,
                    },
                );
            },
            None => {},
        }
        i += 1;
    }
    None
}

/// The plain form of an optional response or a failure.
pub open spec fn lookup_view(r: Result<Option<ReviewResponse>, ApiError>) -> Result<
    Option<ReviewResponseView>,
    ApiErrorView,
> {
    match r {
        Ok(response) => Ok(optional_response(response)),
        Err(e) => Err(e@),
    }
}

/// Reads the developer's reply out of a reply to the request for one review.
pub fn read_reply(review_id: &str, reply: &HttpReply, now: &Timestamp) -> (r: Result<
    Option<ReviewResponse>,
    ApiError,
>)
    ensures
        lookup_view(r) == reply_outcome(review_id@, reply@, *now),
{
    match reply {
        HttpReply::Response { status, .. } => {
            if !crate::http::is_success(*status) {
                return Ok(None);
            }
        },
        _ => {},
    }
    let leads = review_leads();
    let doc = read_document(reply, &leads)?;
    Ok(read_reply_document(review_id, &doc, now))
}

/// The key of a service account, as its JSON file gives it.
#[derive(Debug, PartialEq, Eq)]
pub struct ServiceAccountKey {
    pub key_type: String,
    pub project_id: String,
    pub private_key_id: String,
    pub private_key: String,
    pub client_email: String,
    pub client_id: String,
    pub auth_uri: String,
    pub token_uri: String,
}

/// What a `ServiceAccountKey` holds.
pub struct ServiceAccountView {
    pub key_type: Seq<char>,
    pub project_id: Seq<char>,
    pub private_key_id: Seq<char>,
    pub private_key: Seq<char>,
    pub client_email: Seq<char>,
    pub client_id: Seq<char>,
    pub auth_uri: Seq<char>,
    pub token_uri: Seq<char>,
}

impl View for ServiceAccountKey {
    type V = ServiceAccountView;

    open spec fn view(&self) -> ServiceAccountView {
        ServiceAccountView {
            key_type: self.key_type@,
            project_id: self.project_id@,
            private_key_id: self.private_key_id@,
            private_key: self.private_key@,
            client_email: self.client_email@,
            client_id: self.client_id@,
            auth_uri: self.auth_uri@,
            token_uri: self.token_uri@,
        }
    }
}

/// The service account key that a document describes: eight string members,
/// all required. A failure is the name of the first one missing.
pub open spec fn account_in(doc: JsonView) -> Result<ServiceAccountView, Seq<char>> {
    match required_text(doc, "type"@) {
        Err(e) => Err(e),
        Ok(key_type) => match required_text(doc, "project_id"@) {
            Err(e) => Err(e),
            Ok(project_id) => match required_text(doc, "private_key_id"@) {
                Err(e) => Err(e),
                Ok(private_key_id) => match required_text(doc, "private_key"@) {
                    Err(e) => Err(e),
                    Ok(private_key) => match required_text(doc, "client_email"@) {
                        Err(e) => Err(e),
                        Ok(client_email) => match required_text(doc, "client_id"@) {
                            Err(e) => Err(e),
                            Ok(client_id) => match required_text(doc, "auth_uri"@) {
                                Err(e) => Err(e),
                                Ok(auth_uri) => match required_text(doc, "token_uri"@) {
                                    Err(e) => Err(e),
                                    Ok(token_uri) => Ok(
                                        ServiceAccountView {
                                            key_type,
                                            project_id,
                                            private_key_id,
                                            private_key,
                                            client_email,
                                            client_id,
                                            auth_uri,
                                            token_uri,
                                        },
                                    ),
                                },
                            },
                        },
                    },
                },
            },
        },
    }
}

/// The service account key in the file that was read, or the failure to get
/// one out of it.
pub open spec fn service_account_of(file: Result<Seq<char>, Seq<char>>) -> Result<ServiceAccountView, ApiErrorView> {
    match file {
        Err(why) => Err(failure(ErrorKind::Credential, "Failed to read service account file: "@ + why)),
        Ok(text) => match parsed_document(text) {
            Err(detail) => Err(
                failure(ErrorKind::Credential, "Failed to parse service account JSON: "@ + detail),
            ),
            Ok(doc) => match account_in(doc) {
                Err(field) => Err(
                    failure(
                        ErrorKind::Credential,
                        "Failed to parse service account JSON: missing or invalid field `"@ + field + "`"@,
                    ),
                ),
                Ok(account) => Ok(account),
            },
        },
    }
}

/// The scope that an assertion asks for.
pub open spec fn scope() -> Seq<char> {
    "https://www.googleapis.com/auth/androidpublisher"@
}

/// What the assertion signed at `now` for `account` states: the account as
/// issuer, the publisher scope, the token endpoint as audience, `now` as the
/// time of issue and an expiry an hour on, under the key's identifier.
pub open spec fn claims_for(account: ServiceAccountView, now: Timestamp) -> ClaimsView {
    ClaimsView {
        algorithm: SigningAlgorithm::Rs256,
        key_id: account.private_key_id,
        texts: seq![("iss"@, account.client_email), ("scope"@, scope()), ("aud"@, account.token_uri)],
        numbers: seq![("exp"@, (now.secs + ASSERTION_VALIDITY_SECS) as i64), ("iat"@, now.secs)],
    }
}

/// What signing may give for the key file read. A failure to get a key out
/// of the file is passed on, and a key that is refused fails with the
/// refusal. Otherwise an assertion is addressed to the key's token
/// endpoint, and a failure is one of the encoding.
pub open spec fn signing_of(file: Result<Seq<char>, Seq<char>>, result: Result<AssertionView, ApiErrorView>) -> bool {
    match service_account_of(file) {
        Err(e) => result == Err::<AssertionView, ApiErrorView>(e),
        Ok(account) => match rsa_key_refusal(account.private_key) {
            Some(why) => result == Err::<AssertionView, ApiErrorView>(
                failure(ErrorKind::Credential, "Failed to create encoding key from RSA private key: "@ + why),
            ),
            None => match result {
                Ok(assertion) => assertion.audience == account.token_uri,
                Err(e) => e.kind == ErrorKind::Credential && led_by(e.message, "Failed to encode JWT: "@),
            },
        },
    }
}

/// The request that exchanges an assertion for an access token.
pub open spec fn token_request(assertion: AssertionView) -> HttpRequestView {
    HttpRequestView {
        method: Method::Post,
        url: assertion.audience,
        bearer: None,
        query: Seq::empty(),
        json_content: true,
        body: Some(
            JsonView::Object(
                seq![
                    ("assertion"@, JsonView::Text(assertion.jwt)),
                    ("grant_type"@, JsonView::Text("urn:ietf:params:oauth:grant-type:jwt-bearer"@)),
                ],
            ),
        ),
    }
}

/// The wording of the failures of the token exchange.
pub open spec fn token_wording() -> Wording {
    Wording {
        no_response: "Failed to request access token: "@,
        bad_status: "Failed to get access token with status "@,
        unreadable: "Failed to parse token response: "@,
        not_json: "Failed to parse token response: "@,
    }
}

/// The access token that a reply to the exchange holds.
pub open spec fn token_outcome(reply: HttpReplyView) -> Result<Seq<char>, ApiErrorView> {
    match document_of(reply, token_wording()) {
        Err(e) => Err(e),
        Ok(doc) => match doc.str_at("access_token"@) {
            Some(token) => Ok(token),
            None => Err(unexpected_body("No access token in response"@, reply)),
        },
    }
}

/// The query of a page request: the access token, the page size and, from
/// the second page on, the token of the page.
pub open spec fn page_query(token: Seq<char>, cursor: Option<Seq<char>>) -> Seq<(Seq<char>, Seq<char>)> {
    match cursor {
        Some(page) => seq![("access_token"@, token), ("maxResults"@, "100"@), ("token"@, page)],
        None => seq![("access_token"@, token), ("maxResults"@, "100"@)],
    }
}

/// The request for a page of reviews.
pub open spec fn page_request(app_id: Seq<char>, token: Seq<char>, cursor: Option<Seq<char>>) -> HttpRequestView {
    HttpRequestView {
        method: Method::Get,
        url: base() + "/applications/"@ + app_id + "/reviews"@,
        bearer: None,
        query: page_query(token, cursor),
        json_content: false,
        body: None,
    }
}

/// The request that posts a reply to a review.
pub open spec fn reply_request(app_id: Seq<char>, token: Seq<char>, review_id: Seq<char>, text: Seq<char>) -> HttpRequestView {
    HttpRequestView {
        method: Method::Post,
        url: base() + "/applications/"@ + app_id + "/reviews/"@ + review_id + ":reply"@,
        bearer: None,
        query: seq![("access_token"@, token)],
        json_content: true,
        body: Some(JsonView::Object(seq![("replyText"@, JsonView::Text(text))])),
    }
}

/// The request for one review.
pub open spec fn review_request(app_id: Seq<char>, token: Seq<char>, review_id: Seq<char>) -> HttpRequestView {
    HttpRequestView {
        method: Method::Get,
        url: base() + "/applications/"@ + app_id + "/reviews/"@ + review_id,
        bearer: None,
        query: seq![("access_token"@, token)],
        json_content: false,
        body: None,
    }
}

/// What a Google Play adapter holds.
pub struct GooglePlayView {
    pub config: ConfigView,
    pub credential: Option<CredentialView>,
    /// The token of the page to load next, where the store gave one.
    pub next_page_token: Option<Seq<char>>,
    /// Whether the store has pages that were not loaded yet.
    pub has_more_pages: bool,
    pub stage: StageView,
    /// The reviews gathered so far by the refresh under way.
    pub collected: Seq<ReviewView>,
}

impl GooglePlayView {
    /// The adapter at rest.
    pub open spec fn idle(self) -> GooglePlayView {
        GooglePlayView { stage: StageView::Idle, ..self }
    }

    /// The adapter at another stage.
    pub open spec fn at(self, stage: StageView) -> GooglePlayView {
        GooglePlayView { stage, ..self }
    }

    /// The adapter with its cursor back at the first page and nothing
    /// gathered.
    pub open spec fn rewound(self) -> GooglePlayView {
        GooglePlayView { next_page_token: None, has_more_pages: true, collected: Seq::empty(), ..self }
    }

    /// The adapter with its cursor past `page`: there is more to load exactly
    /// where the page names a next one.
    pub open spec fn turned(self, page: PageView) -> GooglePlayView {
        GooglePlayView { next_page_token: page.next, has_more_pages: page.next is Some, ..self }
    }

    /// The request that carries out `call` with the access token `token`.
    pub open spec fn request_for(self, token: Seq<char>, call: CallView) -> HttpRequestView {
        match call {
            CallView::SubmitResponse { review_id, response_body } => reply_request(
                self.config.app_id,
                token,
                review_id,
                response_body,
            ),
            CallView::GetReviewResponse { review_id } => review_request(self.config.app_id, token, review_id),
            _ => page_request(self.config.app_id, token, self.next_page_token),
        }
    }

    /// Sending the request of `call` with the credential held.
    pub open spec fn dispatch(self, call: CallView) -> (GooglePlayView, ActionView) {
        match self.credential {
            Some(c) => (self.at(StageView::Reply(call)), ActionView::Send(self.request_for(c.token, call))),
            None => (self.idle(), ActionView::Failed(unexpected())),
        }
    }

    /// Making sure of a credential before `call`: with one that is not yet
    /// due for renewal the request goes out; otherwise the service account
    /// file is asked for first.
    pub open spec fn authorize(self, call: CallView, now: Timestamp) -> (GooglePlayView, ActionView) {
        if renewal_due(self.credential, now) {
            match self.config.service_account_path {
                None => (
                    self.idle(),
                    ActionView::Failed(
                        failure(ErrorKind::Credential, "Service account path not configured for Android"@),
                    ),
                ),
                Some(path) => (self.at(StageView::Key(call)), ActionView::ReadFile(path)),
            }
        } else {
            self.dispatch(call)
        }
    }

    /// The start of `call`. Loading a page when the store has no more is
    /// over at once with an empty batch; a refresh starts from the first
    /// page. This store has no details of a response to ask for.
    pub open spec fn begin(self, call: CallView, now: Timestamp) -> (GooglePlayView, ActionView) {
        match call {
            CallView::GetReviews | CallView::LoadNextPage => if !self.has_more_pages {
                (self.idle(), ActionView::Done(OutcomeView::Reviews(Seq::empty())))
            } else {
                self.authorize(call, now)
            },
            CallView::RefreshAll => self.rewound().authorize(call, now),
            CallView::GetResponseDetails { .. } => (self.idle(), ActionView::Failed(unexpected())),
            _ => self.authorize(call, now),
        }
    }

    /// What a signing result leads to: an assertion is sent in exchange for
    /// an access token.
    pub open spec fn signed(self, result: Result<AssertionView, ApiErrorView>) -> (GooglePlayView, ActionView) {
        match self.stage {
            StageView::Key(call) => match result {
                Err(e) => (self.idle(), ActionView::Failed(e)),
                Ok(assertion) => (self.at(StageView::Token(call)), ActionView::Send(token_request(assertion))),
            },
            _ => (self.idle(), ActionView::Failed(unexpected())),
        }
    }

    /// What a page leads to during a refresh: its reviews are gathered, and
    /// either the next page is asked for or the refresh is over with all
    /// that was gathered.
    pub open spec fn gathered(self, page: PageView, now: Timestamp) -> (GooglePlayView, ActionView) {
        let all = self.collected + page.reviews;
        if page.next is Some {
            GooglePlayView { collected: all, ..self.turned(page) }.authorize(CallView::RefreshAll, now)
        } else {
            (
                GooglePlayView { collected: Seq::empty(), ..self.turned(page) }.idle(),
                ActionView::Done(OutcomeView::Reviews(all)),
            )
        }
    }

    /// What a reply leads to.
    pub open spec fn replied(self, reply: HttpReplyView, now: Timestamp) -> (GooglePlayView, ActionView) {
        match self.stage {
            StageView::Token(call) => match token_outcome(reply) {
                Err(e) => (self.idle(), ActionView::Failed(e)),
                Ok(token) => GooglePlayView {
                    credential: Some(minted(token, now, TOKEN_LIFETIME_SECS)),
                    ..self
                }.dispatch(call),
            },
            StageView::Reply(CallView::SubmitResponse { .. }) => (
                self.idle(),
                finished(
                    match submit_outcome(reply) {
                        Ok(_) => Ok(OutcomeView::Submitted),
                        Err(e) => Err(e),
                    },
                ),
            ),
            StageView::Reply(CallView::GetReviewResponse { review_id }) => (
                self.idle(),
                finished(
                    match reply_outcome(review_id, reply, now) {
                        Ok(response) => Ok(OutcomeView::Response(response)),
                        Err(e) => Err(e),
                    },
                ),
            ),
            StageView::Reply(CallView::RefreshAll) => match page_outcome(reply) {
                Err(e) => (self.idle(), ActionView::Failed(e)),
                Ok(page) => self.gathered(page, now),
            },
            StageView::Reply(CallView::GetResponseDetails { .. }) => (
                self.idle(),
                ActionView::Failed(unexpected()),
            ),
            StageView::Reply(_) => match page_outcome(reply) {
                Err(e) => (self.idle(), ActionView::Failed(e)),
                Ok(page) => (self.turned(page).idle(), ActionView::Done(OutcomeView::Reviews(page.reviews))),
            },
            _ => (self.idle(), ActionView::Failed(unexpected())),
        }
    }

    /// The adapter and its action after `input` at `now`.
    pub open spec fn step(self, input: InputView, now: Timestamp) -> (GooglePlayView, ActionView) {
        match input {
            InputView::Begin(call) => self.begin(call, now),
            InputView::Signed(result) => self.signed(result),
            InputView::Reply(reply) => self.replied(reply, now),
        }
    }
}

/// An access token is never used within the margin of its expiry: whatever
/// moves the adapter on, a request that goes out for the operation itself
/// carries the token then held, and that token is not due for renewal.
pub proof fn lemma_requests_carry_fresh_credential(c: GooglePlayView, input: InputView, now: Timestamp)
    requires
        mintable(now),
    ensures
        c.step(input, now).0.stage is Reply ==> {
            &&& c.step(input, now).1 is Send
            &&& c.step(input, now).0.credential is Some
            &&& !renewal_due(c.step(input, now).0.credential, now)
            &&& c.step(input, now).1->Send_0.query.len() > 0
            &&& c.step(input, now).1->Send_0.query[0] == (
                "access_token"@,
                c.step(input, now).0.credential->0.token,
            )
        },
{
}

/// A review read from a page has a rating of one to five.
pub proof fn lemma_ratings_are_valid(item: JsonView)
    ensures
        review_in(item) matches Some(review) ==> valid_rating(review.rating as int),
{
}

/// A credential that is due for renewal is renewed once: the operation asks
/// for the key file, exchanges the signed assertion for an access token and
/// sends its request with that token. An operation that starts while more
/// than the margin is left of the fifty-five minutes asks for no key file and
/// sends its request with the same token.
pub proof fn lemma_renewed_once(
    c: GooglePlayView,
    assertion: AssertionView,
    reply: HttpReplyView,
    token: Seq<char>,
    review_id: Seq<char>,
    now: Timestamp,
    later: Timestamp,
)
    requires
        renewal_due(c.credential, now),
        c.config.service_account_path is Some,
        token_outcome(reply) == Ok::<Seq<char>, ApiErrorView>(token),
        mintable(now),
        now.not_after(later),
        later.secs + crate::token::REFRESH_MARGIN_SECS < now.secs + TOKEN_LIFETIME_SECS,
    ensures
        ({
            let call = CallView::GetReviewResponse { review_id };
            let (asked, first) = c.step(InputView::Begin(call), now);
            let (exchanging, second) = asked.step(InputView::Signed(Ok(assertion)), now);
            let (sent, third) = exchanging.step(InputView::Reply(reply), now);
            let (again, fourth) = sent.idle().step(InputView::Begin(call), later);
            &&& first == ActionView::ReadFile(c.config.service_account_path->0)
            &&& second == ActionView::Send(token_request(assertion))
            &&& third == ActionView::Send(review_request(c.config.app_id, token, review_id))
            &&& fourth == third
            &&& again.credential == sent.credential
        }),
{
}

/// The reviews of all of `pages`, in order.
pub open spec fn all_reviews(pages: Seq<PageView>) -> Seq<ReviewView>
    decreases pages.len(),
{
    if pages.len() == 0 {
        Seq::empty()
    } else {
        pages[0].reviews + all_reviews(pages.skip(1))
    }
}

/// `pages` is what a store sends for one walk through its reviews: every
/// page names a next one but the last.
pub open spec fn complete(pages: Seq<PageView>) -> bool {
    &&& pages.len() > 0
    &&& forall|i: int| 0 <= i < pages.len() - 1 ==> (#[trigger] pages[i]).next is Some
    &&& pages.last().next is None
}

/// What the adapter is handed for one page: the instant, the reply to the
/// page request and, should the credential be renewed before the request
/// goes out, the assertion signed and the reply to its exchange.
pub struct Turn {
    pub now: Timestamp,
    pub assertion: AssertionView,
    pub exchange: HttpReplyView,
    pub reply: HttpReplyView,
}

/// The turns serve `pages`, one each, and every renewal succeeds: the reply
/// of a turn holds its page, and its exchange holds an access token.
pub open spec fn serving(turns: Seq<Turn>, pages: Seq<PageView>) -> bool {
    forall|i: int|
        0 <= i < turns.len() && i < pages.len() ==> {
            &&& mintable((#[trigger] turns[i]).now)
            &&& page_outcome(turns[i].reply) == Ok::<PageView, ApiErrorView>(pages[i])
            &&& token_outcome(turns[i].exchange) is Ok
        }
}

/// The adapter and its action once the credential was renewed, where the
/// adapter asked for the key file: the assertion of the turn is handed in
/// and then the reply to its exchange.
pub open spec fn renewed(c: GooglePlayView, action: ActionView, t: Turn) -> (GooglePlayView, ActionView) {
    if action is ReadFile {
        c.step(InputView::Signed(Ok(t.assertion)), t.now).0.step(InputView::Reply(t.exchange), t.now)
    } else {
        (c, action)
    }
}

/// One load in a turn: the start of it, the renewal of the credential where
/// it is due, and the reply to the request that then went out.
pub open spec fn load_in_turn(c: GooglePlayView, t: Turn) -> (GooglePlayView, ActionView) {
    let asked = c.step(InputView::Begin(CallView::LoadNextPage), t.now);
    let ready = renewed(asked.0, asked.1, t);
    if ready.1 is Send {
        ready.0.step(InputView::Reply(t.reply), t.now)
    } else {
        ready
    }
}

/// The batch that an action hands over, if it does.
pub open spec fn batch_of(action: ActionView) -> Seq<ReviewView> {
    match action {
        ActionView::Done(OutcomeView::Reviews(batch)) => batch,
        _ => Seq::empty(),
    }
}

/// The adapter after one load in each of `turns` and the batches the loads
/// returned, one after the other.
pub open spec fn loads_in_turns(c: GooglePlayView, turns: Seq<Turn>) -> (GooglePlayView, Seq<ReviewView>)
    decreases turns.len(),
{
    if turns.len() == 0 {
        (c, Seq::empty())
    } else {
        let first = load_in_turn(c, turns[0]);
        let rest = loads_in_turns(first.0, turns.skip(1));
        (rest.0, batch_of(first.1) + rest.1)
    }
}

/// The adapter and its last action after the page replies of `turns` were
/// handed to it one by one for as long as it sent a request, the credential
/// renewed in the next turn wherever the adapter asked for the key file.
pub open spec fn walked(c: GooglePlayView, action: ActionView, turns: Seq<Turn>) -> (GooglePlayView, ActionView)
    decreases turns.len(),
{
    if turns.len() == 0 || !(action is Send) {
        (c, action)
    } else {
        let next = c.step(InputView::Reply(turns[0].reply), turns[0].now);
        if turns.len() == 1 {
            next
        } else {
            let ready = renewed(next.0, next.1, turns[1]);
            walked(ready.0, ready.1, turns.skip(1))
        }
    }
}

/// The adapter and its last action after one refresh that is served by
/// `turns`.
pub open spec fn refresh_in_turns(c: GooglePlayView, turns: Seq<Turn>) -> (GooglePlayView, ActionView) {
    let asked = c.step(InputView::Begin(CallView::RefreshAll), turns[0].now);
    let ready = renewed(asked.0, asked.1, turns[0]);
    walked(ready.0, ready.1, turns)
}

/// With a service account configured, making sure of the credential before
/// a page request ends with the request sent, whether the credential was due
/// for renewal or not: a renewal that succeeds changes the credential and
/// nothing else.
pub proof fn lemma_renewal_leads_to_request(c: GooglePlayView, call: CallView, now: Timestamp, t: Turn)
    requires
        c.config.service_account_path is Some,
        mintable(t.now),
        token_outcome(t.exchange) is Ok,
    ensures
        ({
            let asked = c.authorize(call, now);
            let ready = renewed(asked.0, asked.1, t);
            &&& ready.1 is Send
            &&& ready.0.stage == StageView::Reply(call)
            &&& ready.0.next_page_token == c.next_page_token
            &&& ready.0.has_more_pages == c.has_more_pages
            &&& ready.0.collected == c.collected
            &&& ready.0.config == c.config
        }),
{
}

/// Loads that find no more pages return empty batches and change nothing
/// about that.
pub proof fn lemma_loads_after_the_last_page(c: GooglePlayView, turns: Seq<Turn>)
    requires
        !c.has_more_pages,
    ensures
        loads_in_turns(c, turns).1 == Seq::<ReviewView>::empty(),
        !loads_in_turns(c, turns).0.has_more_pages,
    decreases turns.len(),
{
    if turns.len() > 0 {
        let first = load_in_turn(c, turns[0]);
        assert(first.1 == ActionView::Done(OutcomeView::Reviews(Seq::empty())));
        lemma_loads_after_the_last_page(first.0, turns.skip(1));
        assert(batch_of(first.1) + loads_in_turns(first.0, turns.skip(1)).1 =~= Seq::<ReviewView>::empty());
    }
}

/// Loads in a row return, batch after batch, the reviews of the pages that
/// the store sends, in order, whenever the credential is renewed in between:
/// after as many loads as the store has pages, and after however many more,
/// the batches together are the reviews of all pages. The adapter reports
/// more reviews until the page that names no next one was loaded, and none
/// from then on.
pub proof fn lemma_loads_return_all_pages(c: GooglePlayView, turns: Seq<Turn>, pages: Seq<PageView>)
    requires
        c.has_more_pages,
        c.config.service_account_path is Some,
        complete(pages),
        serving(turns, pages),
    ensures
        turns.len() >= pages.len() ==> loads_in_turns(c, turns).1 == all_reviews(pages),
        turns.len() < pages.len() ==> loads_in_turns(c, turns).1 == all_reviews(pages.take(turns.len() as int)),
        loads_in_turns(c, turns).0.has_more_pages == (turns.len() < pages.len()),
    decreases turns.len(),
{
    if turns.len() == 0 {
        assert(pages.take(0).len() == 0);
    } else {
        let t = turns[0];
        let page = pages[0];
        assert(page_outcome(t.reply) == Ok::<PageView, ApiErrorView>(page));
        lemma_renewal_leads_to_request(c, CallView::LoadNextPage, t.now, t);
        let first = load_in_turn(c, t);
        assert(first.1 == ActionView::Done(OutcomeView::Reviews(page.reviews)));
        assert(first.0.has_more_pages == (page.next is Some));
        assert(first.0.config == c.config);
        let rest_turns = turns.skip(1);
        let rest_pages = pages.skip(1);
        if pages.len() == 1 {
            assert(pages.last() == page);
            lemma_loads_after_the_last_page(first.0, rest_turns);
            assert(all_reviews(rest_pages) == Seq::<ReviewView>::empty());
            assert(page.reviews + Seq::<ReviewView>::empty() =~= page.reviews);
        } else {
            assert(page.next is Some);
            assert(rest_pages.last() == pages.last());
            assert forall|i: int| 0 <= i < rest_pages.len() - 1 implies (#[trigger] rest_pages[i]).next is Some by {
                assert(rest_pages[i] == pages[i + 1]);
            }
            assert forall|i: int| 0 <= i < rest_turns.len() && i < rest_pages.len() implies {
                &&& mintable((#[trigger] rest_turns[i]).now)
                &&& page_outcome(rest_turns[i].reply) == Ok::<PageView, ApiErrorView>(rest_pages[i])
                &&& token_outcome(rest_turns[i].exchange) is Ok
            } by {
                assert(rest_turns[i] == turns[i + 1]);
                assert(rest_pages[i] == pages[i + 1]);
            }
            lemma_loads_return_all_pages(first.0, rest_turns, rest_pages);
            if turns.len() < pages.len() {
                let m = turns.len() as int;
                assert(pages.take(m)[0] == page);
                assert(pages.take(m).skip(1) =~= rest_pages.take(m - 1));
            }
        }
    }
}

/// What is left of a refresh gathers the reviews of the pages still to come
/// behind what was gathered before, whenever the credential is renewed in
/// between, and ends with the adapter at rest and no more pages to load.
pub proof fn lemma_walk_gathers_all_pages(c: GooglePlayView, action: ActionView, turns: Seq<Turn>, pages: Seq<PageView>)
    requires
        c.stage == StageView::Reply(CallView::RefreshAll),
        action is Send,
        c.config.service_account_path is Some,
        complete(pages),
        turns.len() == pages.len(),
        serving(turns, pages),
    ensures
        walked(c, action, turns).1 == ActionView::Done(OutcomeView::Reviews(c.collected + all_reviews(pages))),
        !walked(c, action, turns).0.has_more_pages,
        walked(c, action, turns).0.stage is Idle,
    decreases turns.len(),
{
    let t = turns[0];
    let page = pages[0];
    assert(page_outcome(t.reply) == Ok::<PageView, ApiErrorView>(page));
    let next = c.step(InputView::Reply(t.reply), t.now);
    let rest_pages = pages.skip(1);
    if pages.len() == 1 {
        assert(pages.last() == page);
        assert(all_reviews(rest_pages) == Seq::<ReviewView>::empty());
        assert(c.collected + all_reviews(pages) =~= c.collected + page.reviews);
    } else {
        assert(page.next is Some);
        let rest_turns = turns.skip(1);
        let gathering = GooglePlayView { collected: c.collected + page.reviews, ..c.turned(page) };
        assert(next == gathering.authorize(CallView::RefreshAll, t.now));
        assert(mintable(turns[1].now) && token_outcome(turns[1].exchange) is Ok);
        lemma_renewal_leads_to_request(gathering, CallView::RefreshAll, t.now, turns[1]);
        let ready = renewed(next.0, next.1, turns[1]);
        assert(rest_pages.last() == pages.last());
        assert forall|i: int| 0 <= i < rest_pages.len() - 1 implies (#[trigger] rest_pages[i]).next is Some by {
            assert(rest_pages[i] == pages[i + 1]);
        }
        assert forall|i: int| 0 <= i < rest_turns.len() && i < rest_pages.len() implies {
            &&& mintable((#[trigger] rest_turns[i]).now)
            &&& page_outcome(rest_turns[i].reply) == Ok::<PageView, ApiErrorView>(rest_pages[i])
            &&& token_outcome(rest_turns[i].exchange) is Ok
        } by {
            assert(rest_turns[i] == turns[i + 1]);
            assert(rest_pages[i] == pages[i + 1]);
        }
        lemma_walk_gathers_all_pages(ready.0, ready.1, rest_turns, rest_pages);
        assert(ready.0.collected + all_reviews(rest_pages) =~= c.collected + all_reviews(pages));
    }
}

/// A refresh returns the reviews of all pages that the store sends, in
/// order, whatever the cursor held before and whenever the credential is
/// renewed in between; the adapter is then at rest and reports no more
/// reviews.
pub proof fn lemma_refresh_returns_all_pages(c: GooglePlayView, turns: Seq<Turn>, pages: Seq<PageView>)
    requires
        c.config.service_account_path is Some,
        complete(pages),
        turns.len() == pages.len(),
        serving(turns, pages),
    ensures
        refresh_in_turns(c, turns).1 == ActionView::Done(OutcomeView::Reviews(all_reviews(pages))),
        !refresh_in_turns(c, turns).0.has_more_pages,
        refresh_in_turns(c, turns).0.stage is Idle,
{
    let t = turns[0];
    assert(mintable(t.now) && token_outcome(t.exchange) is Ok);
    lemma_renewal_leads_to_request(c.rewound(), CallView::RefreshAll, t.now, t);
    let asked = c.step(InputView::Begin(CallView::RefreshAll), t.now);
    let ready = renewed(asked.0, asked.1, t);
    lemma_walk_gathers_all_pages(ready.0, ready.1, turns, pages);
    assert(Seq::<ReviewView>::empty() + all_reviews(pages) =~= all_reviews(pages));
}

/// Loads in a row, from the first page on, return between them what one
/// refresh returns: both give the reviews of all pages that the store
/// sends, in the order of arrival, however the loads and the refresh are
/// timed and whenever either renews the credential.
pub proof fn lemma_loads_amount_to_refresh(
    loader: GooglePlayView,
    loads: Seq<Turn>,
    refresher: GooglePlayView,
    refresh: Seq<Turn>,
    pages: Seq<PageView>,
)
    requires
        loader.has_more_pages,
        loader.config.service_account_path is Some,
        refresher.config.service_account_path is Some,
        complete(pages),
        loads.len() >= pages.len(),
        refresh.len() == pages.len(),
        serving(loads, pages),
        serving(refresh, pages),
    ensures
        refresh_in_turns(refresher, refresh).1 == ActionView::Done(
            OutcomeView::Reviews(loads_in_turns(loader, loads).1),
        ),
        !loads_in_turns(loader, loads).0.has_more_pages,
        !refresh_in_turns(refresher, refresh).0.has_more_pages,
{
    lemma_loads_return_all_pages(loader, loads, pages);
    lemma_refresh_returns_all_pages(refresher, refresh, pages);
}

/// The adapter for Google Play.
#[derive(Debug, PartialEq, Eq)]
pub struct GooglePlayClient {
    config: Config,
    tokens: TokenManager,
    next_page_token: Option<String>,
    has_more_pages: bool,
    stage: Stage,
    collected: Vec<Review>,
}

impl View for GooglePlayClient {
    type V = GooglePlayView;

    closed spec fn view(&self) -> GooglePlayView {
        GooglePlayView {
            config: self.config@,
            credential: self.tokens@,
            next_page_token: self.next_page_token.deep_view(),
            has_more_pages: self.has_more_pages,
            stage: self.stage@,
            collected: self.collected.deep_view(),
        }
    }
}

/// The plain form of a service account key or a failure.
pub open spec fn account_view(r: Result<ServiceAccountKey, ApiError>) -> Result<ServiceAccountView, ApiErrorView> {
    match r {
        Ok(account) => Ok(account@),
        Err(e) => Err(e@),
    }
}

fn read_account(doc: &Json) -> (r: Result<ServiceAccountKey, String>)
    ensures
        crate::listing::shape_result(r) == account_in(doc@),
{
    let key_type = read_text(doc, "type")?;
    let project_id = read_text(doc, "project_id")?;
    let private_key_id = read_text(doc, "private_key_id")?;
    let private_key = read_text(doc, "private_key")?;
    let client_email = read_text(doc, "client_email")?;
    let client_id = read_text(doc, "client_id")?;
    let auth_uri = read_text(doc, "auth_uri")?;
    let token_uri = read_text(doc, "token_uri")?;
    Ok(
        ServiceAccountKey {
            key_type,
            project_id,
            private_key_id,
            private_key,
            client_email,
            client_id,
            auth_uri,
            token_uri,
        },
    )
}

/// Reads the service account key out of the file that was read.
pub fn read_service_account(file: &Result<String, String>) -> (r: Result<ServiceAccountKey, ApiError>)
    ensures
        account_view(r) == service_account_of(crate::http::body_view(*file)),
{
    let text = match file {
        Err(why) => {
            return Err(
                ApiError::with_detail(ErrorKind::Credential, "Failed to read service account file: ", why.as_str()),
            );
        },
        Ok(text) => text,
    };
    let doc = match parse(text.as_str()) {
        Err(e) => {
            return Err(
                ApiError::with_detail(
                    ErrorKind::Credential,
                    "Failed to parse service account JSON: ",
                    e.detail.as_str(),
                ),
            );
        },
        Ok(doc) => doc,
    };
    match read_account(&doc) {
        Err(field) => Err(
            ApiError {
                kind: ErrorKind::Credential,
                message: join3(
                    "Failed to parse service account JSON: missing or invalid field `",
                    field.as_str(),
                    "`",
                ),
            },
        ),
        Ok(account) => Ok(account),
    }
}

fn token_leads() -> (l: Leads<'static>)
    ensures
        l@ == token_wording(),
{
    Leads {
        no_response: "Failed to request access token: ",
        bad_status: "Failed to get access token with status ",
        unreadable: "Failed to parse token response: ",
        not_json: "Failed to parse token response: ",
    }
}

/// Reads the access token out of a reply to the exchange.
pub fn read_token(reply: &HttpReply) -> (r: Result<String, ApiError>)
    ensures
        crate::shape::text_result_of(r) == token_outcome(reply@),
{
    let leads = token_leads();
    let doc = read_document(reply, &leads)?;
    match doc.str_at("access_token") {
        Some(token) => Ok(token.clone()),
        None => Err(body_failure("No access token in response", reply)),
    }
}

fn build_token_request(assertion: &Assertion) -> (r: HttpRequest)
    ensures
        r@ == token_request(assertion@),
{
    let body = object2(
        "assertion",
        json_text(assertion.jwt.as_str()),
        "grant_type",
        json_text("urn:ietf:params:oauth:grant-type:jwt-bearer"),
    );
    let query: Vec<(String, String)> = Vec::new();
    assert(query.deep_view() =~= Seq::empty());
    HttpRequest {
        method: Method::Post,
        url: assertion.audience.clone(),
        bearer: None,
        query,
        json_content: true,
        body: Some(body),
    }
}

fn build_page_request(app_id: &str, token: &str, cursor: &Option<String>) -> (r: HttpRequest)
    ensures
        r@ == page_request(app_id@, token@, cursor.deep_view()),
{
    let mut url = join3("https://www.googleapis.com/androidpublisher/v3", "/applications/", app_id);
    url.append("/reviews");
    let mut query: Vec<(String, String)> = Vec::new();
    query.push(pair("access_token", token));
    query.push(pair("maxResults", "100"));
    match cursor {
        Some(page) => {
            query.push(pair("token", page.as_str()));
        },
        None => {},
    }
    assert(query.deep_view() =~= page_query(token@, cursor.deep_view()));
    HttpRequest { method: Method::Get, url, bearer: None, query, json_content: false, body: None }
}

fn review_url(app_id: &str, review_id: &str) -> (url: String)
    ensures
        url@ == base() + "/applications/"@ + app_id@ + "/reviews/"@ + review_id@,
{
    let mut url = join3("https://www.googleapis.com/androidpublisher/v3", "/applications/", app_id);
    url.append("/reviews/");
    url.append(review_id);
    url
}

fn token_query(token: &str) -> (query: Vec<(String, String)>)
    ensures
        query.deep_view() == seq![("access_token"@, token@)],
{
    let mut query: Vec<(String, String)> = Vec::new();
    query.push(pair("access_token", token));
    assert(query.deep_view() =~= seq![("access_token"@, token@)]);
    query
}

fn build_reply_request(app_id: &str, token: &str, review_id: &str, text: &str) -> (r: HttpRequest)
    ensures
        r@ == reply_request(app_id@, token@, review_id@, text@),
{
    let mut url = review_url(app_id, review_id);
    url.append(":reply");
    HttpRequest {
        method: Method::Post,
        url,
        bearer: None,
        query: token_query(token),
        json_content: true,
        body: Some(object1("replyText", json_text(text))),
    }
}

fn build_review_request(app_id: &str, token: &str, review_id: &str) -> (r: HttpRequest)
    ensures
        r@ == review_request(app_id@, token@, review_id@),
{
    HttpRequest {
        method: Method::Get,
        url: review_url(app_id, review_id),
        bearer: None,
        query: token_query(token),
        json_content: false,
        body: None,
    }
}

impl GooglePlayClient {
    /// An adapter at rest, without a credential, before the first page.
    pub fn new(config: Config) -> (c: GooglePlayClient)
        ensures
            c@ == (GooglePlayView {
                config: config@,
                credential: None,
                next_page_token: None,
                has_more_pages: true,
                stage: StageView::Idle,
                collected: Seq::empty(),
            }),
    {
        let collected: Vec<Review> = Vec::new();
        assert(collected.deep_view() =~= Seq::empty());
        GooglePlayClient {
            config,
            tokens: TokenManager::new(),
            next_page_token: None,
            has_more_pages: true,
            stage: Stage::Idle,
            collected,
        }
    }

    /// Whether the store has pages of reviews that were not loaded yet.
    pub fn has_more_reviews(&self) -> (r: bool)
        ensures
            r == self@.has_more_pages,
    {
        self.has_more_pages
    }

    /// Whether an operation is under way.
    pub fn is_busy(&self) -> (r: bool)
        ensures
            r == !(self@.stage is Idle),
    {
        match &self.stage {
            Stage::Idle => false,
            _ => true,
        }
    }

    /// What the assertion signed at `now` for `account` states.
    pub fn assertion_claims(account: &ServiceAccountKey, now: &Timestamp) -> (claims: Claims)
        requires
            mintable(*now),
        ensures
            claims@ == claims_for(account@, *now),
    {
        let mut texts: Vec<(String, String)> = Vec::new();
        texts.push(pair("iss", account.client_email.as_str()));
        texts.push(pair("scope", "https://www.googleapis.com/auth/androidpublisher"));
        texts.push(pair("aud", account.token_uri.as_str()));
        let mut numbers: Vec<(String, i64)> = Vec::new();
        numbers.push((String::from_str("exp"), now.secs + ASSERTION_VALIDITY_SECS));
        numbers.push((String::from_str("iat"), now.secs));
        assert(texts.deep_view() =~= seq![
            ("iss"@, account@.client_email),
            ("scope"@, scope()),
            ("aud"@, account@.token_uri),
        ]);
        assert(numbers.deep_view() =~= seq![
            ("exp"@, (now.secs + ASSERTION_VALIDITY_SECS) as i64),
            ("iat"@, now.secs),
        ]);
        Claims { algorithm: SigningAlgorithm::Rs256, key_id: account.private_key_id.clone(), texts, numbers }
    }

    /// Signs the assertion that is exchanged for an access token, with the
    /// key of the service account file that was read.
    pub fn generate_assertion(key_file: &Result<String, String>, now: &Timestamp) -> (r: Result<
        Assertion,
        ApiError,
    >)
        requires
            mintable(*now),
        ensures
            signing_of(crate::http::body_view(*key_file), signed_view(r)),
    {
        let account = read_service_account(key_file)?;
        let key = match rsa_key_from_pem(account.private_key.as_str()) {
            Err(why) => {
                return Err(
                    ApiError::with_detail(
                        ErrorKind::Credential,
                        "Failed to create encoding key from RSA private key: ",
                        why.as_str(),
                    ),
                );
            },
            Ok(key) => key,
        };
        let claims = GooglePlayClient::assertion_claims(&account, now);
        let encoded = encode(claims.algorithm, claims.key_id.as_str(), &claims.texts, &claims.numbers, &key);
        sealed(encoded, account.token_uri.as_str())
    }

    fn build_request(&self, token: &str, call: &Call) -> (r: HttpRequest)
        ensures
            r@ == self@.request_for(token@, call@),
    {
        match call {
            Call::SubmitResponse { review_id, response_body } => build_reply_request(
                self.config.app_id.as_str(),
                token,
                review_id.as_str(),
                response_body.as_str(),
            ),
            Call::GetReviewResponse { review_id } => build_review_request(
                self.config.app_id.as_str(),
                token,
                review_id.as_str(),
            ),
            _ => build_page_request(self.config.app_id.as_str(), token, &self.next_page_token),
        }
    }

    fn dispatch(&mut self, call: Call) -> (a: Action)
        ensures
            (final(self)@, a@) == old(self)@.dispatch(call@),
    {
        match self.tokens.token() {
            Some(token) => {
                let request = self.build_request(token.as_str(), &call);
                self.stage = Stage::Reply(call);
                Action::Send(request)
            },
            None => {
                self.stage = Stage::Idle;
                Action::Failed(unexpected_event())
            },
        }
    }

    fn authorize(&mut self, call: Call, now: &Timestamp) -> (a: Action)
        ensures
            (final(self)@, a@) == old(self)@.authorize(call@, *now),
    {
        if self.tokens.needs_refresh(now) {
            match &self.config.service_account_path {
                None => {
                    self.stage = Stage::Idle;
                    Action::Failed(
                        ApiError::new(ErrorKind::Credential, "Service account path not configured for Android"),
                    )
                },
                Some(path) => {
                    let path = path.clone();
                    self.stage = Stage::Key(call);
                    Action::ReadFile(path)
                },
            }
        } else {
            self.dispatch(call)
        }
    }

    fn begin(&mut self, call: Call, now: &Timestamp) -> (a: Action)
        ensures
            (final(self)@, a@) == old(self)@.begin(call@, *now),
    {
        match &call {
            Call::GetReviews | Call::LoadNextPage => {
                if !self.has_more_pages {
                    self.stage = Stage::Idle;
                    let reviews: Vec<Review> = Vec::new();
                    assert(reviews.deep_view() =~= Seq::empty());
                    return Action::Done(Outcome::Reviews(reviews));
                }
            },
            Call::RefreshAll => {
                self.next_page_token = None;
                self.has_more_pages = true;
                self.collected = Vec::new();
                assert(self.collected.deep_view() =~= Seq::empty());
            },
            Call::GetResponseDetails { .. } => {
                self.stage = Stage::Idle;
                return Action::Failed(unexpected_event());
            },
            _ => {},
        }
        self.authorize(call, now)
    }

    fn signed(&mut self, result: Result<Assertion, ApiError>) -> (a: Action)
        ensures
            (final(self)@, a@) == old(self)@.signed(signed_view(result)),
    {
        let mut stage = Stage::Idle;
        core::mem::swap(&mut self.stage, &mut stage);
        match stage {
            Stage::Key(call) => match result {
                Err(e) => Action::Failed(e),
                Ok(assertion) => {
                    let request = build_token_request(&assertion);
                    self.stage = Stage::Token(call);
                    Action::Send(request)
                },
            },
            _ => Action::Failed(unexpected_event()),
        }
    }

    fn turn(&mut self, next: Option<String>)
        ensures
            final(self)@ == (GooglePlayView {
                next_page_token: next.deep_view(),
                has_more_pages: next is Some,
                ..old(self)@
            }),
    {
        self.has_more_pages = next.is_some();
        self.next_page_token = next;
    }

    fn gathered(&mut self, page: Page, now: &Timestamp) -> (a: Action)
        requires
            old(self)@.stage is Idle,
        ensures
            (final(self)@, a@) == old(self)@.gathered(page@, *now),
    {
        let Page { reviews, next } = page;
        let mut reviews = reviews;
        let ghost before = self.collected.deep_view();
        let ghost added = reviews.deep_view();
        self.collected.append(&mut reviews);
        assert(self.collected.deep_view() =~= before + added);
        self.turn(next);
        if self.has_more_pages {
            self.authorize(Call::RefreshAll, now)
        } else {
            let mut all: Vec<Review> = Vec::new();
            assert(all.deep_view() =~= Seq::empty());
            core::mem::swap(&mut self.collected, &mut all);
            Action::Done(Outcome::Reviews(all))
        }
    }

    fn replied(&mut self, reply: &HttpReply, now: &Timestamp) -> (a: Action)
        requires
            mintable(*now),
        ensures
            (final(self)@, a@) == old(self)@.replied(reply@, *now),
    {
        let mut stage = Stage::Idle;
        core::mem::swap(&mut self.stage, &mut stage);
        match stage {
            Stage::Token(call) => match read_token(reply) {
                Err(e) => Action::Failed(e),
                Ok(token) => {
                    self.tokens.store(token, now, TOKEN_LIFETIME_SECS);
                    self.dispatch(call)
                },
            },
            Stage::Reply(Call::SubmitResponse { .. }) => match read_submission(reply) {
                Ok(_) => Action::Done(Outcome::Submitted),
                Err(e) => Action::Failed(e),
            },
            Stage::Reply(Call::GetReviewResponse { review_id }) => match read_reply(review_id.as_str(), reply, now) {
                Ok(response) => Action::Done(Outcome::Response(response)),
                Err(e) => Action::Failed(e),
            },
            Stage::Reply(Call::RefreshAll) => match read_page(reply) {
                Err(e) => Action::Failed(e),
                Ok(page) => self.gathered(page, now),
            },
            Stage::Reply(Call::GetResponseDetails { .. }) => Action::Failed(unexpected_event()),
            Stage::Reply(_) => match read_page(reply) {
                Err(e) => Action::Failed(e),
                Ok(page) => {
                    let Page { reviews, next } = page;
                    self.turn(next);
                    Action::Done(Outcome::Reviews(reviews))
                },
            },
            _ => Action::Failed(unexpected_event()),
        }
    }

    /// Moves the adapter on by `input` and says what to do next.
    pub fn advance(&mut self, input: Input, now: &Timestamp) -> (a: Action)
        requires
            mintable(*now),
        ensures
            (final(self)@, a@) == old(self)@.step(input@, *now),
    {
        match input {
            Input::Begin(call) => self.begin(call, now),
            Input::Signed(result) => self.signed(result),
            Input::Reply(reply) => self.replied(&reply, now),
        }
    }

    /// Moves the adapter on by what the caller hands back: a reply as it is,
    /// a key file by way of the assertion signed with its key.
    pub fn resume(&mut self, event: Event, now: &Timestamp) -> (a: Action)
        requires
            mintable(*now),
        ensures
            match event@ {
                EventView::Reply(reply) => (final(self)@, a@) == old(self)@.step(InputView::Reply(reply), *now),
                EventView::File(file) => exists|result: Result<AssertionView, ApiErrorView>|
                    signing_of(file, result) && (final(self)@, a@) == old(self)@.step(
                        InputView::Signed(result),
                        *now,
                    ),
            },
    {
        match event {
            Event::Reply(reply) => self.advance(Input::Reply(reply), now),
            Event::File(file) => {
                let result = GooglePlayClient::generate_assertion(&file, now);
                let ghost witness = signed_view(result);
                let a = self.advance(Input::Signed(result), now);
                assert(signing_of(crate::http::body_view(file), witness) && (self@, a@) == old(self)@.step(
                    InputView::Signed(witness),
                    *now,
                ));
                a
            },
        }
    }

    /// Starts loading the first page of reviews that was not loaded yet.
    pub fn get_reviews(&mut self, now: &Timestamp) -> (a: Action)
        requires
            mintable(*now),
        ensures
            (final(self)@, a@) == old(self)@.step(InputView::Begin(CallView::GetReviews), *now),
    {
        self.advance(Input::Begin(Call::GetReviews), now)
    }

    /// Starts loading the next page of reviews; over at once, with an empty
    /// batch, where the store has no more.
    pub fn load_next_page(&mut self, now: &Timestamp) -> (a: Action)
        requires
            mintable(*now),
        ensures
            (final(self)@, a@) == old(self)@.step(InputView::Begin(CallView::LoadNextPage), *now),
            !old(self)@.has_more_pages ==> a@ == ActionView::Done(OutcomeView::Reviews(Seq::empty()))
                && final(self)@.has_more_pages == false,
    {
        self.advance(Input::Begin(Call::LoadNextPage), now)
    }

    /// Starts loading all reviews anew, page after page from the first.
    pub fn refresh_all_reviews(&mut self, now: &Timestamp) -> (a: Action)
        requires
            mintable(*now),
        ensures
            (final(self)@, a@) == old(self)@.step(InputView::Begin(CallView::RefreshAll), *now),
    {
        self.advance(Input::Begin(Call::RefreshAll), now)
    }

    /// Starts posting `response_body` as the reply to a review.
    pub fn submit_response(&mut self, review_id: &str, response_body: &str, now: &Timestamp) -> (a: Action)
        requires
            mintable(*now),
        ensures
            (final(self)@, a@) == old(self)@.step(
                InputView::Begin(
                    CallView::SubmitResponse { review_id: review_id@, response_body: response_body@ },
                ),
                *now,
            ),
    {
        self.advance(
            Input::Begin(
                Call::SubmitResponse {
                    review_id: String::from_str(review_id),
                    response_body: String::from_str(response_body),
                },
            ),
            now,
        )
    }

    /// Starts looking up the developer's reply to a review.
    pub fn get_review_response(&mut self, review_id: &str, now: &Timestamp) -> (a: Action)
        requires
            mintable(*now),
        ensures
            (final(self)@, a@) == old(self)@.step(
                InputView::Begin(CallView::GetReviewResponse { review_id: review_id@ }),
                *now,
            ),
    {
        self.advance(Input::Begin(Call::GetReviewResponse { review_id: String::from_str(review_id) }), now)
    }
}

} // verus!
