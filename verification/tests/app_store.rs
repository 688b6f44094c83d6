use rsa::pkcs8::der::pem::PemLabel;
use rsa::pkcs8::{LineEnding, PrivateKeyInfo, SecretDocument};
use rustpond::app_store::{
    read_details, read_lookup, read_response, read_reviews, AppStoreConnectClient,
};
use rustpond::config::{Config, Platform};
use rustpond::http::{ApiError, ErrorKind, HttpReply, HttpRequest, Method};
use rustpond::json::{parse, Json};
use rustpond::protocol::{Action, Assertion, Call, Event, Input, Outcome};
use rustpond::review::{ResponseState, Review, ReviewResponse};
use rustpond::time::Timestamp;

/// A fresh P-256 signing key: its PKCS#8 document in PEM and its public point.
fn ec_key() -> (String, Vec<u8>) {
    let rng = ring::rand::SystemRandom::new();
    let algorithm = &ring::signature::ECDSA_P256_SHA256_FIXED_SIGNING;
    let document = ring::signature::EcdsaKeyPair::generate_pkcs8(algorithm, &rng).unwrap();
    let pair = ring::signature::EcdsaKeyPair::from_pkcs8(algorithm, document.as_ref(), &rng).unwrap();
    let public = ring::signature::KeyPair::public_key(&pair).as_ref().to_vec();
    let private = SecretDocument::try_from(document.as_ref()).unwrap();
    (private.to_pem(PrivateKeyInfo::PEM_LABEL, LineEnding::LF).unwrap().to_string(), public)
}

fn config() -> Config {
    Config {
        platform: Platform::Ios,
        app_id: "1234567890".to_string(),
        key_id: Some("KEYID12345".to_string()),
        issuer_id: Some("issuer-uuid".to_string()),
        private_key_path: Some("/keys/AuthKey.pem".to_string()),
        service_account_path: None,
        openai_api_key: None,
    }
}

fn at(secs: i64) -> Timestamp {
    Timestamp { secs, nanos: 0 }
}

fn ok(status: u16, body: &str) -> HttpReply {
    HttpReply::Response { status, body: Ok(body.to_string()) }
}

fn signed(token: &str) -> Input {
    Input::Signed(Ok(Assertion { jwt: token.to_string(), audience: "appstoreconnect-v1".to_string() }))
}

fn failed(kind: ErrorKind, message: &str) -> Action {
    Action::Failed(ApiError { kind, message: message.to_string() })
}

fn get(url: &str, token: &str) -> HttpRequest {
    HttpRequest {
        method: Method::Get,
        url: url.to_string(),
        bearer: Some(token.to_string()),
        query: vec![],
        json_content: false,
        body: None,
    }
}

fn listing_request(token: &str) -> HttpRequest {
    HttpRequest {
        method: Method::Get,
        url: "https://api.appstoreconnect.apple.com/v1/apps/1234567890/customerReviews".to_string(),
        bearer: Some(token.to_string()),
        query: vec![("limit".to_string(), "200".to_string()), ("sort".to_string(), "-createdDate".to_string())],
        json_content: false,
        body: None,
    }
}

/// A client that holds the credential "tok", stored at second 1000.
fn client_with_token() -> AppStoreConnectClient {
    let mut client = AppStoreConnectClient::new(config());
    assert_eq!(client.get_reviews(&at(1000)), Action::ReadFile("/keys/AuthKey.pem".to_string()));
    assert_eq!(client.advance(signed("tok"), &at(1000)), Action::Send(listing_request("tok")));
    assert_eq!(client.resume(Event::Reply(ok(200, "{\"data\": []}")), &at(1000)), Action::Done(Outcome::Reviews(vec![])));
    assert!(!client.is_busy());
    client
}

const LISTING: &str = "{\"data\": [{\"id\": \"r1\", \"type\": \"customerReviews\", \"attributes\": {\"rating\": 5, \"title\": \"Love it\", \"body\": \"Best app\", \"reviewerNickname\": \"ann\", \"createdDate\": \"2024-01-15T10:30:00Z\", \"territory\": \"USA\"}}, {\"id\": \"r2\", \"type\": \"customerReviews\", \"attributes\": {\"rating\": 2, \"reviewerNickname\": \"bob\", \"createdDate\": \"2023-11-14T22:13:20Z\", \"territory\": \"FRA\"}}]}";

fn listed_reviews() -> Vec<Review> {
    vec![
        Review {
            id: "r1".to_string(),
            rating: 5,
            title: Some("Love it".to_string()),
            body: Some("Best app".to_string()),
            reviewer_nickname: "ann".to_string(),
            created_date: at(1705314600),
            territory: "USA".to_string(),
            version: None,
            response: None,
        },
        Review {
            id: "r2".to_string(),
            rating: 2,
            title: None,
            body: None,
            reviewer_nickname: "bob".to_string(),
            created_date: at(1700000000),
            territory: "FRA".to_string(),
            version: None,
            response: None,
        },
    ]
}

#[test]
fn the_first_operation_asks_for_the_key() {
    let mut client = AppStoreConnectClient::new(config());
    assert!(!client.is_busy());
    assert_eq!(client.get_reviews(&at(0)), Action::ReadFile("/keys/AuthKey.pem".to_string()));
    assert!(client.is_busy());
}

#[test]
fn an_incomplete_configuration_fails_before_any_file_is_read() {
    let mut no_path = AppStoreConnectClient::new(Config { private_key_path: None, key_id: None, ..config() });
    assert_eq!(no_path.get_reviews(&at(0)), failed(ErrorKind::Credential, "Private key path not configured for iOS"));
    assert!(!no_path.is_busy());
    let mut no_key = AppStoreConnectClient::new(Config { key_id: None, issuer_id: None, ..config() });
    assert_eq!(
        no_key.submit_response("r", "b", &at(0)),
        failed(ErrorKind::Credential, "Key ID not configured for iOS")
    );
    let mut no_issuer = AppStoreConnectClient::new(Config { issuer_id: None, ..config() });
    assert_eq!(
        no_issuer.get_review_response("r", &at(0)),
        failed(ErrorKind::Credential, "Issuer ID not configured for iOS")
    );
}

#[test]
fn an_unreadable_key_file_fails_the_operation() {
    let mut client = AppStoreConnectClient::new(config());
    client.get_reviews(&at(0));
    assert_eq!(
        client.resume(Event::File(Err("No such file or directory (os error 2)".to_string())), &at(0)),
        failed(ErrorKind::Credential, "Failed to read private key file: No such file or directory (os error 2)")
    );
    assert!(!client.is_busy());
    assert_eq!(client.get_reviews(&at(1)), Action::ReadFile("/keys/AuthKey.pem".to_string()));
}

#[test]
fn a_malformed_key_fails_the_operation() {
    let mut client = AppStoreConnectClient::new(config());
    client.get_reviews(&at(0));
    match client.resume(Event::File(Ok("not a key".to_string())), &at(0)) {
        Action::Failed(error) => {
            assert_eq!(error.kind, ErrorKind::Credential);
            assert!(error.message.starts_with("Failed to create encoding key from EC private key: "));
            assert!(error.message.len() > "Failed to create encoding key from EC private key: ".len());
        }
        other => panic!("unexpected action {:?}", other),
    }
    assert!(!client.is_busy());
}

#[test]
fn the_assertion_is_signed_with_the_key() {
    let (private, public) = ec_key();
    let client = AppStoreConnectClient::new(config());
    let assertion = client.generate_jwt(&Ok(private), &at(1_700_000_000)).unwrap();
    assert_eq!(assertion.audience, "appstoreconnect-v1");
    let header = jsonwebtoken::decode_header(&assertion.jwt).unwrap();
    assert_eq!(header.alg, jsonwebtoken::Algorithm::ES256);
    assert_eq!(header.kid, Some("KEYID12345".to_string()));
    assert_eq!(header.typ, Some("JWT".to_string()));
    let mut validation = jsonwebtoken::Validation::new(jsonwebtoken::Algorithm::ES256);
    validation.validate_exp = false;
    validation.set_audience(&["appstoreconnect-v1"]);
    let key = jsonwebtoken::DecodingKey::from_ec_der(&public);
    let data = jsonwebtoken::decode::<serde_json::Value>(&assertion.jwt, &key, &validation).unwrap();
    let claims = data.claims.as_object().unwrap();
    assert_eq!(claims.len(), 3);
    assert_eq!(claims["iss"], serde_json::Value::from("issuer-uuid"));
    assert_eq!(claims["aud"], serde_json::Value::from("appstoreconnect-v1"));
    assert_eq!(claims["exp"], serde_json::Value::from(1_700_001_200i64));
}

#[test]
fn the_signed_assertion_becomes_the_bearer_token() {
    let mut client = AppStoreConnectClient::new(config());
    client.get_reviews(&at(1_700_000_000));
    let first = match client.resume(Event::File(Ok(ec_key().0)), &at(1_700_000_000)) {
        Action::Send(request) => request,
        other => panic!("unexpected action {:?}", other),
    };
    let token = first.bearer.clone().unwrap();
    assert_eq!(token.split('.').count(), 3);
    assert_eq!(first, listing_request(&token));
    assert_eq!(
        client.resume(Event::Reply(ok(200, LISTING)), &at(1_700_000_001)),
        Action::Done(Outcome::Reviews(listed_reviews()))
    );
    assert_eq!(client.get_reviews(&at(1_700_000_100)), Action::Send(listing_request(&token)));
}

#[test]
fn a_wrong_kind_of_key_is_refused() {
    let client = AppStoreConnectClient::new(config());
    let public_only = pem::encode(&pem::Pem::new("PUBLIC KEY", ec_key().1));
    let error = client.generate_jwt(&Ok(public_only), &at(0)).unwrap_err();
    assert_eq!(error.kind, ErrorKind::Credential);
    assert!(error.message.starts_with("Failed to create encoding key from EC private key: "));
    let unread = client.generate_jwt(&Err("denied".to_string()), &at(0)).unwrap_err();
    assert_eq!(unread, ApiError { kind: ErrorKind::Credential, message: "Failed to read private key file: denied".to_string() });
}

#[test]
fn a_credential_is_renewed_once_within_the_margin_and_not_before() {
    let mut client = client_with_token();
    assert_eq!(client.get_reviews(&at(1001)), Action::Send(listing_request("tok")));
    assert_eq!(client.get_reviews(&at(1599)), Action::Send(listing_request("tok")));
    assert_eq!(
        client.get_reviews(&Timestamp { secs: 1599, nanos: 999_999_999 }),
        Action::Send(listing_request("tok"))
    );
    assert_eq!(client.get_reviews(&at(1600)), Action::ReadFile("/keys/AuthKey.pem".to_string()));
    assert_eq!(client.advance(signed("tok2"), &at(1600)), Action::Send(listing_request("tok2")));
    assert_eq!(client.get_reviews(&at(1601)), Action::Send(listing_request("tok2")));
    assert_eq!(client.get_reviews(&at(2199)), Action::Send(listing_request("tok2")));
    assert_eq!(client.get_reviews(&at(2200)), Action::ReadFile("/keys/AuthKey.pem".to_string()));
}

#[test]
fn a_signing_failure_is_passed_on() {
    let mut client = AppStoreConnectClient::new(config());
    client.get_reviews(&at(0));
    let error = ApiError { kind: ErrorKind::Credential, message: "Failed to encode JWT: x".to_string() };
    assert_eq!(
        client.advance(Input::Signed(Err(ApiError { kind: error.kind, message: error.message.clone() })), &at(0)),
        Action::Failed(error)
    );
    assert!(!client.is_busy());
}

#[test]
fn reviews_come_in_the_order_of_the_listing() {
    let mut client = client_with_token();
    client.get_reviews(&at(1001));
    assert_eq!(client.resume(Event::Reply(ok(200, LISTING)), &at(1002)), Action::Done(Outcome::Reviews(listed_reviews())));
    assert_eq!(read_reviews(&ok(200, LISTING)), Ok(listed_reviews()));
    assert_eq!(read_reviews(&ok(299, "{\"data\": []}")), Ok(vec![]));
}

#[test]
fn a_refresh_loads_the_listing_and_there_are_no_further_pages() {
    let mut client = client_with_token();
    assert_eq!(client.advance(Input::Begin(Call::RefreshAll), &at(1001)), Action::Send(listing_request("tok")));
    assert_eq!(client.resume(Event::Reply(ok(200, LISTING)), &at(1002)), Action::Done(Outcome::Reviews(listed_reviews())));
    assert_eq!(client.advance(Input::Begin(Call::LoadNextPage), &at(1003)), Action::Done(Outcome::Reviews(vec![])));
    let mut fresh = AppStoreConnectClient::new(config());
    assert_eq!(fresh.advance(Input::Begin(Call::LoadNextPage), &at(0)), Action::Done(Outcome::Reviews(vec![])));
}

#[test]
fn listing_failures_carry_status_and_body() {
    assert_eq!(
        read_reviews(&HttpReply::Failed("connection refused".to_string())),
        Err(ApiError { kind: ErrorKind::Transport, message: "Failed to fetch reviews: connection refused".to_string() })
    );
    assert_eq!(
        read_reviews(&ok(401, "{\"errors\": []}")),
        Err(ApiError { kind: ErrorKind::Status, message: "API request failed with status 401: {\"errors\": []}".to_string() })
    );
    assert_eq!(
        read_reviews(&HttpReply::Response { status: 503, body: Err("reset".to_string()) }),
        Err(ApiError { kind: ErrorKind::Status, message: "API request failed with status 503: ".to_string() })
    );
    assert_eq!(
        read_reviews(&ok(199, "early")),
        Err(ApiError { kind: ErrorKind::Status, message: "API request failed with status 199: early".to_string() })
    );
    assert_eq!(
        read_reviews(&ok(300, "")),
        Err(ApiError { kind: ErrorKind::Status, message: "API request failed with status 300: ".to_string() })
    );
    assert_eq!(
        read_reviews(&HttpReply::Response { status: 200, body: Err("timed out".to_string()) }),
        Err(ApiError { kind: ErrorKind::Transport, message: "Failed to read response text: timed out".to_string() })
    );
    assert_eq!(
        read_reviews(&ok(200, "<html>")),
        Err(ApiError {
            kind: ErrorKind::Parse,
            message: "Failed to parse reviews response: expected value at line 1 column 1. Response was: <html>".to_string(),
        })
    );
    assert_eq!(
        read_reviews(&ok(200, "{\"data\": [{\"id\": \"r\"}]}")),
        Err(ApiError {
            kind: ErrorKind::Parse,
            message: "Failed to parse reviews response: missing or invalid field `type`. Response was: {\"data\": [{\"id\": \"r\"}]}".to_string(),
        })
    );
}

#[test]
fn a_response_is_posted_as_a_resource() {
    let mut client = client_with_token();
    let expected_body = parse("{\"data\": {\"attributes\": {\"responseBody\": \"Thanks \\\"a lot\\\"!\"}, \"relationships\": {\"review\": {\"data\": {\"id\": \"rev-7\", \"type\": \"customerReviews\"}}}, \"type\": \"customerReviewResponses\"}}").unwrap();
    assert_eq!(
        client.submit_response("rev-7", "Thanks \"a lot\"!", &at(1001)),
        Action::Send(HttpRequest {
            method: Method::Post,
            url: "https://api.appstoreconnect.apple.com/v1/customerReviewResponses".to_string(),
            bearer: Some("tok".to_string()),
            query: vec![],
            json_content: true,
            body: Some(expected_body),
        })
    );
    assert_eq!(client.resume(Event::Reply(ok(201, "{}")), &at(1002)), Action::Done(Outcome::Submitted));
    assert!(!client.is_busy());
}

#[test]
fn a_rejected_post_reports_status_and_body() {
    let mut client = client_with_token();
    client.submit_response("rev-7", "", &at(1001));
    assert_eq!(
        client.resume(Event::Reply(ok(409, "{\"errors\":[{\"code\":\"ENTITY_ERROR\"}]}")), &at(1002)),
        failed(ErrorKind::Status, "Failed to submit response with status 409: {\"errors\":[{\"code\":\"ENTITY_ERROR\"}]}")
    );
    client.submit_response("rev-7", "x", &at(1003));
    assert_eq!(
        client.resume(Event::Reply(HttpReply::Failed("dns error".to_string())), &at(1004)),
        failed(ErrorKind::Transport, "Failed to submit response: dns error")
    );
    client.submit_response("rev-7", "x", &at(1005));
    assert_eq!(
        client.resume(Event::Reply(HttpReply::Response { status: 204, body: Err("gone".to_string()) }), &at(1006)),
        Action::Done(Outcome::Submitted)
    );
}

#[test]
fn a_review_without_a_response_gives_none() {
    let mut client = client_with_token();
    for round in 0..3 {
        assert_eq!(
            client.get_review_response("rev-1", &at(1001 + round)),
            Action::Send(get(
                "https://api.appstoreconnect.apple.com/v1/customerReviews/rev-1/relationships/response",
                "tok"
            ))
        );
        assert_eq!(
            client.resume(Event::Reply(ok(404, "{\"errors\": [{\"status\": \"404\"}]}")), &at(1001 + round)),
            Action::Done(Outcome::Response(None))
        );
        assert!(!client.is_busy());
    }
    assert_eq!(read_lookup(&ok(404, "")), Ok(None));
    assert_eq!(read_lookup(&HttpReply::Response { status: 404, body: Err("x".to_string()) }), Ok(None));
    assert_eq!(read_lookup(&ok(200, "{\"data\": null}")), Ok(None));
    assert_eq!(read_lookup(&ok(200, "{}")), Ok(None));
    assert_eq!(read_lookup(&ok(200, "{\"data\": {\"type\": \"customerReviewResponses\"}}")), Ok(None));
    assert_eq!(read_lookup(&ok(200, "{\"data\": {\"id\": 5}}")), Ok(None));
    assert_eq!(read_lookup(&ok(200, "{\"data\": \"x\"}")), Ok(None));
}

#[test]
fn a_linked_response_is_fetched_in_a_second_step() {
    let mut client = client_with_token();
    client.get_review_response("rev-1", &at(1001));
    assert_eq!(
        client.resume(
            Event::Reply(ok(200, "{\"data\": {\"type\": \"customerReviewResponses\", \"id\": \"resp-42\"}}")),
            &at(1002)
        ),
        Action::Send(get("https://api.appstoreconnect.apple.com/v1/customerReviewResponses/resp-42", "tok"))
    );
    assert!(client.is_busy());
    let details = "{\"data\": {\"id\": \"resp-42\", \"attributes\": {\"responseBody\": \"Thank you!\", \"lastModifiedDate\": \"2024-01-15T10:30:00-00:00\", \"state\": \"PUBLISHED\"}}}";
    assert_eq!(
        client.resume(Event::Reply(ok(200, details)), &at(1003)),
        Action::Done(Outcome::Response(Some(ReviewResponse {
            id: "resp-42".to_string(),
            response_body: "Thank you!".to_string(),
            last_modified_date: at(1705314600),
            state: ResponseState::Published,
        })))
    );
    assert!(!client.is_busy());
}

#[test]
fn the_credential_is_made_sure_of_before_the_details_request() {
    let mut client = client_with_token();
    assert_eq!(
        client.get_review_response("rev-1", &at(1599)),
        Action::Send(get(
            "https://api.appstoreconnect.apple.com/v1/customerReviews/rev-1/relationships/response",
            "tok"
        ))
    );
    assert_eq!(
        client.resume(Event::Reply(ok(200, "{\"data\": {\"id\": \"resp-42\"}}")), &at(1600)),
        Action::ReadFile("/keys/AuthKey.pem".to_string())
    );
    assert!(client.is_busy());
    assert_eq!(
        client.advance(signed("tok2"), &at(1600)),
        Action::Send(get("https://api.appstoreconnect.apple.com/v1/customerReviewResponses/resp-42", "tok2"))
    );
    let details = "{\"data\": {\"attributes\": {\"responseBody\": \"Hi\", \"lastModifiedDate\": \"2015-05-15T00:00:00Z\"}}}";
    assert_eq!(
        client.resume(Event::Reply(ok(200, details)), &at(1601)),
        Action::Done(Outcome::Response(Some(ReviewResponse {
            id: "resp-42".to_string(),
            response_body: "Hi".to_string(),
            last_modified_date: at(1431648000),
            state: ResponseState::Pending,
        })))
    );
    assert_eq!(
        client.advance(Input::Begin(Call::GetResponseDetails { response_id: "resp-7".to_string() }), &at(1602)),
        Action::Send(get("https://api.appstoreconnect.apple.com/v1/customerReviewResponses/resp-7", "tok2"))
    );
}

#[test]
fn lookup_failures_are_reported() {
    assert_eq!(
        read_lookup(&HttpReply::Failed("offline".to_string())),
        Err(ApiError { kind: ErrorKind::Transport, message: "Failed to fetch response: offline".to_string() })
    );
    assert_eq!(
        read_lookup(&ok(500, "boom")),
        Err(ApiError { kind: ErrorKind::Status, message: "Failed to fetch response with status 500: boom".to_string() })
    );
    assert_eq!(
        read_lookup(&HttpReply::Response { status: 200, body: Err("cut".to_string()) }),
        Err(ApiError { kind: ErrorKind::Transport, message: "Failed to read response: cut".to_string() })
    );
    assert_eq!(
        read_lookup(&ok(200, "")),
        Err(ApiError {
            kind: ErrorKind::Parse,
            message: "Failed to parse relationship response: EOF while parsing a value at line 1 column 0. Response was: ".to_string(),
        })
    );
    let mut client = client_with_token();
    client.get_review_response("rev-1", &at(1001));
    assert_eq!(
        client.resume(Event::Reply(ok(403, "no")), &at(1002)),
        failed(ErrorKind::Status, "Failed to fetch response with status 403: no")
    );
    assert!(!client.is_busy());
}

#[test]
fn response_details_have_defaults() {
    let doc = |attributes: &str| parse(&format!("{{\"data\": {{\"attributes\": {{{}}}}}}}", attributes)).unwrap();
    assert_eq!(
        read_response("id-1", &doc("\"lastModifiedDate\": \"2015-05-15T00:00:00Z\"")),
        Ok(ReviewResponse {
            id: "id-1".to_string(),
            response_body: String::new(),
            last_modified_date: at(1431648000),
            state: ResponseState::Pending,
        })
    );
    for other in ["\"PENDING_PUBLISH\"", "\"published\"", "7", "null"] {
        let response = read_response(
            "id-1",
            &doc(&format!("\"lastModifiedDate\": \"2015-05-15T00:00:00Z\", \"state\": {}, \"responseBody\": 7", other)),
        )
        .unwrap();
        assert_eq!(response.state, ResponseState::Pending);
        assert_eq!(response.response_body, "");
    }
    assert_eq!(
        read_response("id-1", &doc("\"lastModifiedDate\": \"2024-01-15T10:30:00.250+00:00\", \"state\": \"PUBLISHED\""))
            .unwrap()
            .last_modified_date,
        Timestamp { secs: 1705314600, nanos: 250_000_000 }
    );
}

#[test]
fn malformed_response_details_are_reported() {
    let invalid = ApiError { kind: ErrorKind::Parse, message: "Invalid response data format".to_string() };
    assert_eq!(read_response("x", &Json::Object(vec![])), Err(ApiError { kind: invalid.kind, message: invalid.message.clone() }));
    assert_eq!(read_response("x", &parse("{\"data\": {}}").unwrap()), Err(ApiError { kind: invalid.kind, message: invalid.message.clone() }));
    assert_eq!(read_response("x", &parse("[1]").unwrap()), Err(invalid));
    assert_eq!(
        read_response("x", &parse("{\"data\": {\"attributes\": {}}}").unwrap()),
        Err(ApiError { kind: ErrorKind::Parse, message: "Failed to parse date: premature end of input".to_string() })
    );
    assert_eq!(
        read_response("x", &parse("{\"data\": {\"attributes\": {\"lastModifiedDate\": \"2024-01-15T10:30:00 UTC\"}}}").unwrap()),
        Err(ApiError { kind: ErrorKind::Parse, message: "Failed to parse date: input contains invalid characters".to_string() })
    );
    assert_eq!(
        read_details("x", &ok(502, "bad gateway")),
        Err(ApiError { kind: ErrorKind::Status, message: "Failed to fetch response details with status 502: bad gateway".to_string() })
    );
    assert_eq!(
        read_details("x", &HttpReply::Failed("reset".to_string())),
        Err(ApiError { kind: ErrorKind::Transport, message: "Failed to fetch response details: reset".to_string() })
    );
    assert_eq!(
        read_details("x", &HttpReply::Response { status: 200, body: Err("cut".to_string()) }),
        Err(ApiError { kind: ErrorKind::Transport, message: "Failed to read response: cut".to_string() })
    );
    assert_eq!(
        read_details("x", &ok(200, "{")),
        Err(ApiError {
            kind: ErrorKind::Parse,
            message: "Failed to parse response details: EOF while parsing an object at line 1 column 1. Response was: {".to_string(),
        })
    );
    assert_eq!(
        read_details("x", &ok(200, "{\"data\": 1}")),
        Err(ApiError {
            kind: ErrorKind::Parse,
            message: "Invalid response data format. Response was: {\"data\": 1}".to_string(),
        })
    );
    assert_eq!(
        read_details("x", &ok(200, "{\"data\": {\"attributes\": {\"lastModifiedDate\": \"soon\"}}}")),
        Err(ApiError {
            kind: ErrorKind::Parse,
            message: "Failed to parse date: premature end of input. Response was: {\"data\": {\"attributes\": {\"lastModifiedDate\": \"soon\"}}}".to_string(),
        })
    );
}

#[test]
fn events_out_of_turn_end_the_operation() {
    let mut client = AppStoreConnectClient::new(config());
    assert_eq!(
        client.resume(Event::Reply(ok(200, "{}")), &at(0)),
        failed(ErrorKind::Protocol, "Unexpected event")
    );
    assert_eq!(client.advance(signed("tok"), &at(0)), failed(ErrorKind::Protocol, "Unexpected event"));
    client.get_reviews(&at(0));
    assert_eq!(
        client.resume(Event::Reply(ok(200, "{\"data\": []}")), &at(0)),
        failed(ErrorKind::Protocol, "Unexpected event")
    );
    assert!(!client.is_busy());
    let mut ready = client_with_token();
    ready.get_reviews(&at(1001));
    assert_eq!(ready.advance(signed("other"), &at(1001)), failed(ErrorKind::Protocol, "Unexpected event"));
    assert_eq!(ready.get_reviews(&at(1002)), Action::Send(listing_request("tok")));
}

#[test]
fn a_new_operation_replaces_the_one_under_way() {
    let mut client = client_with_token();
    client.get_review_response("rev-1", &at(1001));
    client.get_reviews(&at(1002));
    assert_eq!(
        client.resume(Event::Reply(ok(200, "{\"data\": []}")), &at(1003)),
        Action::Done(Outcome::Reviews(vec![]))
    );
}
