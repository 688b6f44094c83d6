use rand::SeedableRng;
use rsa::pkcs8::{EncodePrivateKey, EncodePublicKey, LineEnding};
use rustpond::config::{Config, Platform};
use rustpond::google_play::{
    parse_google_play_review, read_page, read_page_document, read_reply, read_reply_document,
    read_service_account, read_token, GooglePlayClient, Page, ServiceAccountKey,
};
use rustpond::http::{ApiError, ErrorKind, HttpReply, HttpRequest, Method};
use rustpond::json::{parse, Json};
use rustpond::protocol::{Action, Assertion, Call, Event, Input, Outcome};
use rustpond::review::{ResponseState, Review, ReviewResponse};
use rustpond::time::Timestamp;

/// The seed of the test key; the search for its primes is a short one.
const KEY_SEED: u64 = 403;

/// A 2048-bit RSA key made for the test: the private key and the public key,
/// both in PEM.
fn rsa_key() -> (String, String) {
    let mut rng = rand::rngs::StdRng::seed_from_u64(KEY_SEED);
    let key = rsa::RsaPrivateKey::new(&mut rng, 2048).unwrap();
    let private = key.to_pkcs8_pem(LineEnding::LF).unwrap().to_string();
    let public = rsa::RsaPublicKey::from(&key).to_public_key_pem(LineEnding::LF).unwrap();
    (private, public)
}

fn config() -> Config {
    Config {
        platform: Platform::Android,
        app_id: "com.example.app".to_string(),
        key_id: None,
        issuer_id: None,
        private_key_path: None,
        service_account_path: Some("/keys/sa.json".to_string()),
        openai_api_key: None,
    }
}

fn at(secs: i64) -> Timestamp {
    Timestamp { secs, nanos: 0 }
}

fn ok(status: u16, body: &str) -> HttpReply {
    HttpReply::Response { status, body: Ok(body.to_string()) }
}

fn error(kind: ErrorKind, message: &str) -> ApiError {
    ApiError { kind, message: message.to_string() }
}

fn failed(kind: ErrorKind, message: &str) -> Action {
    Action::Failed(error(kind, message))
}

fn pair(name: &str, value: &str) -> (String, String) {
    (name.to_string(), value.to_string())
}

fn page_request(token: &str, cursor: Option<&str>) -> HttpRequest {
    let mut query = vec![pair("access_token", token), pair("maxResults", "100")];
    if let Some(page) = cursor {
        query.push(pair("token", page));
    }
    HttpRequest {
        method: Method::Get,
        url: "https://www.googleapis.com/androidpublisher/v3/applications/com.example.app/reviews".to_string(),
        bearer: None,
        query,
        json_content: false,
        body: None,
    }
}

fn token_request(jwt: &str, endpoint: &str) -> HttpRequest {
    HttpRequest {
        method: Method::Post,
        url: endpoint.to_string(),
        bearer: None,
        query: vec![],
        json_content: true,
        body: Some(Json::Object(vec![
            ("assertion".to_string(), Json::Text(jwt.to_string())),
            ("grant_type".to_string(), Json::Text("urn:ietf:params:oauth:grant-type:jwt-bearer".to_string())),
        ])),
    }
}

fn signed(jwt: &str) -> Input {
    Input::Signed(Ok(Assertion { jwt: jwt.to_string(), audience: "https://oauth2.example/token".to_string() }))
}

fn item(id: &str, secs: i64) -> String {
    format!(
        "{{\"reviewId\": \"{}\", \"comments\": [{{\"userComment\": {{\"text\": \"body of {}\", \"starRating\": 4, \"lastModified\": {{\"seconds\": \"{}\"}}}}}}]}}",
        id, id, secs
    )
}

fn review(id: &str, secs: i64) -> Review {
    Review {
        id: id.to_string(),
        rating: 4,
        title: None,
        body: Some(format!("body of {}", id)),
        reviewer_nickname: "Anonymous".to_string(),
        created_date: at(secs),
        territory: "Unknown".to_string(),
        version: None,
        response: None,
    }
}

fn page(items: &[(&str, i64)], next: Option<&str>) -> String {
    let reviews: Vec<String> = items.iter().map(|(id, secs)| item(id, *secs)).collect();
    match next {
        Some(token) => format!(
            "{{\"reviews\": [{}], \"tokenPagination\": {{\"nextPageToken\": \"{}\"}}}}",
            reviews.join(", "),
            token
        ),
        None => format!("{{\"reviews\": [{}]}}", reviews.join(", ")),
    }
}

/// A client that holds the access token "acc", stored at second 1000, and
/// has sent its first page request.
fn client_at_first_page() -> GooglePlayClient {
    let mut client = GooglePlayClient::new(config());
    assert_eq!(client.get_reviews(&at(1000)), Action::ReadFile("/keys/sa.json".to_string()));
    assert_eq!(
        client.advance(signed("jwt"), &at(1000)),
        Action::Send(token_request("jwt", "https://oauth2.example/token"))
    );
    assert_eq!(
        client.resume(Event::Reply(ok(200, "{\"access_token\": \"acc\", \"expires_in\": 3599}")), &at(1000)),
        Action::Send(page_request("acc", None))
    );
    client
}

fn reviews_of(action: Action) -> Vec<Review> {
    match action {
        Action::Done(Outcome::Reviews(reviews)) => reviews,
        other => panic!("unexpected action {:?}", other),
    }
}

#[test]
fn a_full_review_is_read() {
    let doc = parse("{\"reviewId\": \"gp-1\", \"authorName\": \"Dana\", \"comments\": [{\"userComment\": {\"text\": \"Nice\", \"lastModified\": {\"seconds\": \"1700000000\", \"nanos\": 5}, \"starRating\": 5, \"reviewerLanguage\": \"en\", \"device\": \"pixel7\", \"androidOsVersion\": 34, \"appVersionCode\": 120, \"appVersionName\": \"2.1.0\"}}, {\"developerComment\": {\"text\": \"thanks\"}}]}").unwrap();
    assert_eq!(
        parse_google_play_review(&doc),
        Some(Review {
            id: "gp-1".to_string(),
            rating: 5,
            title: None,
            body: Some("Nice".to_string()),
            reviewer_nickname: "Dana".to_string(),
            created_date: at(1700000000),
            territory: "pixel7 | API 34 | en".to_string(),
            version: Some("2.1.0 (120)".to_string()),
            response: None,
        })
    );
}

#[test]
fn optional_parts_may_be_missing() {
    assert_eq!(parse_google_play_review(&parse(&item("gp-2", 12)).unwrap()), Some(review("gp-2", 12)));
    let odd = parse("{\"reviewId\": \"gp-3\", \"authorName\": 7, \"comments\": [{\"userComment\": {\"text\": 9, \"starRating\": 1, \"lastModified\": {\"seconds\": \"-5\"}, \"device\": 1, \"reviewerLanguage\": null, \"androidOsVersion\": \"34\", \"appVersionName\": 2, \"appVersionCode\": \"120\"}}]}").unwrap();
    assert_eq!(
        parse_google_play_review(&odd),
        Some(Review {
            id: "gp-3".to_string(),
            rating: 1,
            title: None,
            body: None,
            reviewer_nickname: "Anonymous".to_string(),
            created_date: at(-5),
            territory: "Unknown".to_string(),
            version: None,
            response: None,
        })
    );
}

#[test]
fn the_territory_joins_what_is_given() {
    let territory = |members: &str| {
        let text = format!(
            "{{\"reviewId\": \"r\", \"comments\": [{{\"userComment\": {{\"text\": \"t\", \"starRating\": 3, \"lastModified\": {{\"seconds\": \"1\"}}{}}}}}]}}",
            members
        );
        parse_google_play_review(&parse(&text).unwrap()).unwrap().territory
    };
    assert_eq!(territory(""), "Unknown");
    assert_eq!(territory(", \"device\": \"\""), "Unknown");
    assert_eq!(territory(", \"device\": \"oriole\""), "oriole");
    assert_eq!(territory(", \"androidOsVersion\": 33"), "API 33");
    assert_eq!(territory(", \"reviewerLanguage\": \"de\""), "de");
    assert_eq!(territory(", \"device\": \"oriole\", \"reviewerLanguage\": \"de\""), "oriole | de");
    assert_eq!(territory(", \"androidOsVersion\": -1, \"reviewerLanguage\": \"de\""), "API -1 | de");
    assert_eq!(territory(", \"device\": \"a\", \"androidOsVersion\": 0"), "a | API 0");
    assert_eq!(
        territory(", \"device\": \"a b\", \"androidOsVersion\": 9223372036854775807, \"reviewerLanguage\": \"pt_BR\""),
        "a b | API 9223372036854775807 | pt_BR"
    );
}

#[test]
fn the_version_joins_name_and_code() {
    let version = |members: &str| {
        let text = format!(
            "{{\"reviewId\": \"r\", \"comments\": [{{\"userComment\": {{\"text\": \"t\", \"starRating\": 3, \"lastModified\": {{\"seconds\": \"1\"}}{}}}}}]}}",
            members
        );
        parse_google_play_review(&parse(&text).unwrap()).unwrap().version
    };
    assert_eq!(version(""), None);
    assert_eq!(version(", \"appVersionName\": \"1.4\""), Some("1.4".to_string()));
    assert_eq!(version(", \"appVersionCode\": 77"), Some("Build 77".to_string()));
    assert_eq!(version(", \"appVersionName\": \"1.4\", \"appVersionCode\": 77"), Some("1.4 (77)".to_string()));
    assert_eq!(version(", \"appVersionName\": \"\", \"appVersionCode\": -2"), Some(" (-2)".to_string()));
    assert_eq!(version(", \"appVersionCode\": 1.5"), None);
}

#[test]
fn an_item_without_its_required_parts_is_no_review() {
    for text in [
        "{}",
        "[]",
        "\"reviewId\"",
        "{\"reviewId\": 5, \"comments\": [{\"userComment\": {\"text\": \"t\", \"starRating\": 3, \"lastModified\": {\"seconds\": \"1\"}}}]}",
        "{\"comments\": [{\"userComment\": {\"text\": \"t\", \"starRating\": 3, \"lastModified\": {\"seconds\": \"1\"}}}]}",
        "{\"reviewId\": \"r\"}",
        "{\"reviewId\": \"r\", \"comments\": {}}",
        "{\"reviewId\": \"r\", \"comments\": []}",
        "{\"reviewId\": \"r\", \"comments\": [{}]}",
        "{\"reviewId\": \"r\", \"comments\": [{\"developerComment\": {}}, {\"userComment\": {\"text\": \"t\", \"starRating\": 3, \"lastModified\": {\"seconds\": \"1\"}}}]}",
        "{\"reviewId\": \"r\", \"comments\": [{\"userComment\": {\"text\": \"t\", \"lastModified\": {\"seconds\": \"1\"}}}]}",
        "{\"reviewId\": \"r\", \"comments\": [{\"userComment\": {\"text\": \"t\", \"starRating\": \"3\", \"lastModified\": {\"seconds\": \"1\"}}}]}",
        "{\"reviewId\": \"r\", \"comments\": [{\"userComment\": {\"text\": \"t\", \"starRating\": 3.5, \"lastModified\": {\"seconds\": \"1\"}}}]}",
        "{\"reviewId\": \"r\", \"comments\": [{\"userComment\": {\"starRating\": 3, \"lastModified\": {\"seconds\": \"1\"}}}]}",
        "{\"reviewId\": \"r\", \"comments\": [{\"userComment\": {\"text\": \"t\", \"starRating\": 3}}]}",
        "{\"reviewId\": \"r\", \"comments\": [{\"userComment\": {\"text\": \"t\", \"starRating\": 3, \"lastModified\": {}}}]}",
        "{\"reviewId\": \"r\", \"comments\": [{\"userComment\": {\"text\": \"t\", \"starRating\": 3, \"lastModified\": {\"seconds\": 1}}}]}",
        "{\"reviewId\": \"r\", \"comments\": [{\"userComment\": {\"text\": \"t\", \"starRating\": 3, \"lastModified\": {\"seconds\": \"soon\"}}}]}",
        "{\"reviewId\": \"r\", \"comments\": [{\"userComment\": {\"text\": \"t\", \"starRating\": 3, \"lastModified\": {\"seconds\": \"\"}}}]}",
        "{\"reviewId\": \"r\", \"comments\": [{\"userComment\": {\"text\": \"t\", \"starRating\": 3, \"lastModified\": {\"seconds\": \"9223372036854775807\"}}}]}",
        "{\"reviewId\": \"r\", \"comments\": [{\"userComment\": {\"text\": \"t\", \"starRating\": 3, \"lastModified\": {\"seconds\": \"-9000000000000\"}}}]}",
    ] {
        assert_eq!(parse_google_play_review(&parse(text).unwrap()), None, "{}", text);
    }
}

#[test]
fn a_rating_is_one_to_five_stars() {
    let rated = |stars: &str| {
        let text = format!(
            "{{\"reviewId\": \"r\", \"comments\": [{{\"userComment\": {{\"text\": \"t\", \"starRating\": {}, \"lastModified\": {{\"seconds\": \"1\"}}}}}}]}}",
            stars
        );
        parse_google_play_review(&parse(&text).unwrap()).map(|r| r.rating)
    };
    for stars in 1..=5 {
        assert_eq!(rated(&stars.to_string()), Some(stars));
    }
    for outside in ["0", "6", "9", "-1", "-5", "2147483647", "2147483648", "4294967299", "4294967300", "-9223372036854775808", "9223372036854775807"] {
        assert_eq!(rated(outside), None, "{}", outside);
    }
}

#[test]
fn the_calendar_bounds_the_creation_date() {
    let dated = |secs: &str| {
        let text = format!(
            "{{\"reviewId\": \"r\", \"comments\": [{{\"userComment\": {{\"text\": \"t\", \"starRating\": 1, \"lastModified\": {{\"seconds\": \"{}\"}}}}}}]}}",
            secs
        );
        parse_google_play_review(&parse(&text).unwrap()).map(|r| r.created_date)
    };
    assert_eq!(dated("0"), Some(at(0)));
    assert_eq!(dated("+86400"), Some(at(86400)));
    assert_eq!(dated("8210266876799"), Some(at(8210266876799)));
    assert_eq!(dated("8210266876800"), None);
    assert_eq!(dated("-8334601228800"), Some(at(-8334601228800)));
    assert_eq!(dated("-8334601228801"), None);
}

#[test]
fn a_page_holds_the_reviews_that_can_be_read() {
    let text = format!(
        "{{\"reviews\": [{}, {{\"reviewId\": \"broken\"}}, {}, 17], \"tokenPagination\": {{\"nextPageToken\": \"cursor-2\", \"previousPageToken\": \"cursor-0\"}}}}",
        item("a", 30),
        item("b", 10)
    );
    assert_eq!(
        read_page_document(&parse(&text).unwrap()),
        Page { reviews: vec![review("a", 30), review("b", 10)], next: Some("cursor-2".to_string()) }
    );
    assert_eq!(read_page(&ok(200, &text)).unwrap().next, Some("cursor-2".to_string()));
}

#[test]
fn a_page_without_reviews_or_token_is_empty_and_last() {
    for text in ["{}", "[]", "null", "{\"reviews\": {}}", "{\"reviews\": null, \"tokenPagination\": null}", "{\"tokenPagination\": {}}", "{\"tokenPagination\": {\"nextPageToken\": 5}}", "{\"tokenPagination\": \"p\"}"] {
        assert_eq!(read_page_document(&parse(text).unwrap()), Page { reviews: vec![], next: None }, "{}", text);
    }
    assert_eq!(
        read_page_document(&parse("{\"tokenPagination\": {\"nextPageToken\": \"\"}}").unwrap()),
        Page { reviews: vec![], next: Some(String::new()) }
    );
}

#[test]
fn page_failures_are_reported() {
    assert_eq!(
        read_page(&HttpReply::Failed("no route".to_string())),
        Err(error(ErrorKind::Transport, "Failed to fetch reviews: no route"))
    );
    assert_eq!(
        read_page(&ok(403, "{\"error\": \"denied\"}")),
        Err(error(ErrorKind::Status, "API request failed with status 403: {\"error\": \"denied\"}"))
    );
    assert_eq!(
        read_page(&HttpReply::Response { status: 200, body: Err("cut".to_string()) }),
        Err(error(ErrorKind::Transport, "Failed to read response text: cut"))
    );
    assert_eq!(
        read_page(&ok(200, "{\"reviews\": [")),
        Err(error(
            ErrorKind::Parse,
            "Failed to parse reviews response: EOF while parsing a list at line 1 column 13. Response was: {\"reviews\": ["
        ))
    );
}

#[test]
fn the_reply_of_the_developer_is_found() {
    let doc = parse("{\"reviewId\": \"gp-1\", \"comments\": [{\"userComment\": {\"text\": \"meh\"}}, {\"developerComment\": {\"text\": \"Sorry to hear\", \"lastModified\": {\"seconds\": \"1700000000\"}}}, {\"developerComment\": {\"text\": \"second\"}}]}").unwrap();
    assert_eq!(
        read_reply_document("gp-1", &doc, &at(5)),
        Some(ReviewResponse {
            id: "gp-1-response".to_string(),
            response_body: "Sorry to hear".to_string(),
            last_modified_date: at(1700000000),
            state: ResponseState::Published,
        })
    );
}

#[test]
fn a_reply_has_defaults_for_text_and_date() {
    let reply = |comment: &str, now: i64| {
        let text = format!("{{\"comments\": [{{\"developerComment\": {}}}]}}", comment);
        read_reply_document("r", &parse(&text).unwrap(), &at(now)).unwrap()
    };
    assert_eq!(
        reply("{}", 77),
        ReviewResponse {
            id: "r-response".to_string(),
            response_body: String::new(),
            last_modified_date: at(0),
            state: ResponseState::Published,
        }
    );
    assert_eq!(reply("null", 77).last_modified_date, at(0));
    assert_eq!(reply("{\"text\": 5, \"lastModified\": {\"seconds\": \"later\"}}", 77).last_modified_date, at(0));
    assert_eq!(reply("{\"lastModified\": {\"seconds\": 12}}", 77).last_modified_date, at(0));
    assert_eq!(reply("{\"lastModified\": {\"seconds\": \"12\"}}", 77).last_modified_date, at(12));
    assert_eq!(reply("{\"lastModified\": {\"seconds\": \"9000000000000\"}}", 77).last_modified_date, at(77));
    assert_eq!(
        reply("{\"lastModified\": {\"seconds\": \"9000000000000\"}}", 78).last_modified_date,
        Timestamp { secs: 78, nanos: 0 }
    );
}

#[test]
fn a_play_review_without_a_reply_gives_none() {
    for text in ["{}", "{\"comments\": []}", "{\"comments\": {\"developerComment\": {}}}", "{\"comments\": [{\"userComment\": {\"text\": \"x\"}}]}", "[]"] {
        assert_eq!(read_reply_document("r", &parse(text).unwrap(), &at(0)), None, "{}", text);
    }
    assert_eq!(read_reply("r", &ok(404, "not found"), &at(0)), Ok(None));
    assert_eq!(read_reply("r", &ok(500, "oops"), &at(0)), Ok(None));
    assert_eq!(read_reply("r", &HttpReply::Response { status: 301, body: Err("x".to_string()) }, &at(0)), Ok(None));
    assert_eq!(read_reply("r", &ok(200, "{\"comments\": []}"), &at(0)), Ok(None));
}

#[test]
fn reply_lookup_failures_are_reported() {
    assert_eq!(
        read_reply("r", &HttpReply::Failed("offline".to_string()), &at(0)),
        Err(error(ErrorKind::Transport, "Failed to fetch review: offline"))
    );
    assert_eq!(
        read_reply("r", &HttpReply::Response { status: 200, body: Err("cut".to_string()) }, &at(0)),
        Err(error(ErrorKind::Transport, "Failed to read response text: cut"))
    );
    assert_eq!(
        read_reply("r", &ok(200, "nope"), &at(0)),
        Err(error(
            ErrorKind::Parse,
            "Failed to parse review response: expected ident at line 1 column 2. Response was: nope"
        ))
    );
}

fn account_file(private_key: &str) -> String {
    format!(
        "{{\"type\": \"service_account\", \"project_id\": \"proj\", \"private_key_id\": \"kid-1\", \"private_key\": {}, \"client_email\": \"bot@proj.iam.gserviceaccount.com\", \"client_id\": \"1\", \"auth_uri\": \"https://accounts.example/auth\", \"token_uri\": \"https://oauth2.example/token\", \"extra\": true}}",
        serde_json::Value::from(private_key)
    )
}

#[test]
fn a_service_account_file_is_read() {
    assert_eq!(
        read_service_account(&Ok(account_file("PEM"))),
        Ok(ServiceAccountKey {
            key_type: "service_account".to_string(),
            project_id: "proj".to_string(),
            private_key_id: "kid-1".to_string(),
            private_key: "PEM".to_string(),
            client_email: "bot@proj.iam.gserviceaccount.com".to_string(),
            client_id: "1".to_string(),
            auth_uri: "https://accounts.example/auth".to_string(),
            token_uri: "https://oauth2.example/token".to_string(),
        })
    );
}

#[test]
fn a_service_account_file_at_fault_is_reported() {
    assert_eq!(
        read_service_account(&Err("permission denied".to_string())),
        Err(error(ErrorKind::Credential, "Failed to read service account file: permission denied"))
    );
    assert_eq!(
        read_service_account(&Ok("{".to_string())),
        Err(error(
            ErrorKind::Credential,
            "Failed to parse service account JSON: EOF while parsing an object at line 1 column 1"
        ))
    );
    assert_eq!(
        read_service_account(&Ok("{}".to_string())),
        Err(error(ErrorKind::Credential, "Failed to parse service account JSON: missing or invalid field `type`"))
    );
    assert_eq!(
        read_service_account(&Ok("{\"type\": \"service_account\", \"project_id\": \"p\", \"private_key_id\": 5}".to_string())),
        Err(error(
            ErrorKind::Credential,
            "Failed to parse service account JSON: missing or invalid field `private_key_id`"
        ))
    );
    let without_endpoint = account_file("k").replace("token_uri", "token_url");
    assert_eq!(
        read_service_account(&Ok(without_endpoint)),
        Err(error(ErrorKind::Credential, "Failed to parse service account JSON: missing or invalid field `token_uri`"))
    );
}

#[test]
fn the_assertion_is_signed_with_the_account_key() {
    let (private, public) = rsa_key();
    let assertion = GooglePlayClient::generate_assertion(&Ok(account_file(&private)), &at(1_700_000_000)).unwrap();
    assert_eq!(assertion.audience, "https://oauth2.example/token");
    let header = jsonwebtoken::decode_header(&assertion.jwt).unwrap();
    assert_eq!(header.alg, jsonwebtoken::Algorithm::RS256);
    assert_eq!(header.kid, Some("kid-1".to_string()));
    let mut validation = jsonwebtoken::Validation::new(jsonwebtoken::Algorithm::RS256);
    validation.validate_exp = false;
    validation.set_audience(&["https://oauth2.example/token"]);
    let key = jsonwebtoken::DecodingKey::from_rsa_pem(public.as_bytes()).unwrap();
    let data = jsonwebtoken::decode::<serde_json::Value>(&assertion.jwt, &key, &validation).unwrap();
    let claims = data.claims.as_object().unwrap();
    assert_eq!(claims.len(), 5);
    assert_eq!(claims["iss"], serde_json::Value::from("bot@proj.iam.gserviceaccount.com"));
    assert_eq!(claims["scope"], serde_json::Value::from("https://www.googleapis.com/auth/androidpublisher"));
    assert_eq!(claims["aud"], serde_json::Value::from("https://oauth2.example/token"));
    assert_eq!(claims["iat"], serde_json::Value::from(1_700_000_000i64));
    assert_eq!(claims["exp"], serde_json::Value::from(1_700_003_600i64));
}

#[test]
fn a_key_that_is_no_key_fails_the_signing() {
    let failure = GooglePlayClient::generate_assertion(&Ok(account_file("garbage")), &at(0)).unwrap_err();
    assert_eq!(failure.kind, ErrorKind::Credential);
    assert!(failure.message.starts_with("Failed to create encoding key from RSA private key: "));
    assert_eq!(
        GooglePlayClient::generate_assertion(&Err("gone".to_string()), &at(0)),
        Err(error(ErrorKind::Credential, "Failed to read service account file: gone"))
    );
}

#[test]
fn the_key_file_leads_to_the_token_exchange() {
    let mut client = GooglePlayClient::new(config());
    assert_eq!(client.get_reviews(&at(1_700_000_000)), Action::ReadFile("/keys/sa.json".to_string()));
    let request = match client.resume(Event::File(Ok(account_file(&rsa_key().0))), &at(1_700_000_000)) {
        Action::Send(request) => request,
        other => panic!("unexpected action {:?}", other),
    };
    let jwt = match &request.body {
        Some(Json::Object(members)) => match &members[0].1 {
            Json::Text(jwt) => jwt.clone(),
            other => panic!("unexpected assertion {:?}", other),
        },
        other => panic!("unexpected body {:?}", other),
    };
    assert_eq!(jwt.split('.').count(), 3);
    assert_eq!(request, token_request(&jwt, "https://oauth2.example/token"));
    assert!(client.is_busy());
}

#[test]
fn the_access_token_is_read_from_the_exchange() {
    assert_eq!(read_token(&ok(200, "{\"access_token\": \"token-abc\", \"token_type\": \"Bearer\"}")), Ok("token-abc".to_string()));
    assert_eq!(
        read_token(&ok(200, "{\"token_type\": \"Bearer\"}")),
        Err(error(ErrorKind::Parse, "No access token in response. Response was: {\"token_type\": \"Bearer\"}"))
    );
    assert_eq!(
        read_token(&ok(200, "{\"access_token\": 5}")),
        Err(error(ErrorKind::Parse, "No access token in response. Response was: {\"access_token\": 5}"))
    );
    assert_eq!(
        read_token(&HttpReply::Failed("tls".to_string())),
        Err(error(ErrorKind::Transport, "Failed to request access token: tls"))
    );
    assert_eq!(
        read_token(&ok(400, "{\"error\": \"invalid_grant\"}")),
        Err(error(ErrorKind::Status, "Failed to get access token with status 400: {\"error\": \"invalid_grant\"}"))
    );
    assert_eq!(
        read_token(&HttpReply::Response { status: 200, body: Err("cut".to_string()) }),
        Err(error(ErrorKind::Transport, "Failed to parse token response: cut"))
    );
    assert_eq!(
        read_token(&ok(200, "")),
        Err(error(
            ErrorKind::Parse,
            "Failed to parse token response: EOF while parsing a value at line 1 column 0. Response was: "
        ))
    );
}

#[test]
fn a_failed_exchange_ends_the_operation() {
    let mut client = GooglePlayClient::new(config());
    client.get_reviews(&at(0));
    client.advance(signed("jwt"), &at(0));
    assert_eq!(
        client.resume(Event::Reply(ok(401, "nope")), &at(0)),
        failed(ErrorKind::Status, "Failed to get access token with status 401: nope")
    );
    assert!(!client.is_busy());
    assert!(client.has_more_reviews());
    assert_eq!(client.get_reviews(&at(1)), Action::ReadFile("/keys/sa.json".to_string()));
}

#[test]
fn a_missing_account_path_fails_at_once() {
    let mut client = GooglePlayClient::new(Config { service_account_path: None, ..config() });
    assert_eq!(
        client.get_reviews(&at(0)),
        failed(ErrorKind::Credential, "Service account path not configured for Android")
    );
    assert_eq!(
        client.submit_response("r", "t", &at(0)),
        failed(ErrorKind::Credential, "Service account path not configured for Android")
    );
    assert!(!client.is_busy());
}

#[test]
fn pages_are_loaded_until_the_store_names_no_next_one() {
    let mut client = client_at_first_page();
    assert!(client.has_more_reviews());
    let first = reviews_of(client.resume(Event::Reply(ok(200, &page(&[("a", 5), ("b", 9)], Some("cursor-2")))), &at(1001)));
    assert_eq!(first, vec![review("a", 5), review("b", 9)]);
    assert!(client.has_more_reviews());
    assert_eq!(client.load_next_page(&at(1002)), Action::Send(page_request("acc", Some("cursor-2"))));
    let second = reviews_of(client.resume(Event::Reply(ok(200, &page(&[("c", 7)], Some("cursor-3")))), &at(1003)));
    assert_eq!(second, vec![review("c", 7)]);
    assert!(client.has_more_reviews());
    assert_eq!(client.load_next_page(&at(1004)), Action::Send(page_request("acc", Some("cursor-3"))));
    let third = reviews_of(client.resume(Event::Reply(ok(200, &page(&[("d", 1)], None))), &at(1005)));
    assert_eq!(third, vec![review("d", 1)]);
    assert!(!client.has_more_reviews());
    for round in 0..3 {
        assert_eq!(client.load_next_page(&at(1006 + round)), Action::Done(Outcome::Reviews(vec![])));
        assert_eq!(client.get_reviews(&at(1006 + round)), Action::Done(Outcome::Reviews(vec![])));
        assert!(!client.has_more_reviews());
        assert!(!client.is_busy());
    }
}

#[test]
fn loads_in_a_row_amount_to_one_refresh() {
    let pages = [
        page(&[("a", 5), ("b", 9)], Some("cursor-2")),
        page(&[], Some("cursor-3")),
        page(&[("c", 7), ("d", 7), ("e", 2)], Some("cursor-4")),
        page(&[("f", 1)], None),
    ];
    let mut loader = client_at_first_page();
    let mut loaded = Vec::new();
    let mut requests = 0;
    let mut action = Action::Send(page_request("acc", None));
    for call in 0..8 {
        if call > 0 {
            action = loader.load_next_page(&at(1001));
        }
        let more_before = loader.has_more_reviews();
        if let Action::Send(_) = action {
            action = loader.resume(Event::Reply(ok(200, &pages[requests])), &at(1001));
            requests += 1;
        }
        assert_eq!(more_before, call < 4);
        assert_eq!(loader.has_more_reviews(), call < 3);
        loaded.extend(reviews_of(action));
        action = Action::Done(Outcome::Submitted);
    }
    assert_eq!(requests, 4);

    let mut refresher = client_at_first_page();
    refresher.resume(Event::Reply(ok(200, &pages[3])), &at(1001));
    assert!(!refresher.has_more_reviews());
    let mut action = refresher.refresh_all_reviews(&at(1002));
    assert_eq!(action, Action::Send(page_request("acc", None)));
    let mut answered = 0;
    let refreshed = loop {
        match action {
            Action::Send(request) => {
                let cursor = if answered == 0 { None } else { Some(format!("cursor-{}", answered + 1)) };
                assert_eq!(request, page_request("acc", cursor.as_deref()));
                assert!(refresher.has_more_reviews());
                action = refresher.resume(Event::Reply(ok(200, &pages[answered])), &at(1002));
                answered += 1;
            }
            other => break reviews_of(other),
        }
    };
    assert_eq!(answered, 4);
    assert!(!refresher.has_more_reviews());
    assert!(!refresher.is_busy());
    assert_eq!(refreshed, loaded);
    assert_eq!(
        refreshed,
        vec![review("a", 5), review("b", 9), review("c", 7), review("d", 7), review("e", 2), review("f", 1)]
    );
}

#[test]
fn a_refresh_starts_over_and_forgets_an_earlier_one() {
    let mut client = client_at_first_page();
    client.resume(Event::Reply(ok(200, &page(&[("a", 5)], Some("cursor-2")))), &at(1001));
    assert_eq!(client.refresh_all_reviews(&at(1002)), Action::Send(page_request("acc", None)));
    assert_eq!(
        client.resume(Event::Reply(ok(200, &page(&[("x", 1)], Some("other-2")))), &at(1002)),
        Action::Send(page_request("acc", Some("other-2")))
    );
    assert_eq!(client.refresh_all_reviews(&at(1003)), Action::Send(page_request("acc", None)));
    assert_eq!(
        client.resume(Event::Reply(ok(200, &page(&[("y", 2)], None))), &at(1003)),
        Action::Done(Outcome::Reviews(vec![review("y", 2)]))
    );
}

#[test]
fn a_failed_page_keeps_the_cursor() {
    let mut client = client_at_first_page();
    client.resume(Event::Reply(ok(200, &page(&[("a", 5)], Some("cursor-2")))), &at(1001));
    client.load_next_page(&at(1002));
    assert_eq!(
        client.resume(Event::Reply(ok(500, "down")), &at(1002)),
        failed(ErrorKind::Status, "API request failed with status 500: down")
    );
    assert!(client.has_more_reviews());
    assert_eq!(client.load_next_page(&at(1003)), Action::Send(page_request("acc", Some("cursor-2"))));
    let mut refresher = client_at_first_page();
    refresher.resume(Event::Reply(ok(200, &page(&[], None))), &at(1001));
    refresher.refresh_all_reviews(&at(1002));
    refresher.resume(Event::Reply(ok(200, &page(&[("a", 5)], Some("cursor-2")))), &at(1002));
    assert_eq!(
        refresher.resume(Event::Reply(HttpReply::Failed("reset".to_string())), &at(1002)),
        failed(ErrorKind::Transport, "Failed to fetch reviews: reset")
    );
    assert!(!refresher.is_busy());
}

#[test]
fn the_access_token_is_renewed_five_minutes_before_fifty_five() {
    let mut client = client_at_first_page();
    client.resume(Event::Reply(ok(200, &page(&[], Some("cursor-2")))), &at(1000));
    assert_eq!(client.load_next_page(&at(3999)), Action::Send(page_request("acc", Some("cursor-2"))));
    assert_eq!(client.load_next_page(&at(4000)), Action::ReadFile("/keys/sa.json".to_string()));
    assert_eq!(
        client.advance(signed("jwt2"), &at(4000)),
        Action::Send(token_request("jwt2", "https://oauth2.example/token"))
    );
    assert_eq!(
        client.resume(Event::Reply(ok(200, "{\"access_token\": \"acc2\"}")), &at(4001)),
        Action::Send(page_request("acc2", Some("cursor-2")))
    );
    client.resume(Event::Reply(ok(200, &page(&[], Some("cursor-3")))), &at(4002));
    assert_eq!(client.load_next_page(&at(7000)), Action::Send(page_request("acc2", Some("cursor-3"))));
    assert_eq!(client.load_next_page(&at(7001)), Action::ReadFile("/keys/sa.json".to_string()));
}

#[test]
fn a_refresh_renews_the_token_between_pages() {
    let mut client = client_at_first_page();
    client.resume(Event::Reply(ok(200, &page(&[], None))), &at(1000));
    client.refresh_all_reviews(&at(3990));
    assert_eq!(
        client.resume(Event::Reply(ok(200, &page(&[("a", 1)], Some("cursor-2")))), &at(4005)),
        Action::ReadFile("/keys/sa.json".to_string())
    );
    client.advance(signed("jwt2"), &at(4005));
    assert_eq!(
        client.resume(Event::Reply(ok(200, "{\"access_token\": \"acc2\"}")), &at(4006)),
        Action::Send(page_request("acc2", Some("cursor-2")))
    );
    assert_eq!(
        client.resume(Event::Reply(ok(200, &page(&[("b", 2)], None))), &at(4007)),
        Action::Done(Outcome::Reviews(vec![review("a", 1), review("b", 2)]))
    );
}

#[test]
fn a_reply_is_posted_to_the_review() {
    let mut client = client_at_first_page();
    client.resume(Event::Reply(ok(200, "{}")), &at(1000));
    assert_eq!(
        client.submit_response("gp:AOq/1", "Thanks!", &at(1001)),
        Action::Send(HttpRequest {
            method: Method::Post,
            url: "https://www.googleapis.com/androidpublisher/v3/applications/com.example.app/reviews/gp:AOq/1:reply".to_string(),
            bearer: None,
            query: vec![pair("access_token", "acc")],
            json_content: true,
            body: Some(Json::Object(vec![("replyText".to_string(), Json::Text("Thanks!".to_string()))])),
        })
    );
    assert_eq!(client.resume(Event::Reply(ok(200, "{\"result\": {}}")), &at(1002)), Action::Done(Outcome::Submitted));
    client.submit_response("r", "t", &at(1003));
    assert_eq!(
        client.resume(Event::Reply(ok(400, "too long")), &at(1004)),
        failed(ErrorKind::Status, "Failed to submit response with status 400: too long")
    );
    client.submit_response("r", "t", &at(1005));
    assert_eq!(
        client.resume(Event::Reply(HttpReply::Failed("offline".to_string())), &at(1006)),
        failed(ErrorKind::Transport, "Failed to submit response: offline")
    );
}

#[test]
fn the_reply_to_a_review_is_looked_up_in_one_step() {
    let mut client = client_at_first_page();
    client.resume(Event::Reply(ok(200, "{}")), &at(1000));
    for round in 0..2 {
        assert_eq!(
            client.get_review_response("rev-9", &at(1001 + round)),
            Action::Send(HttpRequest {
                method: Method::Get,
                url: "https://www.googleapis.com/androidpublisher/v3/applications/com.example.app/reviews/rev-9".to_string(),
                bearer: None,
                query: vec![pair("access_token", "acc")],
                json_content: false,
                body: None,
            })
        );
        assert_eq!(
            client.resume(Event::Reply(ok(404, "")), &at(1001 + round)),
            Action::Done(Outcome::Response(None))
        );
    }
    client.get_review_response("rev-9", &at(1005));
    assert_eq!(
        client.resume(
            Event::Reply(ok(200, "{\"comments\": [{\"developerComment\": {\"text\": \"hi\", \"lastModified\": {\"seconds\": \"99999999999999\"}}}]}")),
            &Timestamp { secs: 1006, nanos: 3 }
        ),
        Action::Done(Outcome::Response(Some(ReviewResponse {
            id: "rev-9-response".to_string(),
            response_body: "hi".to_string(),
            last_modified_date: Timestamp { secs: 1006, nanos: 3 },
            state: ResponseState::Published,
        })))
    );
    assert!(client.has_more_reviews() || !client.is_busy());
}

#[test]
fn google_play_has_no_response_details_to_ask_for() {
    let mut client = client_at_first_page();
    client.resume(Event::Reply(ok(200, "{}")), &at(1000));
    assert_eq!(
        client.advance(Input::Begin(Call::GetResponseDetails { response_id: "x".to_string() }), &at(1001)),
        failed(ErrorKind::Protocol, "Unexpected event")
    );
    assert!(!client.is_busy());
}

#[test]
fn events_out_of_turn_end_the_play_operation() {
    let mut client = GooglePlayClient::new(config());
    assert_eq!(client.resume(Event::Reply(ok(200, "{}")), &at(0)), failed(ErrorKind::Protocol, "Unexpected event"));
    assert_eq!(client.advance(signed("j"), &at(0)), failed(ErrorKind::Protocol, "Unexpected event"));
    client.get_reviews(&at(0));
    assert_eq!(client.resume(Event::Reply(ok(200, "{}")), &at(0)), failed(ErrorKind::Protocol, "Unexpected event"));
    assert!(!client.is_busy());
    assert!(client.has_more_reviews());
}
