use std::time::{SystemTime, UNIX_EPOCH};

use auth_emulator::claims::{
    answer_encoding, build_id_token, build_id_token_with, claims_of, read_token,
};
use auth_emulator::config::{read_config, Config, Environment};
use auth_emulator::reply::{error_response, health, ErrorResponse, TokenResponse};
use auth_emulator::service::{
    answer_verification, check_entry, issue_token, issue_token_at, refresh_token,
    refresh_token_at, remove_expired_tokens, validate_token, verify_token, IssueTokenRequest,
    RefreshTokenRequest, ValidateTokenRequest, ValidateTokenResponse,
};
use auth_emulator::store::{evict_expired_tokens, RefreshEntry, RefreshStore};
use base64::engine::general_purpose::URL_SAFE_NO_PAD;
use base64::Engine;
use jsonwebtoken::{encode, Algorithm, EncodingKey, Header};
use serde_json::Value;

type Issued = Result<(u16, TokenResponse), (u16, ErrorResponse)>;
type Validated = Result<(u16, ValidateTokenResponse), (u16, ErrorResponse)>;

fn config() -> Config {
    read_config(&Environment { variables: vec![] })
}

fn config_with_room_for(tokens: usize) -> Config {
    let mut config = config();
    config.refresh_store_max_size = tokens;
    config
}

fn current_second() -> i64 {
    SystemTime::now().duration_since(UNIX_EPOCH).unwrap().as_secs() as i64
}

fn issue_at(store: &mut RefreshStore, config: &Config, subject: &str, now: i64, token: &str) -> Issued {
    let request = IssueTokenRequest { subject: subject.to_owned() };
    issue_token_at(store, config, request, now, "id".to_owned(), token.to_owned())
}

fn refresh_at(store: &mut RefreshStore, config: &Config, token: &str, now: i64, new: &str) -> Issued {
    let request = RefreshTokenRequest { refresh_token: token.to_owned() };
    refresh_token_at(store, config, request, now, "id".to_owned(), new.to_owned())
}

fn validate(config: &Config, token: &str) -> Validated {
    validate_token(config, ValidateTokenRequest { id_token: token.to_owned() })
}

fn refusal<T>(answer: Result<T, (u16, ErrorResponse)>) -> (u16, &'static str, String) {
    match answer {
        Ok(_) => panic!("not refused"),
        Err((status, body)) => (status, body.error, body.message),
    }
}

fn refused(status: u16, error: &'static str, message: &str) -> (u16, &'static str, String) {
    (status, error, message.to_owned())
}

fn is_uuid_v4(s: &str) -> bool {
    s.len() == 36
        && s.chars().enumerate().all(|(i, c)| match i {
            8 | 13 | 18 | 23 => c == '-',
            14 => c == '4',
            19 => matches!(c, '8' | '9' | 'a' | 'b'),
            _ => matches!(c, '0'..='9' | 'a'..='f'),
        })
}

fn signed(secret: &str, claims: &[(&str, Value)]) -> String {
    let object: serde_json::Map<String, Value> =
        claims.iter().map(|(name, value)| (name.to_string(), value.clone())).collect();
    let key = EncodingKey::from_secret(secret.as_bytes());
    encode(&Header::new(Algorithm::HS256), &object, &key).unwrap()
}

fn good_claims() -> Vec<(&'static str, Value)> {
    vec![
        ("iss", Value::from("auth-emulator")),
        ("aud", Value::from("sample-client")),
        ("sub", Value::from("user-123")),
        ("iat", Value::from(-5)),
        ("exp", Value::from(current_second() + 100)),
        ("jti", Value::from("j")),
    ]
}

fn with(name: &'static str, value: Value) -> Vec<(&'static str, Value)> {
    let mut claims = good_claims();
    claims.retain(|(n, _)| *n != name);
    claims.push((name, value));
    claims
}

const SECRET: &str = "local-dev-signing-secret-change-me";

#[test]
fn service_is_up() {
    let (status, body) = health();
    assert_eq!((status, body.status), (200, "ok"));
}

#[test]
fn error_response_carries_what_it_is_given() {
    let (status, body) = error_response(418, "teapot", "short".to_owned());
    assert_eq!((status, body.error, body.message), (418, "teapot", "short".to_owned()));
}

#[test]
fn id_token_is_signed_json() {
    let token = build_id_token_with(
        &config(),
        "user-\"1\"".to_owned(),
        1_710_000_000,
        1_710_000_300,
        "id-1".to_owned(),
    );
    assert_eq!(
        token.unwrap(),
        "eyJ0eXAiOiJKV1QiLCJhbGciOiJIUzI1NiJ9.\
         eyJpc3MiOiJhdXRoLWVtdWxhdG9yIiwiYXVkIjoic2FtcGxlLWNsaWVudCIsInN1YiI6InVzZXItXCIxXCIiLCJp\
         YXQiOjE3MTAwMDAwMDAsImV4cCI6MTcxMDAwMDMwMCwianRpIjoiaWQtMSJ9.\
         ALs8tKxaa9-we2_VsRdrM7jBxkGnZBKhILsnOJMRoa0"
    );
}

#[test]
fn id_token_gets_an_identifier_of_its_own() {
    let now = current_second();
    let config = config();
    let mut seen = vec![];
    for _ in 0..2 {
        let token = build_id_token(&config, "s".to_owned(), now, now + 10).unwrap();
        let (_, body) = validate(&config, &token).unwrap();
        assert!(is_uuid_v4(&body.claims.jti));
        seen.push(body.claims.jti);
    }
    assert_ne!(seen[0], seen[1]);
}

#[test]
fn failure_to_encode_is_a_server_error() {
    assert_eq!(
        refusal(answer_encoding(Err("no key".to_owned()))),
        refused(500, "server_error", "failed to encode id_token: no key")
    );
    assert_eq!(answer_encoding(Ok("t".to_owned())).unwrap(), "t");
}

#[test]
fn tokens_are_issued() {
    let mut store = RefreshStore::new();
    let (status, body) = issue_at(&mut store, &config(), "user-123", 1000, "r1").unwrap();
    assert_eq!(status, 200);
    assert_eq!(body.token_type, "Bearer");
    assert_eq!(body.refresh_token, "r1");
    assert_eq!(body.expires_in, 300);
    assert_eq!(body.id_token.split('.').count(), 3);
    let entry = store.get("r1").unwrap();
    assert_eq!((entry.sub.as_str(), entry.exp), ("user-123", 4600));
}

#[test]
fn blank_subject_is_refused_and_nothing_changes() {
    let mut store = RefreshStore::new();
    store.insert("old".to_owned(), RefreshEntry { sub: "s".to_owned(), exp: 1 });
    for subject in ["", " ", "\t\n", "\u{2003}"] {
        assert_eq!(
            refusal(issue_at(&mut store, &config(), subject, 1000, "r")),
            refused(400, "invalid_request", "subject cannot be empty")
        );
    }
    assert_eq!(store.len(), 1);
    assert!(issue_at(&mut store, &config(), " x ", 1000, "r").is_ok());
    assert_eq!(store.get("r").unwrap().sub, " x ");
    assert_eq!(store.len(), 1);
}

#[test]
fn full_store_refuses_until_tokens_expire() {
    let config = config_with_room_for(2);
    let mut store = RefreshStore::new();
    assert!(issue_at(&mut store, &config, "a", 0, "r1").is_ok());
    assert!(issue_at(&mut store, &config, "b", 10, "r2").is_ok());
    assert_eq!(
        refusal(issue_at(&mut store, &config, "c", 20, "r3")),
        refused(503, "server_overloaded", "refresh token store is full")
    );
    assert_eq!(store.len(), 2);
    assert!(issue_at(&mut store, &config, "c", 3599, "r3").is_err());
    assert!(issue_at(&mut store, &config, "c", 3600, "r3").is_ok());
    assert_eq!(store.len(), 2);
    assert!(store.get("r1").is_none());
}

#[test]
fn refresh_rotates_the_token() {
    let config = config();
    let mut store = RefreshStore::new();
    issue_at(&mut store, &config, "user-123", 1000, "r1").unwrap();
    let (status, body) = refresh_at(&mut store, &config, "r1", 2000, "r2").unwrap();
    assert_eq!((status, body.refresh_token.as_str(), body.expires_in), (200, "r2", 300));
    let entry = store.get("r2").unwrap();
    assert_eq!((entry.sub.as_str(), entry.exp), ("user-123", 5600));
    assert_eq!(store.len(), 1);
    assert_eq!(
        refusal(refresh_at(&mut store, &config, "r1", 2000, "r3")),
        refused(401, "invalid_grant", "refresh token is unknown")
    );
    assert!(refresh_at(&mut store, &config, "r2", 5599, "r3").is_ok());
}

#[test]
fn refresh_with_an_expired_token_is_refused_as_unknown() {
    let config = config();
    let mut store = RefreshStore::new();
    issue_at(&mut store, &config, "s", 1000, "r1").unwrap();
    assert_eq!(
        refusal(refresh_at(&mut store, &config, "r1", 4600, "r2")),
        refused(401, "invalid_grant", "refresh token is unknown")
    );
    assert_eq!(store.len(), 0);
}

#[test]
fn expired_entry_is_refused() {
    let entry = RefreshEntry { sub: "s".to_owned(), exp: 10 };
    assert!(check_entry(&entry, 9).is_ok());
    assert_eq!(
        refusal(check_entry(&entry, 10)),
        refused(401, "invalid_grant", "refresh token has expired")
    );
}

#[test]
fn refresh_works_in_a_full_store() {
    let config = config_with_room_for(1);
    let mut store = RefreshStore::new();
    issue_at(&mut store, &config, "s", 0, "r1").unwrap();
    assert!(refresh_at(&mut store, &config, "r1", 1, "r2").is_ok());
    assert_eq!(store.len(), 1);
}

#[test]
fn refresh_in_an_overfull_store_uses_the_token_up() {
    let mut store = RefreshStore::new();
    issue_at(&mut store, &config(), "a", 0, "r1").unwrap();
    issue_at(&mut store, &config(), "b", 0, "r2").unwrap();
    let config = config_with_room_for(1);
    assert_eq!(
        refusal(refresh_at(&mut store, &config, "r1", 1, "r3")),
        refused(503, "server_overloaded", "refresh token store is full")
    );
    assert!(store.get("r1").is_none());
    assert_eq!(store.len(), 1);
}

#[test]
fn other_tokens_stay() {
    let config = config();
    let mut store = RefreshStore::new();
    issue_at(&mut store, &config, "a", 0, "r1").unwrap();
    issue_at(&mut store, &config, "b", 0, "r2").unwrap();
    refresh_at(&mut store, &config, "r2", 5, "r3").unwrap();
    assert_eq!(store.get("r1").map(|e| (e.sub.clone(), e.exp)), Some(("a".to_owned(), 3600)));
    assert!(store.get("r2").is_none());
}

#[test]
fn cleanup_makes_no_difference_to_a_refresh() {
    let config = config();
    for clean in [false, true] {
        let mut store = RefreshStore::new();
        issue_at(&mut store, &config, "a", 0, "r1").unwrap();
        issue_at(&mut store, &config, "b", 3000, "r2").unwrap();
        if clean {
            evict_expired_tokens(&mut store, 3700);
        }
        assert!(refresh_at(&mut store, &config, "r1", 3800, "r3").is_err());
        assert!(refresh_at(&mut store, &config, "r2", 3800, "r4").is_ok());
        assert_eq!(store.len(), 1);
    }
}

#[test]
fn request_now_is_answered_with_new_tokens() {
    let config = config();
    let mut store = RefreshStore::new();
    let before = current_second();
    let issue = |store: &mut RefreshStore| {
        let request = IssueTokenRequest { subject: "user-123".to_owned() };
        issue_token(store, &config, request).unwrap().unwrap().1
    };
    let first = issue(&mut store);
    let second = issue(&mut store);
    let after = current_second();
    assert!(is_uuid_v4(&first.refresh_token));
    assert!(is_uuid_v4(&second.refresh_token));
    assert_ne!(first.refresh_token, second.refresh_token);
    let exp = store.get(&first.refresh_token).unwrap().exp;
    assert!(before + 3600 <= exp && exp <= after + 3600);

    let request = RefreshTokenRequest { refresh_token: first.refresh_token.clone() };
    let third = refresh_token(&mut store, &config, request).unwrap().unwrap().1;
    assert!(is_uuid_v4(&third.refresh_token));
    assert_eq!(store.len(), 2);
    let request = RefreshTokenRequest { refresh_token: first.refresh_token };
    let again = refresh_token(&mut store, &config, request).unwrap();
    assert_eq!(refusal(again), refused(401, "invalid_grant", "refresh token is unknown"));

    let (status, body) = validate(&config, &third.id_token).unwrap();
    assert_eq!(status, 200);
    assert!(body.valid);
    assert_eq!(body.claims.sub, "user-123");
    assert_eq!(body.claims.iss, "auth-emulator");
    assert_eq!(body.claims.aud, "sample-client");
    assert_eq!(body.claims.exp, body.claims.iat + 300);
    assert!(before <= body.claims.iat && body.claims.iat <= current_second());
    assert!(is_uuid_v4(&body.claims.jti));
}

#[test]
fn expiry_that_does_not_fit_gets_no_answer() {
    let mut config = config();
    let mut store = RefreshStore::new();
    config.refresh_token_ttl_seconds = i64::MAX;
    let request = IssueTokenRequest { subject: "s".to_owned() };
    assert!(issue_token(&mut store, &config, request).is_none());
    assert_eq!(store.len(), 0);
    let request = IssueTokenRequest { subject: " ".to_owned() };
    let answer = issue_token(&mut store, &config, request).unwrap();
    assert_eq!(refusal(answer), refused(400, "invalid_request", "subject cannot be empty"));

    store.insert("r".to_owned(), RefreshEntry { sub: "s".to_owned(), exp: i64::MAX });
    let request = RefreshTokenRequest { refresh_token: "r".to_owned() };
    assert!(refresh_token(&mut store, &config, request).is_none());
    assert_eq!(store.len(), 1);
    let request = RefreshTokenRequest { refresh_token: "x".to_owned() };
    assert!(refresh_token(&mut store, &config, request).unwrap().is_err());
}

#[test]
fn expired_tokens_are_removed_now() {
    let mut store = RefreshStore::new();
    let now = current_second();
    store.insert("old".to_owned(), RefreshEntry { sub: "s".to_owned(), exp: now });
    store.insert("new".to_owned(), RefreshEntry { sub: "s".to_owned(), exp: now + 1000 });
    remove_expired_tokens(&mut store);
    assert_eq!(store.len(), 1);
    assert!(store.get("new").is_some());
}

#[test]
fn blank_id_token_is_refused() {
    for token in ["", "  ", "\u{85}"] {
        assert_eq!(
            refusal(validate(&config(), token)),
            refused(400, "invalid_request", "id_token cannot be empty")
        );
    }
}

#[test]
fn valid_id_token_is_answered_with_its_claims() {
    let (status, body) = validate(&config(), &signed(SECRET, &good_claims())).unwrap();
    assert_eq!(status, 200);
    assert!(body.valid);
    assert_eq!(body.claims.iss, "auth-emulator");
    assert_eq!(body.claims.aud, "sample-client");
    assert_eq!(body.claims.sub, "user-123");
    assert_eq!(body.claims.iat, -5);
    assert_eq!(body.claims.jti, "j");
    let mut more = good_claims();
    more.push(("nbf", Value::from("soon")));
    more.push(("list", Value::Array(vec![Value::Null])));
    assert!(validate(&config(), &signed(SECRET, &more)).is_ok());
}

#[test]
fn id_token_is_taken_within_the_leeway() {
    let now = current_second();
    assert!(validate(&config(), &signed(SECRET, &with("exp", Value::from(now - 30)))).is_ok());
    assert!(validate(&config(), &signed(SECRET, &with("exp", Value::from(now - 90)))).is_err());
}

#[test]
fn invalid_id_tokens_are_refused() {
    let good = signed(SECRET, &good_claims());
    let mut tokens = vec![
        "not a token".to_owned(),
        "a.b.c".to_owned(),
        format!("{good}x"),
        format!(" {good}"),
        signed("another secret", &good_claims()),
        signed(SECRET, &with("iss", Value::from("someone"))),
        signed(SECRET, &with("aud", Value::from("someone"))),
        signed(SECRET, &with("aud", Value::Array(vec![Value::from("sample-client")]))),
        signed(SECRET, &with("exp", Value::from(-1))),
        signed(SECRET, &with("exp", Value::from(1e10))),
        signed(SECRET, &with("exp", Value::from(u64::MAX))),
        signed(SECRET, &with("iat", Value::from("now"))),
        signed(SECRET, &with("iat", Value::from(1.5))),
        signed(SECRET, &with("sub", Value::from(7))),
        signed(SECRET, &with("jti", Value::Null)),
    ];
    for name in ["iss", "aud", "sub", "iat", "exp", "jti"] {
        let mut claims = good_claims();
        claims.retain(|(n, _)| *n != name);
        tokens.push(signed(SECRET, &claims));
    }
    for token in tokens {
        assert_eq!(
            refusal(validate(&config(), &token)),
            refused(401, "invalid_token", "id_token is invalid"),
            "{token}"
        );
    }
}

#[test]
fn id_token_of_another_service_is_refused() {
    let mut store = RefreshStore::new();
    let now = current_second();
    let (_, body) = issue_at(&mut store, &config(), "s", now, "r").unwrap();
    assert!(validate(&config(), &body.id_token).is_ok());
    for (issuer, audience) in [("other", "sample-client"), ("auth-emulator", "other")] {
        let mut config = config();
        config.issuer = issuer.to_owned();
        config.audience = audience.to_owned();
        assert_eq!(
            refusal(validate(&config, &body.id_token)),
            refused(401, "invalid_token", "id_token is invalid")
        );
    }
}

#[test]
fn issued_claims_come_back() {
    let config = config();
    let mut store = RefreshStore::new();
    let now = current_second();
    let subject = "J\u{fc}rgen \"\\\" \u{1f600}\n";
    let (_, body) = issue_at(&mut store, &config, subject, now, "r").unwrap();
    let claims = validate(&config, &body.id_token).unwrap().1.claims;
    assert_eq!(claims.sub, subject);
    assert_eq!((claims.iat, claims.exp, claims.jti.as_str()), (now, now + 300, "id"));
    let (_, body) = issue_at(&mut store, &config, subject, now - 400, "r").unwrap();
    assert!(validate(&config, &body.id_token).is_err());
}

#[test]
fn claims_are_read_from_an_object() {
    let read = |json: &str| claims_of(&json.as_bytes().to_vec());
    let good = " { \"iss\" : \"i\" ,\n\"aud\":\"a\",\"more\":[{\"sub\":1},\"}\"],\"sub\":\"\\u0073\\n\",\
                \"\\u0069at\":-1,\"exp\":\t2 , \"jti\":\"\"}\r";
    let claims = read(good).unwrap();
    assert_eq!((claims.iss.as_str(), claims.aud.as_str(), claims.sub.as_str()), ("i", "a", "s\n"));
    assert_eq!((claims.iat, claims.exp, claims.jti.as_str()), (-1, 2, ""));
    for bad in [
        "",
        "{",
        "{}",
        "[]",
        "null",
        "[\"i\",\"a\",\"s\",1,2,\"j\"]",
        "{\"iss\" \"i\"}",
        "{\"iss\":\"i\",}",
        "{\"iss\":\"i\" \"aud\":\"a\"}",
    ] {
        assert!(read(bad).is_none(), "{bad}");
    }
    for (from, to) in [
        ("\"i\"", "1"),
        ("-1", "\"x\""),
        ("-1", "1.0"),
        ("-1", "9223372036854775808"),
        ("\"jti\":\"\"", "\"jti\":\"\",\"jti\":\"\""),
        ("\"exp\"", "\"iat\":1,\"exp\""),
        ("\"jti\"", "\"jtj\""),
    ] {
        assert!(good.contains(from));
        assert!(read(&good.replace(from, to)).is_none(), "{from} {to}");
    }
    assert!(read(&good.replace("\"more\"", "\"more\":1,\"more\"")).is_some());
}

#[test]
fn claims_are_read_from_a_token_without_verifying_it() {
    let token = build_id_token_with(&config(), "s".to_owned(), 1, 2, "j".to_owned()).unwrap();
    let claims = read_token(&token).unwrap();
    assert_eq!((claims.sub.as_str(), claims.iat, claims.exp), ("s", 1, 2));
    let unsigned = format!("{}.x", token.rsplit_once('.').unwrap().0);
    assert_eq!(read_token(&unsigned).unwrap().jti, "j");
    for bad in ["", "a", "a.b", "a.!.c", "a.e30.c", &format!("{token}.x")] {
        assert!(read_token(bad).is_none(), "{bad}");
    }
}

#[test]
fn verification_is_answered() {
    assert_eq!(
        refusal(answer_verification(Some(Err("e".to_owned())))),
        refused(401, "invalid_token", "id_token is invalid")
    );
    assert_eq!(
        refusal(answer_verification(None)),
        refused(400, "invalid_request", "id_token cannot be empty")
    );
    let token = build_id_token_with(&config(), "s".to_owned(), 1, 2, "j".to_owned()).unwrap();
    let (status, body) = answer_verification(Some(Ok(read_token(&token).unwrap()))).unwrap();
    assert_eq!((status, body.valid, body.claims.sub.as_str()), (200, true, "s"));
}

#[test]
fn verification_says_why_a_token_is_not_taken() {
    let verify = |token: &str| {
        let request = ValidateTokenRequest { id_token: token.to_owned() };
        verify_token(&config(), &request)
    };
    assert!(verify(" ").is_none());
    let reason = |token: &str| verify(token).unwrap().unwrap_err();
    assert_eq!(reason("no token"), "InvalidToken");
    assert_eq!(reason(&signed("another secret", &good_claims())), "InvalidSignature");
    assert_eq!(
        reason(&signed(SECRET, &with("exp", Value::from(current_second() - 90)))),
        "ExpiredSignature"
    );
    assert_eq!(reason(&signed(SECRET, &with("iss", Value::from("someone")))), "InvalidIssuer");
    assert_eq!(reason(&signed(SECRET, &with("aud", Value::from("someone")))), "InvalidAudience");
    assert_eq!(
        reason(&signed(SECRET, &with("jti", Value::Null))),
        "claims are missing or cannot be read"
    );
    let claims = verify(&signed(SECRET, &good_claims())).unwrap().unwrap();
    assert_eq!((claims.sub.as_str(), claims.iat), ("user-123", -5));
}

/// A token with these bytes as its payload, signed with the secret of the settings.
fn signed_bytes(payload: &[u8]) -> String {
    let header = URL_SAFE_NO_PAD.encode("{\"typ\":\"JWT\",\"alg\":\"HS256\"}");
    let message = format!("{header}.{}", URL_SAFE_NO_PAD.encode(payload));
    let key = EncodingKey::from_secret(SECRET.as_bytes());
    let signature = jsonwebtoken::crypto::sign(message.as_bytes(), &key, Algorithm::HS256).unwrap();
    format!("{message}.{signature}")
}

/// The payload of a good identity token, with `more` among its members.
fn payload_with(more: &[u8]) -> Vec<u8> {
    let exp = current_second() + 100;
    let mut payload = b"{\"iss\":\"auth-emulator\",".to_vec();
    payload.extend_from_slice(more);
    payload.extend_from_slice(
        format!(
            ",\"aud\":\"sample-client\",\"sub\":\"s\",\"iat\":7,\"exp\":{exp},\"jti\":\"j\"}}"
        )
        .as_bytes(),
    );
    payload
}

#[test]
fn members_that_are_no_claims_of_an_identity_token_are_passed_over() {
    let nested = format!("\"more\":{}{}", "[".repeat(1000), "]".repeat(1000));
    let others: [&[u8]; 7] = [
        b"\"more\":\"\\ud800\"",
        b"\"more\":1e999",
        nested.as_bytes(),
        b"\"more\":{\"iat\":\"x\",\"jti\":1}",
        b"\"more\":1,\"more\":2",
        b"\"more\":\"\xff\xfe\"",
        b"\"more\":[{\"\xff\":0}]",
    ];
    for more in others {
        let (_, body) = validate(&config(), &signed_bytes(&payload_with(more))).unwrap();
        assert_eq!((body.claims.iat, body.claims.jti.as_str()), (7, "j"), "{more:?}");
    }
}

#[test]
fn repeated_claims_are_refused() {
    let repeated: [&[u8]; 8] = [
        b"\"iss\":\"auth-emulator\"",
        b"\"aud\":\"sample-client\"",
        b"\"sub\":\"s\"",
        b"\"iat\":7",
        b"\"iat\":\"x\"",
        b"\"\\u0069at\":7",
        b"\"exp\":1",
        b"\"jti\":\"j\"",
    ];
    for more in repeated {
        assert_eq!(
            refusal(validate(&config(), &signed_bytes(&payload_with(more)))),
            refused(401, "invalid_token", "id_token is invalid"),
            "{more:?}"
        );
    }
}

#[test]
fn payloads_that_are_no_objects_are_refused() {
    let exp = current_second() + 100;
    let five = format!("[{exp},0,\"s\",\"auth-emulator\",\"sample-client\"]");
    let six = format!("[\"auth-emulator\",\"sample-client\",\"s\",7,{exp},\"j\"]");
    let key = b"\"\xff\":1".to_vec();
    for payload in [five.into_bytes(), six.into_bytes(), b"7".to_vec(), payload_with(&key)] {
        assert_eq!(
            refusal(validate(&config(), &signed_bytes(&payload))),
            refused(401, "invalid_token", "id_token is invalid")
        );
    }
}

#[test]
fn id_tokens_with_different_identifiers_differ() {
    let config = config();
    for exp in [-5, 5] {
        let build = |jti: &str| {
            build_id_token_with(&config, "s".to_owned(), 1, exp, jti.to_owned()).unwrap()
        };
        assert_ne!(build("a"), build("b"));
        assert_eq!(build("a"), build("a"));
    }
}

#[test]
fn id_token_of_a_service_with_another_secret_is_refused() {
    let mut other = config();
    other.signing_secret = "another secret".to_owned();
    let now = current_second();
    let token = build_id_token(&other, "s".to_owned(), now, now + 10).unwrap();
    assert!(validate(&other, &token).is_ok());
    assert_eq!(
        refusal(validate(&config(), &token)),
        refused(401, "invalid_token", "id_token is invalid")
    );
}
