use pandora::body::authenticate_body;
use pandora::call::{complete_request, prepare_request, Reply};
use pandora::credentials::Credentials;
use pandora::envelope::{decode_envelope, encode_ok_envelope};
use pandora::error::Error;
use pandora::json::{find_field, set_field, Json};
use pandora::query::{build_url, fits_url_limit, query_pairs, DEFAULT_ENDPOINT, MAX_ENDPOINT_LEN, MAX_URL_TEXT_LEN};

fn s(text: &str) -> String {
    text.to_owned()
}

fn object(fields: Vec<(&str, Json)>) -> Json {
    Json::Object(fields.into_iter().map(|(k, v)| (s(k), v)).collect())
}

fn str_field<'a>(doc: &'a Json, key: &str) -> Option<&'a str> {
    match doc {
        Json::Object(fields) => match find_field(fields, &s(key)) {
            Some(i) => match &fields[i].1 {
                Json::Str(t) => Some(t.as_str()),
                _ => None,
            },
            None => None,
        },
        _ => None,
    }
}

fn full_credentials() -> Credentials {
    Credentials {
        auth_token: Some(s("tok")),
        partner_id: Some(s("42")),
        user_id: Some(s("u7")),
        user_auth_token: Some(s("uat")),
        sync_time: Some(s("1234")),
    }
}

#[test]
fn default_credentials_are_empty() {
    let c = Credentials::default();
    assert_eq!(c.auth_token, None);
    assert_eq!(c.partner_id, None);
    assert_eq!(c.user_id, None);
    assert_eq!(c.user_auth_token, None);
    assert_eq!(c.sync_time, None);
}

#[test]
fn query_lists_present_fields_in_order() {
    let pairs = query_pairs("auth.login", &full_credentials());
    assert_eq!(
        pairs,
        vec![(s("method"), s("auth.login")), (s("auth_token"), s("tok")), (s("partner_id"), s("42")), (s("user_id"), s("u7"))]
    );
}

#[test]
fn query_omits_absent_fields() {
    let c = Credentials { auth_token: None, partner_id: Some(s("42")), user_id: None, ..Credentials::default() };
    let pairs = query_pairs("station.list", &c);
    assert_eq!(pairs, vec![(s("method"), s("station.list")), (s("partner_id"), s("42"))]);
    let anonymous = query_pairs("test.check", &Credentials::default());
    assert_eq!(anonymous, vec![(s("method"), s("test.check"))]);
}

#[test]
fn url_carries_method_and_credentials() {
    let c = Credentials { auth_token: Some(s("a b")), user_id: Some(s("u&1")), ..Credentials::default() };
    let url = build_url(DEFAULT_ENDPOINT, "auth.partnerLogin", &c).unwrap();
    assert_eq!(url, "https://tuner.pandora.com/services/json/?method=auth.partnerLogin&auth_token=a+b&user_id=u%261");
}

#[test]
fn url_of_anonymous_call_has_only_the_method() {
    let url = build_url("http://example.com/api", "test.check", &Credentials::default()).unwrap();
    assert_eq!(url, "http://example.com/api?method=test.check");
}

#[test]
fn empty_endpoint_is_malformed() {
    let r = build_url("", "auth.login", &Credentials::default());
    assert_eq!(r, Err(Error::MalformedEndpoint(s(""))));
}

#[test]
fn invalid_endpoint_is_malformed() {
    let r = prepare_request("not a url", "auth.login", None, &full_credentials());
    assert!(matches!(r, Err(Error::MalformedEndpoint(ref e)) if e == "not a url"));
}

#[test]
fn body_gets_credential_fields_and_overwrites() {
    let body = object(vec![("syncTime", Json::Str(s("old"))), ("username", Json::Str(s("john")))]);
    let out = authenticate_body(Some(body), &full_credentials());
    assert_eq!(str_field(&out, "syncTime"), Some("1234"));
    assert_eq!(str_field(&out, "userAuthToken"), Some("uat"));
    assert_eq!(str_field(&out, "username"), Some("john"));
    match out {
        Json::Object(fields) => assert_eq!(fields.len(), 3),
        _ => panic!("body is not an object"),
    }
}

#[test]
fn body_untouched_without_credential_fields() {
    let body = object(vec![("syncTime", Json::Str(s("old")))]);
    let out = authenticate_body(Some(body), &Credentials::default());
    assert_eq!(str_field(&out, "syncTime"), Some("old"));
    assert_eq!(str_field(&out, "userAuthToken"), None);
}

#[test]
fn missing_body_becomes_object() {
    let out = authenticate_body(None, &full_credentials());
    assert_eq!(str_field(&out, "syncTime"), Some("1234"));
    assert_eq!(str_field(&out, "userAuthToken"), Some("uat"));
    let empty = authenticate_body(None, &Credentials::default());
    assert!(matches!(empty, Json::Object(ref f) if f.is_empty()));
}

#[test]
fn scalar_body_is_not_merged() {
    let out = authenticate_body(Some(Json::Int(5)), &full_credentials());
    assert!(matches!(out, Json::Int(5)));
}

#[test]
fn set_field_replaces_in_place_or_appends() {
    let mut fields = vec![(s("a"), Json::Int(1)), (s("b"), Json::Int(2))];
    set_field(&mut fields, s("a"), Json::Int(9));
    set_field(&mut fields, s("c"), Json::Bool(true));
    assert_eq!(fields.len(), 3);
    assert!(matches!(fields[0], (ref k, Json::Int(9)) if k == "a"));
    assert!(matches!(fields[2], (ref k, Json::Bool(true)) if k == "c"));
    assert_eq!(find_field(&fields, &s("b")), Some(1));
    assert_eq!(find_field(&fields, &s("z")), None);
}

#[test]
fn prepared_request_has_url_and_body() {
    let p = prepare_request(DEFAULT_ENDPOINT, "user.getStationList", None, &full_credentials()).unwrap();
    assert_eq!(
        p.url,
        "https://tuner.pandora.com/services/json/?method=user.getStationList&auth_token=tok&partner_id=42&user_id=u7"
    );
    assert_eq!(str_field(&p.body, "userAuthToken"), Some("uat"));
}

#[test]
fn ok_envelope_round_trip() {
    let value = object(vec![("authToken", Json::Str(s("abc"))), ("n", Json::Int(-3))]);
    let out = decode_envelope(encode_ok_envelope(value)).unwrap();
    assert_eq!(str_field(&out, "authToken"), Some("abc"));
    match out {
        Json::Object(fields) => {
            assert_eq!(fields.len(), 2);
            assert!(matches!(fields[1], (ref k, Json::Int(-3)) if k == "n"));
        },
        _ => panic!("result is not an object"),
    }
    let text = decode_envelope(encode_ok_envelope(Json::Str(s("x")))).unwrap();
    assert!(matches!(text, Json::Str(ref t) if t == "x"));
}

#[test]
fn fail_envelope_gives_api_failure() {
    let doc = object(vec![
        ("stat", Json::Str(s("fail"))),
        ("message", Json::Str(s("Invalid credentials"))),
        ("code", Json::Int(1002)),
    ]);
    let r = decode_envelope(doc);
    assert!(matches!(r, Err(Error::ApiFailure { ref message, code: 1002 }) if message == "Invalid credentials"));
}

#[test]
fn ok_envelope_gives_result() {
    let doc = object(vec![("stat", Json::Str(s("ok"))), ("result", object(vec![("authToken", Json::Str(s("abc")))]))]);
    let out = decode_envelope(doc).unwrap();
    assert_eq!(str_field(&out, "authToken"), Some("abc"));
}

#[test]
fn ok_envelope_without_result_is_serialization_error() {
    let doc = object(vec![("stat", Json::Str(s("ok")))]);
    assert!(matches!(decode_envelope(doc), Err(Error::SerializationError(_))));
    let null = object(vec![("stat", Json::Str(s("ok"))), ("result", Json::Null)]);
    assert!(matches!(decode_envelope(null), Err(Error::SerializationError(_))));
}

#[test]
fn malformed_envelopes_are_serialization_errors() {
    let not_object = Json::Array(vec![]);
    assert!(matches!(decode_envelope(not_object), Err(Error::SerializationError(_))));
    let unknown = object(vec![("stat", Json::Str(s("maybe"))), ("result", Json::Int(1))]);
    assert!(matches!(decode_envelope(unknown), Err(Error::SerializationError(_))));
    let no_stat = object(vec![("result", Json::Int(1))]);
    assert!(matches!(decode_envelope(no_stat), Err(Error::SerializationError(_))));
    let no_code = object(vec![("stat", Json::Str(s("fail"))), ("message", Json::Str(s("m")))]);
    assert!(matches!(decode_envelope(no_code), Err(Error::SerializationError(_))));
    let bad_code = object(vec![
        ("stat", Json::Str(s("fail"))),
        ("message", Json::Str(s("m"))),
        ("code", Json::Number(s("1.5"))),
    ]);
    assert!(matches!(decode_envelope(bad_code), Err(Error::SerializationError(_))));
    let bad_message = object(vec![("stat", Json::Str(s("ok"))), ("result", Json::Int(1)), ("message", Json::Int(3))]);
    assert!(matches!(decode_envelope(bad_message), Err(Error::SerializationError(_))));
}

#[test]
fn transport_failure_is_transport_error() {
    let r = complete_request(Reply::Failed(s("connection refused")));
    assert!(matches!(r, Err(Error::TransportError(ref m)) if m == "connection refused"));
}

#[test]
fn unreadable_reply_is_serialization_error() {
    let r = complete_request(Reply::Unreadable(s("expected value at line 1")));
    assert!(matches!(r, Err(Error::SerializationError(ref m)) if m == "expected value at line 1"));
}

#[test]
fn received_reply_is_decoded() {
    let doc = object(vec![("stat", Json::Str(s("ok"))), ("result", Json::Bool(false))]);
    assert!(matches!(complete_request(Reply::Received(doc)), Ok(Json::Bool(false))));
}

#[test]
fn mixed_envelopes_are_serialization_errors() {
    let ok_with_code = object(vec![("stat", Json::Str(s("ok"))), ("result", Json::Int(1)), ("code", Json::Int(2))]);
    assert!(matches!(decode_envelope(ok_with_code), Err(Error::SerializationError(_))));
    let ok_with_message =
        object(vec![("stat", Json::Str(s("ok"))), ("result", Json::Int(1)), ("message", Json::Str(s("m")))]);
    assert!(matches!(decode_envelope(ok_with_message), Err(Error::SerializationError(_))));
    let fail_with_result = object(vec![
        ("stat", Json::Str(s("fail"))),
        ("message", Json::Str(s("m"))),
        ("code", Json::Int(1)),
        ("result", object(vec![])),
    ]);
    assert!(matches!(decode_envelope(fail_with_result), Err(Error::SerializationError(_))));
}

#[test]
fn null_fields_count_as_absent() {
    let doc = object(vec![
        ("stat", Json::Str(s("ok"))),
        ("result", Json::Int(4)),
        ("message", Json::Null),
        ("code", Json::Null),
    ]);
    assert!(matches!(decode_envelope(doc), Ok(Json::Int(4))));
}

#[test]
fn url_limit_counts_endpoint_and_query() {
    assert!(fits_url_limit(DEFAULT_ENDPOINT, "auth.login", &full_credentials()));
    let long = "x".repeat(MAX_URL_TEXT_LEN);
    let c = Credentials { auth_token: Some(long), ..Credentials::default() };
    assert!(!fits_url_limit("http://h/#f", "auth.login", &c));
    // the text bound: "http://h/", then "method" = "m" with its two separators
    let fits = "y".repeat(MAX_URL_TEXT_LEN - 18);
    let c = Credentials { user_id: Some(fits[9..].to_owned()), ..Credentials::default() };
    // "user_id" and its separators take the 9 characters cut from the value
    assert!(fits_url_limit("http://h/", "m", &c));
    let c = Credentials { user_id: Some(fits[8..].to_owned()), ..Credentials::default() };
    assert!(!fits_url_limit("http://h/", "m", &c));
}

#[test]
fn endpoint_limit_is_in_characters() {
    let at_limit = format!("http://{}", "\u{5462}".repeat(MAX_ENDPOINT_LEN - 7));
    assert!(fits_url_limit(&at_limit, "m", &Credentials::default()));
    let over = format!("http://{}", "a".repeat(MAX_ENDPOINT_LEN - 6));
    assert!(!fits_url_limit(&over, "m", &Credentials::default()));
    let host = format!("http://{}{}", "a".repeat(199_999), '\u{5462}');
    assert!(!fits_url_limit(&host, "m", &Credentials::default()));
}

#[test]
fn body_fields_keep_their_order() {
    let body = object(vec![("a", Json::Int(1)), ("syncTime", Json::Str(s("old"))), ("b", Json::Int(2))]);
    let out = authenticate_body(Some(body), &full_credentials());
    match out {
        Json::Object(fields) => {
            let names: Vec<&str> = fields.iter().map(|(k, _)| k.as_str()).collect();
            assert_eq!(names, vec!["a", "syncTime", "b", "userAuthToken"]);
        },
        _ => panic!("body is not an object"),
    }
}
