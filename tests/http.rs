use opa_wasm::http::{
    after_failure, backoff_delay_ms, body_decode, convert_http_resp_to_opa_resp,
    convert_opa_req_to_http_req, raise_error, send_failure, BodyDecode, HttpError, RequestBody,
    RetryStep,
};
use opa_wasm::error::BuiltinError;
use opa_wasm::http::HttpSendBuiltin;
use opa_wasm::json::Json;

fn s(x: &str) -> Json {
    Json::Str(x.to_string())
}

fn obj(members: Vec<(&str, Json)>) -> Json {
    Json::Object(members.into_iter().map(|(k, v)| (k.to_string(), v)).collect())
}

fn get<'a>(j: &'a Json, k: &str) -> Option<&'a Json> {
    match j {
        Json::Object(m) => m.iter().find(|(n, _)| n == k).map(|(_, v)| v),
        _ => None,
    }
}

#[test]
fn request_conversion() {
    let req = obj(vec![
        ("url", s("http://localhost/x")),
        ("method", s("post")),
        ("headers", obj(vec![("X-A", s("1"))])),
        ("body", obj(vec![("k", s("v"))])),
        ("timeout", s("2s")),
        ("enable_redirect", Json::Bool(true)),
        ("max_retry_attempts", Json::Int(3)),
        ("force_yaml_decode", Json::Bool(true)),
    ]);
    let r = convert_opa_req_to_http_req(&req).unwrap();
    assert_eq!(r.method, "POST");
    assert_eq!(r.url, "http://localhost/x");
    assert_eq!(r.headers, vec![("X-A".to_string(), s("1"))]);
    assert!(matches!(r.body, RequestBody::Json(_)));
    assert_eq!(r.timeout_ns, Some(2_000_000_000));
    assert_eq!(r.enable_redirect, Some(true));
    assert_eq!(r.max_retry_attempts, 3);
    assert!(!r.force_json_decode);
    assert!(r.force_yaml_decode);
}

#[test]
fn request_defaults_and_errors() {
    let r = convert_opa_req_to_http_req(&obj(vec![("url", s("u")), ("method", s("get")), ("timeout", Json::Int(7))])).unwrap();
    assert_eq!(r.method, "GET");
    assert!(matches!(r.body, RequestBody::Empty));
    assert_eq!(r.timeout_ns, Some(7));
    assert_eq!(r.enable_redirect, None);
    assert_eq!(r.max_retry_attempts, 0);
    let raw = convert_opa_req_to_http_req(&obj(vec![("url", s("u")), ("method", s("get")), ("raw_body", s("text"))])).unwrap();
    assert!(matches!(raw.body, RequestBody::Raw(Json::Str(_))));
    assert_eq!(convert_opa_req_to_http_req(&Json::Null).err(), Some(HttpError::NotAnObject));
    assert_eq!(convert_opa_req_to_http_req(&obj(vec![("method", s("get"))])).err(), Some(HttpError::MissingUrl));
    assert_eq!(convert_opa_req_to_http_req(&obj(vec![("url", Json::Int(1))])).err(), Some(HttpError::UrlNotString));
    assert_eq!(convert_opa_req_to_http_req(&obj(vec![("url", s("u"))])).err(), Some(HttpError::MissingMethod));
    assert_eq!(convert_opa_req_to_http_req(&obj(vec![("url", s("u")), ("method", Json::Int(1))])).err(), Some(HttpError::MethodNotString));
}

#[test]
fn retries_with_exponential_backoff() {
    assert_eq!(after_failure(0, 2), RetryStep::Wait(500));
    assert_eq!(after_failure(1, 2), RetryStep::Wait(1000));
    assert_eq!(after_failure(2, 2), RetryStep::GiveUp);
    assert_eq!(after_failure(0, 0), RetryStep::GiveUp);
    assert_eq!(backoff_delay_ms(10), 512_000);
    assert_eq!(backoff_delay_ms(100), u64::MAX);
    let k = 4;
    let mut attempts = 0;
    let mut waits = Vec::new();
    let mut attempt = 0;
    loop {
        attempts += 1;
        match after_failure(attempt, k) {
            RetryStep::Wait(ms) => waits.push(ms),
            RetryStep::GiveUp => break,
        }
        attempt += 1;
    }
    assert_eq!(attempts, k + 1);
    assert_eq!(waits, vec![500, 1000, 2000, 4000]);
}

#[test]
fn failures_without_raising() {
    assert!(raise_error(&obj(vec![("url", s("u"))])));
    assert!(!raise_error(&obj(vec![("raise_error", Json::Bool(false))])));
    assert_eq!(send_failure(true, "boom".to_string()), Err("boom".to_string()));
    let r = send_failure(false, "boom".to_string()).unwrap();
    assert_eq!(get(&r, "status_code"), Some(&Json::Int(0)));
    assert_eq!(get(get(&r, "error").unwrap(), "message"), Some(&s("boom")));
}

#[test]
fn response_body_decoding_choice() {
    let yaml = vec![("content-type".to_string(), "application/yaml".to_string())];
    assert_eq!(body_decode(&yaml, false, false), BodyDecode::Yaml);
    let json = vec![("content-type".to_string(), "application/json".to_string())];
    assert_eq!(body_decode(&json, false, false), BodyDecode::Json);
    assert_eq!(body_decode(&Vec::new(), false, false), BodyDecode::Keep);
    assert_eq!(body_decode(&Vec::new(), true, true), BodyDecode::Json);
    assert_eq!(body_decode(&Vec::new(), false, true), BodyDecode::Yaml);
}

#[test]
fn response_object() {
    let headers = vec![
        ("content-type".to_string(), "application/yaml".to_string()),
        ("x".to_string(), "1".to_string()),
        ("x".to_string(), "2".to_string()),
    ];
    let body = obj(vec![("key", s("value"))]);
    let r = convert_http_resp_to_opa_resp(200, headers, "key: value\n".to_string(), Some(body));
    assert_eq!(get(&r, "status_code"), Some(&Json::Int(200)));
    assert_eq!(get(&r, "raw_body"), Some(&s("key: value\n")));
    assert_eq!(get(get(&r, "body").unwrap(), "key"), Some(&s("value")));
    assert_eq!(get(get(&r, "headers").unwrap(), "x"), Some(&s("2")));
    let r2 = convert_http_resp_to_opa_resp(302, Vec::new(), String::new(), None);
    assert_eq!(get(&r2, "status_code"), Some(&Json::Int(302)));
    assert_eq!(get(&r2, "body"), None);
}

#[test]
fn http_send_takes_one_argument() {
    assert_eq!(HttpSendBuiltin.request(vec![s("x")]), Ok(s("x")));
    assert_eq!(HttpSendBuiltin.request(vec![]), Err(BuiltinError::InvalidArguments));
}
