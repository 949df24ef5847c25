//! The decisions of the `http.send` builtin: what request an OPA request
//! object stands for, when to retry, and what response object to hand back.
//! The host performs the requests and the waits.

use vstd::prelude::*;
use vstd::arithmetic::power2::{pow2, lemma_pow2_unfold, lemma_pow2_strictly_increases};
use crate::json::{Json, JVal, jmembers, member, get_member, lemma_no_key, put_member};

verus! {

broadcast use vstd::std_specs::vec::group_vec_axioms, vstd::seq::group_seq_axioms;

/// The default timeout of a request: 5 s.
pub const DEFAULT_TIMEOUT_NS: u128 = 5_000_000_000;

/// The first wait between two attempts, in milliseconds.
pub const BASE_DELAY_MS: u64 = 500;

/// Why an OPA request object does not describe a request.
#[derive(Debug, PartialEq, Eq)]
pub enum HttpError {
    /// The request is not a JSON object.
    NotAnObject,
    /// The request has no `url`.
    MissingUrl,
    /// The `url` is not a string.
    UrlNotString,
    /// The request has no `method`.
    MissingMethod,
    /// The `method` is not a string.
    MethodNotString,
}

/// Where the body of a request comes from.
#[derive(Debug)]
pub enum RequestBody {
    /// The `body` member, sent as its JSON text.
    Json(Json),
    /// The `raw_body` member, sent as the text that its JSON value prints as.
    Raw(Json),
    /// Neither is there: the body is empty.
    Empty,
}

/// A request as the host is to send it.
#[derive(Debug)]
pub struct HttpRequest {
    /// The method, in upper case.
    pub method: String,
    /// The URL.
    pub url: String,
    /// The headers; each value is sent as the text its JSON value prints as.
    pub headers: Vec<(String, Json)>,
    /// The body.
    pub body: RequestBody,
    /// How long to wait for the response, in nanoseconds, where the request
    /// says so.
    pub timeout_ns: Option<u128>,
    /// Whether redirects are followed, where the request says so.
    pub enable_redirect: Option<bool>,
    /// How many times a failed request is tried again.
    pub max_retry_attempts: u64,
    /// Decode the response body as JSON whatever its content type.
    pub force_json_decode: bool,
    /// Decode the response body as YAML whatever its content type.
    pub force_yaml_decode: bool,
}

/// The upper-case form of a text.
pub uninterp spec fn upper_of(s: Seq<char>) -> Seq<char>;

/// Relies on `str::to_uppercase`: the result depends on the text alone, and
/// the empty text stays empty.
#[verifier::external_body]
fn uppercase(s: &str) -> (r: String)
    ensures
        r@ == upper_of(s@),
        s@.len() == 0 ==> r@.len() == 0,
{
    s.to_uppercase()
}

/// The member named `k` of the object `m`, when `m` is an object.
pub open spec fn field(m: Seq<(Seq<char>, JVal)>, k: &str) -> Option<JVal> {
    member(m, k@)
}

/// The boolean that the member `k` holds, if it holds one.
pub open spec fn bool_field(m: Seq<(Seq<char>, JVal)>, k: &str) -> Option<bool> {
    match field(m, k) {
        Some(JVal::Bool(b)) => Some(b),
        _ => None,
    }
}

/// The non-negative integer that the member `k` holds, if it holds one that
/// fits in 64 bits.
pub open spec fn u64_field(m: Seq<(Seq<char>, JVal)>, k: &str) -> Option<u64> {
    match field(m, k) {
        Some(JVal::Int(n)) => if 0 <= n <= u64::MAX {
            Some(n as u64)
        } else {
            None
        },
        _ => None,
    }
}

/// The timeout that a `timeout` member stands for: nanoseconds as an
/// integer, or a text such as `"5s"`.
pub open spec fn timeout_of(v: Option<JVal>) -> Option<u128> {
    match v {
        Some(JVal::Int(n)) => if 0 <= n <= u64::MAX {
            Some(n as u128)
        } else {
            None
        },
        Some(JVal::Str(s)) => crate::time::duration_ns(s),
        _ => None,
    }
}

fn lookup<'a>(m: &'a Vec<(String, Json)>, k: &str) -> (r: Option<&'a Json>)
    ensures
        r is Some <==> field(jmembers(m@), k) is Some,
        r is Some ==> field(jmembers(m@), k) == Some(r.unwrap()@),
{
    let key = k.to_owned();
    get_member(m, &key)
}

fn lookup_bool(m: &Vec<(String, Json)>, k: &str) -> (r: Option<bool>)
    ensures
        r == bool_field(jmembers(m@), k),
{
    match lookup(m, k) {
        Some(Json::Bool(b)) => Some(*b),
        _ => None,
    }
}

fn lookup_u64(m: &Vec<(String, Json)>, k: &str) -> (r: Option<u64>)
    ensures
        r == u64_field(jmembers(m@), k),
{
    match lookup(m, k) {
        Some(Json::Int(n)) => if 0 <= *n && *n <= u64::MAX as i128 {
            Some(*n as u64)
        } else {
            None
        },
        _ => None,
    }
}

/// A deep copy of a document.
pub fn copy_json(j: &Json) -> (r: Json)
    ensures
        r@ == j@,
    decreases j,
{
    match j {
        Json::Null => Json::Null,
        Json::Bool(b) => Json::Bool(*b),
        Json::Int(n) => Json::Int(*n),
        Json::Float(t) => Json::Float(t.clone()),
        Json::Str(s) => Json::Str(s.clone()),
        Json::Array(v) => Json::Array(copy_items(v)),
        Json::Object(m) => Json::Object(copy_members(m)),
    }
}

/// A deep copy of the items of an array.
fn copy_items(v: &Vec<Json>) -> (r: Vec<Json>)
    ensures
        crate::json::jvals(r@) == crate::json::jvals(v@),
    decreases v,
{
    let mut out: Vec<Json> = Vec::new();
    let mut i: usize = 0;
    proof {
        assert(crate::json::jvals(out@) =~= Seq::<JVal>::empty());
        assert(v@.take(0) =~= Seq::<Json>::empty());
    }
    while i < v.len()
        invariant
            i <= v.len(),
            crate::json::jvals(out@) == crate::json::jvals(v@.take(i as int)),
        decreases v.len() - i,
    {
        proof {
            assert(decreases_to!(*v => v[i as int]));
        }
        let c = copy_json(&v[i]);
        proof {
            crate::json::lemma_jvals_push(out@, c);
            crate::json::lemma_jvals_push(v@.take(i as int), v@[i as int]);
            assert(v@.take(i as int + 1) =~= v@.take(i as int).push(v@[i as int]));
        }
        out.push(c);
        i = i + 1;
    }
    assert(v@.take(i as int) =~= v@);
    out
}

/// A deep copy of the members of an object.
fn copy_members(m: &Vec<(String, Json)>) -> (r: Vec<(String, Json)>)
    ensures
        jmembers(r@) == jmembers(m@),
    decreases m,
{
    let mut out: Vec<(String, Json)> = Vec::new();
    let mut i: usize = 0;
    proof {
        assert(jmembers(out@) =~= Seq::<(Seq<char>, JVal)>::empty());
        assert(m@.take(0) =~= Seq::<(String, Json)>::empty());
    }
    while i < m.len()
        invariant
            i <= m.len(),
            jmembers(out@) == jmembers(m@.take(i as int)),
        decreases m.len() - i,
    {
        proof {
            assert(decreases_to!(*m => m[i as int]));
        }
        let c = copy_json(&m[i].1);
        let k = m[i].0.clone();
        let ghost ob = out@;
        out.push((k, c));
        proof {
            assert(out@.drop_last() =~= ob);
            assert(m@.take(i as int + 1).drop_last() =~= m@.take(i as int));
        }
        i = i + 1;
    }
    assert(m@.take(i as int) =~= m@);
    out
}

/// The request that the members `m` of an OPA request object describe.
pub open spec fn request_spec(m: Seq<(Seq<char>, JVal)>, r: Result<HttpRequest, HttpError>) -> bool {
    match (field(m, "url"), field(m, "method")) {
        (None, _) => r == Err::<HttpRequest, HttpError>(HttpError::MissingUrl),
        (Some(u), _) if !(u is Str) => r == Err::<HttpRequest, HttpError>(HttpError::UrlNotString),
        (Some(_), None) => r == Err::<HttpRequest, HttpError>(HttpError::MissingMethod),
        (Some(_), Some(v)) if !(v is Str) => r == Err::<HttpRequest, HttpError>(HttpError::MethodNotString),
        (Some(u), Some(v)) => r is Ok && {
            let q = r.unwrap();
            &&& q.url@ == u->Str_0
            &&& q.method@ == upper_of(v->Str_0)
            &&& match field(m, "headers") {
                Some(JVal::Object(h)) => jmembers(q.headers@) == h,
                _ => q.headers@.len() == 0,
            }
            &&& match (field(m, "body"), field(m, "raw_body")) {
                (Some(b), _) => q.body matches RequestBody::Json(x) && x@ == b,
                (None, Some(b)) => q.body matches RequestBody::Raw(x) && x@ == b,
                (None, None) => q.body is Empty,
            }
            &&& q.timeout_ns == timeout_of(field(m, "timeout"))
            &&& q.enable_redirect == bool_field(m, "enable_redirect")
            &&& q.max_retry_attempts == match u64_field(m, "max_retry_attempts") {
                Some(n) => n,
                None => 0,
            }
            &&& q.force_json_decode == (bool_field(m, "force_json_decode") == Some(true))
            &&& q.force_yaml_decode == (bool_field(m, "force_yaml_decode") == Some(true))
        },
    }
}

/// Converts an OPA request object to an HTTP request.
pub fn convert_opa_req_to_http_req(opa_req: &Json) -> (r: Result<HttpRequest, HttpError>)
    ensures
        !(opa_req@ is Object) ==> r == Err::<HttpRequest, HttpError>(HttpError::NotAnObject),
        opa_req@ matches JVal::Object(m) ==> request_spec(m, r),
{
    let m = match opa_req {
        Json::Object(m) => m,
        _ => {
            return Err(HttpError::NotAnObject);
        },
    };
    let url = match lookup(m, "url") {
        None => {
            return Err(HttpError::MissingUrl);
        },
        Some(Json::Str(u)) => u.clone(),
        Some(_) => {
            return Err(HttpError::UrlNotString);
        },
    };
    let method = match lookup(m, "method") {
        None => {
            return Err(HttpError::MissingMethod);
        },
        Some(Json::Str(v)) => uppercase(v.as_str()),
        Some(_) => {
            return Err(HttpError::MethodNotString);
        },
    };
    let headers = match lookup(m, "headers") {
        Some(hj) => match copy_json(hj) {
            Json::Object(hh) => hh,
            _ => Vec::new(),
        },
        None => Vec::new(),
    };
    let body = match lookup(m, "body") {
        Some(b) => RequestBody::Json(copy_json(b)),
        None => match lookup(m, "raw_body") {
            Some(b) => RequestBody::Raw(copy_json(b)),
            None => RequestBody::Empty,
        },
    };
    let timeout_ns = match lookup(m, "timeout") {
        Some(Json::Int(n)) => if 0 <= *n && *n <= u64::MAX as i128 {
            Some(*n as u128)
        } else {
            None
        },
        Some(Json::Str(s)) => crate::time::parse_duration(s.as_str()),
        _ => None,
    };
    let enable_redirect = lookup_bool(m, "enable_redirect");
    let max_retry_attempts = match lookup_u64(m, "max_retry_attempts") {
        Some(n) => n,
        None => 0,
    };
    let force_json_decode = lookup_bool(m, "force_json_decode") == Some(true);
    let force_yaml_decode = lookup_bool(m, "force_yaml_decode") == Some(true);
    Ok(HttpRequest {
        method,
        url,
        headers,
        body,
        timeout_ns,
        enable_redirect,
        max_retry_attempts,
        force_json_decode,
        force_yaml_decode,
    })
}

} // verus!

verus! {


/// The wait after the failed attempt numbered `attempt` (from 0), in
/// milliseconds: `500 · 2^attempt`.
pub open spec fn backoff_ms(attempt: nat) -> int {
    BASE_DELAY_MS * pow2(attempt)
}

/// The wait after the failed attempt numbered `attempt`, held in 64 bits: the
/// largest such value where the wait does not fit.
pub open spec fn backoff_u64(attempt: nat) -> u64 {
    if backoff_ms(attempt) <= u64::MAX {
        backoff_ms(attempt) as u64
    } else {
        u64::MAX
    }
}

/// What to do once an attempt has failed.
#[derive(Debug, Clone, Copy, PartialEq, Eq, Structural)]
pub enum RetryStep {
    /// Wait this many milliseconds, then try again.
    Wait(u64),
    /// Stop: the last failure is the outcome.
    GiveUp,
}

/// What to do once the attempt numbered `attempt` has failed, with
/// `max_retry_attempts` retries allowed.
pub open spec fn retry_step(attempt: nat, max_retry_attempts: nat) -> RetryStep {
    if attempt < max_retry_attempts {
        RetryStep::Wait(backoff_u64(attempt))
    } else {
        RetryStep::GiveUp
    }
}

/// The wait after the failed attempt numbered `attempt`.
pub fn backoff_delay_ms(attempt: u64) -> (r: u64)
    ensures
        r == backoff_u64(attempt as nat),
{
    let mut d: u64 = BASE_DELAY_MS;
    let mut k: u64 = 0;
    proof {
        vstd::arithmetic::power2::lemma2_to64();
    }
    while k < attempt
        invariant
            k <= attempt,
            d as int == backoff_ms(k as nat),
        decreases attempt - k,
    {
        proof {
            lemma_pow2_unfold((k + 1) as nat);
        }
        if d > u64::MAX / 2 {
            proof {
                assert(backoff_ms((k + 1) as nat) > u64::MAX);
                if (k + 1) < attempt {
                    lemma_pow2_strictly_increases((k + 1) as nat, attempt as nat);
                }
                assert(backoff_ms(attempt as nat) >= backoff_ms((k + 1) as nat)) by (nonlinear_arith)
                    requires
                        pow2(attempt as nat) >= pow2((k + 1) as nat),
                        backoff_ms(attempt as nat) == 500 * pow2(attempt as nat),
                        backoff_ms((k + 1) as nat) == 500 * pow2((k + 1) as nat),
                ;
            }
            return u64::MAX;
        }
        d = d * 2;
        k = k + 1;
    }
    d
}

/// What to do once the attempt numbered `attempt` (from 0) has failed, with
/// `max_retry_attempts` retries allowed.
pub fn after_failure(attempt: u64, max_retry_attempts: u64) -> (r: RetryStep)
    ensures
        r == retry_step(attempt as nat, max_retry_attempts as nat),
{
    if attempt < max_retry_attempts {
        RetryStep::Wait(backoff_delay_ms(attempt))
    } else {
        RetryStep::GiveUp
    }
}

/// How many attempts are made from the attempt numbered `a` on, when every
/// attempt fails.
pub open spec fn attempts_when_failing(a: nat, k: nat) -> nat
    decreases k - a,
{
    if a >= k {
        1
    } else {
        match retry_step(a, k) {
            RetryStep::GiveUp => 1,
            RetryStep::Wait(_) => 1 + attempts_when_failing(a + 1, k),
        }
    }
}

/// The waits made from the attempt numbered `a` on, when every attempt fails.
pub open spec fn waits_when_failing(a: nat, k: nat) -> Seq<u64>
    decreases k - a,
{
    if a >= k {
        Seq::empty()
    } else {
        match retry_step(a, k) {
            RetryStep::GiveUp => Seq::empty(),
            RetryStep::Wait(ms) => seq![ms] + waits_when_failing(a + 1, k),
        }
    }
}

/// Against an endpoint that always fails, `max_retry_attempts = k` makes
/// exactly `k + 1` attempts, and the waits between them are
/// `500 · 2^i` milliseconds for `i` from 0 to `k - 1`.
pub proof fn lemma_retry_count(k: nat)
    ensures
        attempts_when_failing(0, k) == k + 1,
        waits_when_failing(0, k).len() == k,
        forall|i: int| 0 <= i < k ==> #[trigger] waits_when_failing(0, k)[i] == backoff_u64(i as nat),
{
    lemma_retry_from(0, k);
}

proof fn lemma_retry_from(a: nat, k: nat)
    requires
        a <= k,
    ensures
        attempts_when_failing(a, k) == k - a + 1,
        waits_when_failing(a, k).len() == k - a,
        forall|i: int| 0 <= i < k - a ==> #[trigger] waits_when_failing(a, k)[i] == backoff_u64((a + i) as nat),
    decreases k - a,
{
    if a < k {
        lemma_retry_from(a + 1, k);
        let w = waits_when_failing(a, k);
        assert(w == seq![backoff_u64(a)] + waits_when_failing(a + 1, k));
        assert forall|i: int| 0 <= i < k - a implies #[trigger] w[i] == backoff_u64((a + i) as nat) by {
            if i > 0 {
                assert(w[i] == waits_when_failing(a + 1, k)[i - 1]);
                assert((a + 1 + (i - 1)) as nat == (a + i) as nat);
            }
        }
    }
}

/// Whether a failed call is reported as an error (the default) or as a
/// response object.
pub open spec fn raise_error_of(opa_req: JVal) -> bool {
    match opa_req {
        JVal::Object(m) => bool_field(m, "raise_error") != Some(false),
        _ => true,
    }
}

/// Whether a failed call is reported as an error.
pub fn raise_error(opa_req: &Json) -> (r: bool)
    ensures
        r == raise_error_of(opa_req@),
{
    match opa_req {
        Json::Object(m) => lookup_bool(m, "raise_error") != Some(false),
        _ => true,
    }
}

/// What `http.send` returns when the call failed with `message`: the error
/// itself, or, where `raise_error` is false, the object
/// `{"status_code": 0, "error": {"message": message}}`.
pub fn send_failure(raise_error: bool, message: String) -> (r: Result<Json, String>)
    ensures
        raise_error ==> r is Err && r->Err_0@ == message@,
        !raise_error ==> r is Ok && r.unwrap()@ == JVal::Object(seq![
            ("status_code"@, JVal::Int(0)),
            ("error"@, JVal::Object(seq![("message"@, JVal::Str(message@))])),
        ]),
{
    if raise_error {
        return Err(message);
    }
    let mut err: Vec<(String, Json)> = Vec::new();
    let e0 = ("message".to_owned(), Json::Str(message));
    proof {
        assert(jmembers(err@) =~= Seq::<(Seq<char>, JVal)>::empty());
        crate::json::lemma_jmembers_push(err@, e0);
    }
    err.push(e0);
    let mut obj: Vec<(String, Json)> = Vec::new();
    let o0 = ("status_code".to_owned(), Json::Int(0));
    proof {
        assert(jmembers(obj@) =~= Seq::<(Seq<char>, JVal)>::empty());
        crate::json::lemma_jmembers_push(obj@, o0);
    }
    obj.push(o0);
    let o1 = ("error".to_owned(), Json::Object(err));
    proof {
        crate::json::lemma_jmembers_push(obj@, o1);
    }
    obj.push(o1);
    assert(jmembers(obj@) =~= seq![
        ("status_code"@, JVal::Int(0)),
        ("error"@, JVal::Object(seq![("message"@, JVal::Str(message@))])),
    ]);
    Ok(Json::Object(obj))
}

} // verus!

verus! {

/// How the body of a response is to be decoded.
#[derive(Debug, Clone, Copy, PartialEq, Eq, Structural)]
pub enum BodyDecode {
    /// As JSON.
    Json,
    /// As YAML.
    Yaml,
    /// Not at all: only the raw body is handed back.
    Keep,
}

/// The value of the first header named `name`.
pub open spec fn first_header(hs: Seq<(String, String)>, name: Seq<char>) -> Option<Seq<char>>
    decreases hs.len(),
{
    if hs.len() == 0 {
        None
    } else if hs[0].0@ == name {
        Some(hs[0].1@)
    } else {
        first_header(hs.subrange(1, hs.len() as int), name)
    }
}

/// The value of the last pair named `name`.
pub open spec fn last_header(hs: Seq<(String, String)>, name: Seq<char>) -> Option<Seq<char>>
    decreases hs.len(),
{
    if hs.len() == 0 {
        None
    } else if hs.last().0@ == name {
        Some(hs.last().1@)
    } else {
        last_header(hs.drop_last(), name)
    }
}

/// How a body is decoded: as JSON where forced or where the content type is
/// `application/json`, else as YAML where forced or where it is
/// `application/yaml` or `application/x-yaml`.
pub open spec fn decode_choice(content_type: Option<Seq<char>>, force_json: bool, force_yaml: bool) -> BodyDecode {
    if force_json || content_type == Some("application/json"@) {
        BodyDecode::Json
    } else if force_yaml || content_type == Some("application/yaml"@) || content_type == Some(
        "application/x-yaml"@,
    ) {
        BodyDecode::Yaml
    } else {
        BodyDecode::Keep
    }
}

/// How to decode the body of a response with the (lower-case) header names
/// and values `headers`.
pub fn body_decode(headers: &Vec<(String, String)>, force_json_decode: bool, force_yaml_decode: bool) -> (r: BodyDecode)
    ensures
        r == decode_choice(first_header(headers@, "content-type"@), force_json_decode, force_yaml_decode),
{
    let mut ct: Option<&str> = None;
    let mut i: usize = 0;
    assert(headers@.subrange(0, headers@.len() as int) =~= headers@);
    while i < headers.len()
        invariant
            i <= headers.len(),
            ct is None ==> first_header(headers@, "content-type"@) == first_header(headers@.subrange(i as int, headers@.len() as int), "content-type"@),
            ct is Some ==> first_header(headers@, "content-type"@) == Some(ct.unwrap()@),
        decreases headers.len() - i,
    {
        if ct.is_none() {
            proof {
                let rest = headers@.subrange(i as int, headers@.len() as int);
                assert(rest.subrange(1, rest.len() as int) =~= headers@.subrange(i as int + 1, headers@.len() as int));
            }
            if crate::builtins::str_eq(headers[i].0.as_str(), "content-type") {
                ct = Some(headers[i].1.as_str());
            }
        }
        i = i + 1;
    }
    let json = ct.is_some() && crate::builtins::str_eq(ct.unwrap(), "application/json");
    let yaml = ct.is_some() && (crate::builtins::str_eq(ct.unwrap(), "application/yaml")
        || crate::builtins::str_eq(ct.unwrap(), "application/x-yaml"));
    if force_json_decode || json {
        BodyDecode::Json
    } else if force_yaml_decode || yaml {
        BodyDecode::Yaml
    } else {
        BodyDecode::Keep
    }
}

/// Converts an HTTP response to an OPA response object: the status code, the
/// headers (the last value of each name), the raw body and, where it was
/// decoded, the body.
pub fn convert_http_resp_to_opa_resp(status: u16, headers: Vec<(String, String)>, raw_body: String, body: Option<Json>) -> (r: Json)
    ensures
        r@ is Object,
        member(r@->Object_0, "status_code"@) == Some(JVal::Int(status as int)),
        member(r@->Object_0, "raw_body"@) == Some(JVal::Str(raw_body@)),
        member(r@->Object_0, "body"@) == match body {
            Some(b) => Some(b@),
            None => None::<JVal>,
        },
        member(r@->Object_0, "headers"@) matches Some(JVal::Object(h)) && forall|n: Seq<char>| #[trigger] member(h, n) == match last_header(headers@, n) {
            Some(v) => Some(JVal::Str(v)),
            None => None::<JVal>,
        },
{
    let ghost hs = headers@;
    let mut hobj: Vec<(String, Json)> = Vec::new();
    let mut i: usize = 0;
    proof {
        assert(jmembers(hobj@) =~= Seq::<(Seq<char>, JVal)>::empty());
        assert(hs.take(0) =~= Seq::<(String, String)>::empty());
    }
    while i < headers.len()
        invariant
            i <= headers.len(),
            hs == headers@,
            forall|n: Seq<char>| #[trigger] member(jmembers(hobj@), n) == match last_header(hs.take(i as int), n) {
                Some(v) => Some(JVal::Str(v)),
                None => None::<JVal>,
            },
        decreases headers.len() - i,
    {
        let k = headers[i].0.clone();
        let v = headers[i].1.clone();
        put_member(&mut hobj, k, Json::Str(v));
        proof {
            assert(hs.take(i as int + 1).drop_last() =~= hs.take(i as int));
        }
        i = i + 1;
    }
    assert(hs.take(i as int) =~= hs);
    let mut obj: Vec<(String, Json)> = Vec::new();
    proof {
        assert(jmembers(obj@) =~= Seq::<(Seq<char>, JVal)>::empty());
        lemma_no_key(Seq::<(Seq<char>, JVal)>::empty(), "body"@);
    }
    proof {
        reveal_strlit("status_code");
        reveal_strlit("headers");
        reveal_strlit("raw_body");
        reveal_strlit("body");
        assert("body"@ != "status_code"@) by {
            assert("body"@.len() != "status_code"@.len());
        }
        assert("body"@ != "headers"@) by {
            assert("body"@.len() != "headers"@.len());
        }
        assert("body"@ != "raw_body"@) by {
            assert("body"@.len() != "raw_body"@.len());
        }
        assert("status_code"@ != "headers"@) by {
            assert("status_code"@.len() != "headers"@.len());
        }
        assert("status_code"@ != "raw_body"@) by {
            assert("status_code"@.len() != "raw_body"@.len());
        }
        assert("headers"@ != "raw_body"@) by {
            assert("headers"@[0] != "raw_body"@[0]);
        }
    }
    let ghost hv = Json::Object(hobj)@;
    assert(hv == JVal::Object(jmembers(hobj@)));
    assert forall|n: Seq<char>| #[trigger] member(jmembers(hobj@), n) == match last_header(headers@, n) {
        Some(v) => Some(JVal::Str(v)),
        None => None::<JVal>,
    } by {
        assert(member(jmembers(hobj@), n) == match last_header(hs.take(i as int), n) {
            Some(v) => Some(JVal::Str(v)),
            None => None::<JVal>,
        });
    }
    put_member(&mut obj, "status_code".to_owned(), Json::Int(status as i128));
    assert(member(jmembers(obj@), "status_code"@) == Some(JVal::Int(status as int)));
    assert(member(jmembers(obj@), "body"@) is None);
    put_member(&mut obj, "headers".to_owned(), Json::Object(hobj));
    assert(member(jmembers(obj@), "status_code"@) == Some(JVal::Int(status as int)));
    assert(member(jmembers(obj@), "headers"@) == Some(hv));
    assert(member(jmembers(obj@), "body"@) is None);
    put_member(&mut obj, "raw_body".to_owned(), Json::Str(raw_body));
    assert(member(jmembers(obj@), "status_code"@) == Some(JVal::Int(status as int)));
    assert(member(jmembers(obj@), "headers"@) == Some(hv));
    assert(member(jmembers(obj@), "raw_body"@) == Some(JVal::Str(raw_body@)));
    assert(member(jmembers(obj@), "body"@) is None);
    match body {
        Some(b) => {
            put_member(&mut obj, "body".to_owned(), b);
            assert(member(jmembers(obj@), "status_code"@) == Some(JVal::Int(status as int)));
            assert(member(jmembers(obj@), "headers"@) == Some(hv));
            assert(member(jmembers(obj@), "raw_body"@) == Some(JVal::Str(raw_body@)));
        },
        None => {},
    }
    let ghost om = obj@;
    let r = Json::Object(obj);
    assert(r@ == JVal::Object(jmembers(om)));
    r
}

} // verus!

verus! {

/// The `http.send` builtin, whose one argument is the OPA request object.
#[derive(Debug)]
pub struct HttpSendBuiltin;

impl HttpSendBuiltin {
    /// The request object among the arguments of a call.
    pub fn request(&self, args: Vec<Json>) -> (r: Result<Json, crate::error::BuiltinError>)
        ensures
            args@.len() == 1 ==> r is Ok && r.unwrap() == args@[0],
            args@.len() != 1 ==> r == Err::<Json, crate::error::BuiltinError>(crate::error::BuiltinError::InvalidArguments),
    {
        if args.len() != 1 {
            return Err(crate::error::BuiltinError::InvalidArguments);
        }
        let mut args = args;
        Ok(args.remove(0))
    }
}

} // verus!
