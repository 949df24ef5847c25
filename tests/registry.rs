use opa_wasm::builtins::{call, resolve, Builtin};
use opa_wasm::context::{TestContext, TEST_CLOCK_NS};
use opa_wasm::error::BuiltinError;
use opa_wasm::json::Json;

fn s(x: &str) -> Json {
    Json::Str(x.to_string())
}

#[test]
fn resolve_known_and_unknown_names() {
    assert_eq!(resolve("glob.quote_meta"), Ok(Builtin::GlobQuoteMeta));
    assert_eq!(resolve("http.send"), Ok(Builtin::HttpSend));
    assert_eq!(resolve("regex.match"), Ok(Builtin::RegexMatch));
    assert_eq!(resolve("no.such.builtin"), Err(BuiltinError::UnknownBuiltin));
    assert_eq!(Builtin::TimeNowNs.name(), "time.now_ns");
    assert_eq!(Builtin::RegexFindN.arity(), 3);
    assert!(Builtin::Sprintf.runs_on_host());
    assert!(!Builtin::GlobQuoteMeta.runs_on_host());
}

#[test]
fn dispatch_decodes_runs_and_encodes() {
    let mut ctx = TestContext::new();
    assert_eq!(call(Builtin::GlobQuoteMeta, &mut ctx, vec![s("a*")]), Ok(s("a\\*")));
    assert_eq!(call(Builtin::CryptoMd5, &mut ctx, vec![s("")]), Ok(s("d41d8cd98f00b204e9800998ecf8427e")));
    assert_eq!(call(Builtin::UnitsParseBytes, &mut ctx, vec![s("10GB")]), Ok(Json::Int(10_000_000_000)));
    assert_eq!(
        call(Builtin::TimeClock, &mut ctx, vec![Json::Int(0)]),
        Ok(Json::Array(vec![Json::Int(0), Json::Int(0), Json::Int(0)]))
    );
    assert_eq!(
        call(Builtin::TimeDate, &mut ctx, vec![Json::Array(vec![Json::Int(0), s("UTC")])]),
        Ok(Json::Array(vec![Json::Int(1970), Json::Int(1), Json::Int(1)]))
    );
    assert_eq!(call(Builtin::Trace, &mut ctx, vec![s("x")]), Ok(Json::Bool(true)));
    assert_eq!(
        call(Builtin::RegexSplit, &mut ctx, vec![s(","), s("a,b")]),
        Ok(Json::Array(vec![s("a"), s("b")]))
    );
}

#[test]
fn dispatch_errors() {
    let mut ctx = TestContext::new();
    assert_eq!(call(Builtin::GlobQuoteMeta, &mut ctx, vec![]), Err(BuiltinError::InvalidArguments));
    assert_eq!(call(Builtin::GlobQuoteMeta, &mut ctx, vec![Json::Int(1)]), Err(BuiltinError::ArgumentType(0)));
    assert_eq!(call(Builtin::RandIntn, &mut ctx, vec![s("k"), s("x")]), Err(BuiltinError::ArgumentType(1)));
    assert_eq!(call(Builtin::HttpSend, &mut ctx, vec![Json::Null]), Err(BuiltinError::HostOnly));
    assert_eq!(call(Builtin::IoJwtDecode, &mut ctx, vec![s("t")]), Err(BuiltinError::NotImplemented));
}

#[test]
fn dispatch_time_and_rand() {
    let mut ctx = TestContext::new();
    let a = call(Builtin::TimeNowNs, &mut ctx, vec![]);
    let r1 = call(Builtin::RandIntn, &mut ctx, vec![s("k"), Json::Int(50)]);
    let r2 = call(Builtin::RandIntn, &mut ctx, vec![s("k"), Json::Int(50)]);
    let b = call(Builtin::TimeNowNs, &mut ctx, vec![]);
    assert_eq!(a, Ok(Json::Int(TEST_CLOCK_NS as i128)));
    assert_eq!(a, b);
    assert_eq!(r1, r2);
}

#[test]
fn dispatch_object_union() {
    let mut ctx = TestContext::new();
    let a = Json::Object(vec![("a".to_string(), Json::Int(1))]);
    let b = Json::Object(vec![("a".to_string(), Json::Null), ("b".to_string(), Json::Int(2))]);
    let r = call(Builtin::ObjectUnionN, &mut ctx, vec![Json::Array(vec![a, b])]);
    assert_eq!(
        r,
        Ok(Json::Object(vec![("a".to_string(), Json::Int(1)), ("b".to_string(), Json::Int(2))]))
    );
}

#[test]
fn dispatch_urlquery_objects() {
    let mut ctx = TestContext::new();
    let q = Json::Object(vec![
        ("a".to_string(), Json::Array(vec![s("1"), s("2")])),
        ("b".to_string(), s("x y")),
    ]);
    assert_eq!(call(Builtin::UrlqueryEncodeObject, &mut ctx, vec![q]), Ok(s("a=1&a=2&b=x+y")));
    let bad = Json::Object(vec![("a".to_string(), Json::Array(vec![Json::Int(1)]))]);
    assert_eq!(call(Builtin::UrlqueryEncodeObject, &mut ctx, vec![bad]), Err(BuiltinError::ArgumentType(0)));
    assert_eq!(
        call(Builtin::UrlqueryDecodeObject, &mut ctx, vec![s("k=v")]),
        Ok(Json::Object(vec![("k".to_string(), Json::Array(vec![s("v")]))]))
    );
    assert_eq!(call(Builtin::UrlqueryDecode, &mut ctx, vec![s("a+b%26c")]), Ok(s("a b&c")));
}

#[test]
fn dispatch_submatches_and_weekday() {
    let mut ctx = TestContext::new();
    assert_eq!(
        call(Builtin::RegexFindAllStringSubmatchN, &mut ctx, vec![s("(a)"), s("aa"), Json::Int(5)]),
        Ok(Json::Array(vec![Json::Array(vec![s("a"), s("a")]), Json::Array(vec![s("a"), s("a")])]))
    );
    assert_eq!(call(Builtin::TimeWeekday, &mut ctx, vec![Json::Int(0)]), Ok(s("Thursday")));
    assert_eq!(call(Builtin::TimeParseDurationNs, &mut ctx, vec![s("2s")]), Ok(Json::Int(2_000_000_000)));
    assert_eq!(call(Builtin::SemverCompare, &mut ctx, vec![s("1.0.0"), s("2.0.0")]), Ok(Json::Int(-1)));
}
