use opa_wasm::context::{DefaultContext, EvaluationContext, TestContext, TEST_CLOCK_NS};
use opa_wasm::error::BuiltinError;
use opa_wasm::json::Json;
use opa_wasm::rand::intn;
use opa_wasm::time::now_ns;
use opa_wasm::uuid::rfc4122;

#[test]
fn rand_intn_is_memoised() {
    let mut ctx = TestContext::new();
    let a = intn(&mut ctx, "key".to_string(), 100).unwrap();
    let b = intn(&mut ctx, "key".to_string(), 100).unwrap();
    assert_eq!(a, b);
    assert!((0..100).contains(&a));
    let mut d = DefaultContext::new();
    let x = intn(&mut d, "k".to_string(), 1_000_000).unwrap();
    let y = intn(&mut d, "k".to_string(), 1_000_000).unwrap();
    assert_eq!(x, y);
}

#[test]
fn rand_intn_edge_cases() {
    let mut ctx = TestContext::new();
    assert_eq!(intn(&mut ctx, "k".to_string(), 0), Ok(0));
    assert_eq!(intn(&mut ctx, "k".to_string(), -3), Err(BuiltinError::NegativeBound));
    assert_eq!(intn(&mut ctx, "k".to_string(), 1), Ok(0));
}

#[test]
fn uuid_is_memoised_and_well_formed() {
    let mut ctx = DefaultContext::new();
    let a = rfc4122(&mut ctx, "id".to_string()).unwrap();
    let b = rfc4122(&mut ctx, "id".to_string()).unwrap();
    assert_eq!(a, b);
    assert_eq!(a.len(), 36);
    let chars: Vec<char> = a.chars().collect();
    assert_eq!(chars[8], '-');
    assert_eq!(chars[13], '-');
    assert_eq!(chars[14], '4');
    assert!("89ab".contains(chars[19]));
    ctx.evaluation_start();
    let c = rfc4122(&mut ctx, "id".to_string()).unwrap();
    assert_eq!(c.len(), 36);
}

#[test]
fn clock_is_frozen_during_evaluation() {
    let mut ctx = TestContext::new();
    ctx.evaluation_start();
    let a = now_ns(&mut ctx);
    let _ = intn(&mut ctx, "x".to_string(), 10);
    let b = now_ns(&mut ctx);
    assert_eq!(a, b);
    assert_eq!(a, TEST_CLOCK_NS);
    assert_eq!(TEST_CLOCK_NS, 1_594_731_202_000_000_000);
}

#[test]
fn evaluation_start_clears_cache() {
    let mut ctx = DefaultContext::new();
    let _ = intn(&mut ctx, "k".to_string(), 10).unwrap();
    ctx.evaluation_start();
    let r = intn(&mut ctx, "k".to_string(), 10).unwrap();
    assert!((0..10).contains(&r));
    assert!(ctx.now_ns() > 0);
}

#[test]
fn opa_runtime_object() {
    let rt = opa_wasm::opa::runtime(vec![
        ("HOME".to_string(), "/root".to_string()),
        ("HOME".to_string(), "/home".to_string()),
    ]);
    assert_eq!(rt.version, "");
    assert_eq!(rt.commit, "");
    match rt.to_json() {
        Json::Object(m) => {
            let env = m.iter().find(|(k, _)| k == "env").map(|(_, v)| v).unwrap();
            assert_eq!(env, &Json::Object(vec![("HOME".to_string(), Json::Str("/home".to_string()))]));
            assert!(m.iter().any(|(k, v)| k == "version" && v == &Json::Str(String::new())));
        }
        _ => panic!("not an object"),
    }
}
