use opa_wasm::policy::{EvalError, EvalPlan, Runtime, RuntimeError};
use opa_wasm::builtins::Builtin;
use opa_wasm::types::{AbiVersion, Addr, EntrypointId, UnsupportedAbi, Value};

fn runtime(major: i32, minor: i32) -> Runtime {
    Runtime::new(
        major,
        minor,
        vec![("glob.quote_meta".to_string(), 3)],
        vec![("fixtures".to_string(), 0), ("other/rule".to_string(), 1)],
    )
    .unwrap()
}

#[test]
fn runtime_from_module_reports() {
    let rt = runtime(1, 2);
    assert_eq!(rt.abi_version(), AbiVersion::V1_2);
    assert_eq!(rt.default_entrypoint(), Some("fixtures"));
    assert_eq!(rt.entrypoints(), vec!["fixtures".to_string(), "other/rule".to_string()]);
    assert_eq!(rt.entrypoint_id("other/rule"), Some(EntrypointId(1)));
    assert_eq!(rt.entrypoint_id("missing"), None);
    assert_eq!(rt.builtin(3), Some(Builtin::GlobQuoteMeta));
    assert_eq!(rt.builtin(4), None);
    assert_eq!(rt.required_exports().last(), Some(&"opa_eval"));
    assert_eq!(runtime(1, 1).required_exports().len(), 16);
}

#[test]
fn runtime_rejections() {
    match Runtime::new(2, 0, Vec::new(), Vec::new()) {
        Err(RuntimeError::Abi(u)) => assert_eq!(u, UnsupportedAbi { major: 2, minor: 0 }),
        _ => panic!("expected an ABI error"),
    }
    match Runtime::new(1, 0, vec![("nope".to_string(), 0)], Vec::new()) {
        Err(RuntimeError::UnknownBuiltin(n)) => assert_eq!(n, "nope"),
        _ => panic!("expected an unknown builtin"),
    }
}

#[test]
fn fast_path_plan_grows_memory() {
    let policy = runtime(1, 2).with_data(Value(100), Addr(70_000));
    let plan = policy.plan_evaluation("fixtures", 10, 1).unwrap();
    assert_eq!(
        plan,
        EvalPlan::FastPath {
            grow_pages: 1,
            entrypoint: EntrypointId(0),
            data: Value(100),
            input_addr: 70_000,
            input_len: 10,
            heap_ptr: 70_010,
        }
    );
    let no_grow = policy.plan_evaluation("fixtures", 10, 5).unwrap();
    assert!(matches!(no_grow, EvalPlan::FastPath { grow_pages: 0, .. }));
    assert_eq!(policy.plan_evaluation("missing", 10, 5), Err(EvalError::UnknownEntrypoint));
    assert_eq!(policy.plan_evaluation("fixtures", i32::MAX as usize, 5), Err(EvalError::InputTooLong));
}

#[test]
fn classic_plan_rewinds_heap_each_time() {
    let policy = runtime(1, 1).with_data(Value(8), Addr(4096));
    let first = policy.plan_evaluation("fixtures", 2, 2).unwrap();
    let second = policy.plan_evaluation("other/rule", 50, 2).unwrap();
    assert_eq!(first, EvalPlan::Classic { rewind_to: Addr(4096), entrypoint: EntrypointId(0), data: Value(8) });
    assert_eq!(second, EvalPlan::Classic { rewind_to: Addr(4096), entrypoint: EntrypointId(1), data: Value(8) });
}
