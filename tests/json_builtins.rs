use opa_wasm::glob::quote_meta;
use opa_wasm::json::Json;
use opa_wasm::object::union_n;

fn s(x: &str) -> Json {
    Json::Str(x.to_string())
}

fn obj(members: Vec<(&str, Json)>) -> Json {
    Json::Object(members.into_iter().map(|(k, v)| (k.to_string(), v)).collect())
}

fn get<'a>(j: &'a Json, k: &str) -> Option<&'a Json> {
    match j {
        Json::Object(m) => m.iter().find(|(n, _)| n == k).map(|(_, v)| v),
        _ => None,
    }
}

#[test]
fn glob_quote_meta_escapes_specials() {
    assert_eq!(quote_meta("*.github.com".to_string()), "\\*.github.com");
    assert_eq!(quote_meta("plain".to_string()), "plain");
    assert_eq!(quote_meta("a?[b]{c}\\".to_string()), "a\\?\\[b\\]\\{c\\}\\\\");
    assert_eq!(quote_meta(String::new()), "");
}

#[test]
fn glob_quote_meta_twice_escapes_twice() {
    let once = quote_meta("a*b".to_string());
    assert_eq!(once, "a\\*b");
    let twice = quote_meta(once);
    assert_eq!(twice, "a\\\\\\*b");
    assert_eq!(quote_meta(quote_meta("x".to_string())), "x");
}

#[test]
fn union_n_merges_left_to_right() {
    let r = union_n(vec![
        obj(vec![("a", Json::Int(1))]),
        obj(vec![("b", Json::Int(2))]),
        obj(vec![("a", Json::Int(3))]),
    ]);
    assert_eq!(get(&r, "a"), Some(&Json::Int(3)));
    assert_eq!(get(&r, "b"), Some(&Json::Int(2)));
    match &r {
        Json::Object(m) => assert_eq!(m.len(), 2),
        _ => panic!("not an object"),
    }
}

#[test]
fn union_n_of_two_objects() {
    let a = obj(vec![
        ("only_a", s("x")),
        ("nested", obj(vec![("x", Json::Int(1))])),
        ("kept", Json::Int(5)),
        ("list", Json::Array(vec![Json::Int(1), Json::Int(2)])),
        ("replaced", s("old")),
    ]);
    let b = obj(vec![
        ("only_b", s("y")),
        ("nested", obj(vec![("y", Json::Int(2))])),
        ("kept", Json::Null),
        ("list", Json::Array(vec![Json::Int(3)])),
        ("replaced", Json::Bool(true)),
    ]);
    let r = union_n(vec![a, b]);
    assert_eq!(get(&r, "only_a"), Some(&s("x")));
    assert_eq!(get(&r, "only_b"), Some(&s("y")));
    assert_eq!(get(&r, "kept"), Some(&Json::Int(5)));
    assert_eq!(get(&r, "list"), Some(&Json::Array(vec![Json::Int(3)])));
    assert_eq!(get(&r, "replaced"), Some(&Json::Bool(true)));
    let nested = get(&r, "nested").unwrap();
    assert_eq!(get(nested, "x"), Some(&Json::Int(1)));
    assert_eq!(get(nested, "y"), Some(&Json::Int(2)));
}

#[test]
fn union_n_of_nothing_is_empty_object() {
    assert_eq!(union_n(Vec::new()), Json::Object(Vec::new()));
}
