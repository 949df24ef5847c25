use opa_wasm::base64url::encode_no_pad;
use opa_wasm::crypto::{digest, hmac};
use opa_wasm::error::BuiltinError;
use opa_wasm::json::Json;
use opa_wasm::urlquery::{decode, decode_object, encode, encode_object, OneOrMany};
use opa_wasm::semver::compare;
use opa_wasm::regex::{find_all_string_submatch_n, find_n, regex_match, replace, split, template_match};

#[test]
fn urlquery_round_trip() {
    let e = encode("a b&c".to_string());
    assert_eq!(e, "a+b%26c");
    assert_eq!(decode(e), Ok("a b&c".to_string()));
    assert_eq!(decode("x%20y".to_string()), Ok("x y".to_string()));
    assert_eq!(decode("%FF".to_string()), Err(BuiltinError::Parse));
    assert_eq!(encode(String::new()), "");
}

#[test]
fn urlquery_objects() {
    let o = decode_object("a=1&b=2&a=3".to_string());
    let a = Json::Array(vec![Json::Str("1".to_string()), Json::Str("3".to_string())]);
    let b = Json::Array(vec![Json::Str("2".to_string())]);
    assert_eq!(o, Json::Object(vec![("a".to_string(), a), ("b".to_string(), b)]));
    let q = encode_object(vec![
        ("a".to_string(), OneOrMany::Many(vec!["1".to_string(), "2".to_string()])),
        ("b c".to_string(), OneOrMany::One("x&y".to_string())),
    ]);
    assert_eq!(q, "a=1&a=2&b+c=x%26y");
}

#[test]
fn semver_builtins() {
    assert_eq!(compare("1.0.0".to_string(), "1.0.1".to_string()), Ok(-1));
    assert_eq!(compare("2.0.0".to_string(), "2.0.0".to_string()), Ok(0));
    assert_eq!(compare("2.1.0".to_string(), "2.0.9".to_string()), Ok(1));
    assert_eq!(compare("1.0".to_string(), "1.0.0".to_string()), Err(BuiltinError::Parse));
    assert!(opa_wasm::semver::is_valid("1.2.3-rc.1".to_string()));
    assert!(!opa_wasm::semver::is_valid("1.2".to_string()));
}

#[test]
fn regex_builtins() {
    let words = "[a-z]+".to_string();
    assert_eq!(find_n(words.clone(), "ab cd ef".to_string(), 2), Ok(vec!["ab".to_string(), "cd".to_string()]));
    assert_eq!(find_n(words.clone(), "ab cd ef".to_string(), -1).unwrap().len(), 3);
    assert_eq!(find_n("(".to_string(), "x".to_string(), 1), Err(BuiltinError::Parse));
    assert_eq!(split(",".to_string(), "a,b,,c".to_string()), Ok(vec!["a".to_string(), "b".to_string(), String::new(), "c".to_string()]));
    assert_eq!(replace("aXbXc".to_string(), "X".to_string(), "-".to_string()), Ok("a-b-c".to_string()));
    assert_eq!(regex_match("^a+$".to_string(), "aaa".to_string()), Ok(true));
    assert_eq!(regex_match("^a+$".to_string(), "aba".to_string()), Ok(false));
    assert!(opa_wasm::regex::is_valid("a.*b".to_string()));
    assert!(!opa_wasm::regex::is_valid("(".to_string()));
    let rows = find_all_string_submatch_n("(a)(b)?".to_string(), "ab a".to_string(), 10).unwrap();
    assert_eq!(rows, vec![
        vec!["ab".to_string(), "a".to_string(), "b".to_string()],
        vec!["a".to_string(), "a".to_string()],
    ]);
    assert_eq!(find_all_string_submatch_n("(a)".to_string(), "aaa".to_string(), 1).unwrap().len(), 1);
    assert_eq!(template_match("urn:foo:{.*}".to_string(), "urn:foo:bar:baz".to_string(), "{".to_string(), "}".to_string()), Ok(true));
    assert_eq!(template_match("x".to_string(), "x".to_string(), String::new(), "}".to_string()), Err(BuiltinError::Delimiters));
}

#[test]
fn digests_in_hex() {
    assert_eq!(digest::md5(String::new()), "d41d8cd98f00b204e9800998ecf8427e");
    assert_eq!(digest::sha1("abc".to_string()), "a9993e364706816aba3e25717850c26c9cd0d89d");
    assert_eq!(digest::sha256("abc".to_string()), "ba7816bf8f01cfea414140de5dae2223b00361a396177a9cb410ff61f20015ad");
}

#[test]
fn hmacs_in_hex() {
    let msg = || "The quick brown fox jumps over the lazy dog".to_string();
    let key = || "key".to_string();
    assert_eq!(hmac::md5(msg(), key()), Ok("80070713463e7749b90c2dc24911e275".to_string()));
    assert_eq!(hmac::sha1(msg(), key()), Ok("de7c9b85b8b78aa6bc8a7a36f70a90701c9db4d9".to_string()));
    assert_eq!(hmac::sha256(msg(), key()), Ok("f7bc83f430538424b13298e6aa6fb143ef4d59a14946175997479dbc2d1a3cd8".to_string()));
    assert_eq!(
        hmac::sha512(msg(), key()),
        Ok("b42af09057bac1e2d41708e48a902e09b5ff7f12ab428a4fe86653c73dd248fb82f948a549f7b791a5b41915ee4d1ec3935357e4e2317250d0372afa2ebeeb3a".to_string())
    );
}

#[test]
fn base64url_and_hex() {
    assert_eq!(encode_no_pad("hello?>".to_string()), "aGVsbG8_Pg");
    assert_eq!(encode_no_pad(String::new()), "");
    assert_eq!(opa_wasm::hex::encode("hi".to_string()), "6869");
    assert_eq!(opa_wasm::hex::decode("6869".to_string()), Ok("hi".to_string()));
    assert_eq!(opa_wasm::hex::decode("zz".to_string()), Err(BuiltinError::Parse));
    assert_eq!(opa_wasm::hex::decode("ff".to_string()), Err(BuiltinError::Parse));
}

#[test]
fn yaml_validity() {
    assert!(opa_wasm::yaml::is_valid("a: 1\nb: [x, y]\n".to_string()));
    assert!(!opa_wasm::yaml::is_valid("a: [".to_string()));
}

#[test]
fn declared_builtins_without_implementation() {
    assert_eq!(opa_wasm::misc::trace("note".to_string()), Ok(true));
    assert_eq!(opa_wasm::misc::indexof_n("abc".to_string(), "b".to_string()), Err(BuiltinError::NotImplemented));
    assert_eq!(opa_wasm::io::jwt::verify_hs256("t".to_string(), "s".to_string()), Err(BuiltinError::NotImplemented));
    assert_eq!(opa_wasm::io::jwt::encode_sign_raw("a".to_string(), "b".to_string(), "c".to_string()), Err(BuiltinError::NotImplemented));
    assert!(opa_wasm::net::cidr_expand("10.0.0.0/30".to_string()).is_err());
    assert_eq!(opa_wasm::graphql::is_valid("q".to_string(), "s".to_string()), Err(BuiltinError::NotImplemented));
    assert!(opa_wasm::crypto::x509::parse_certificates("x".to_string()).is_err());
}

#[test]
fn submatches_drop_absent_groups() {
    let rows = find_all_string_submatch_n("(x)|(y)".to_string(), "xy".to_string(), 5).unwrap();
    assert_eq!(rows, vec![
        vec!["x".to_string(), "x".to_string()],
        vec!["y".to_string(), "y".to_string()],
    ]);
    assert_eq!(hmac::md5(String::new(), String::new()).unwrap().len(), 32);
    assert_eq!(compare("1.0.1".to_string(), "1.0.0".to_string()), Ok(1));
}
