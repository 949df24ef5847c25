//! The registry of builtins: the names that a policy may import, and the
//! dispatch that decodes a call's JSON arguments, runs the builtin and encodes
//! its result.

use vstd::prelude::*;
use crate::context::{EvaluationContext, KeyV};
use crate::error::BuiltinError;
use crate::json::{Json, JVal, jval, jvals};
use crate::text::chars_of;

verus! {

broadcast use vstd::std_specs::vec::group_vec_axioms, vstd::seq::group_seq_axioms;

/// A builtin that the host provides to policies.
#[derive(Debug, Clone, Copy, PartialEq, Eq, Structural)]
pub enum Builtin {
    /// `base64url.encode_no_pad`
    Base64UrlEncodeNoPad,
    /// `crypto.hmac.md5`
    CryptoHmacMd5,
    /// `crypto.hmac.sha1`
    CryptoHmacSha1,
    /// `crypto.hmac.sha256`
    CryptoHmacSha256,
    /// `crypto.hmac.sha512`
    CryptoHmacSha512,
    /// `crypto.md5`
    CryptoMd5,
    /// `crypto.sha1`
    CryptoSha1,
    /// `crypto.sha256`
    CryptoSha256,
    /// `crypto.x509.parse_and_verify_certificates`
    CryptoX509ParseAndVerifyCertificates,
    /// `crypto.x509.parse_certificate_request`
    CryptoX509ParseCertificateRequest,
    /// `crypto.x509.parse_certificates`
    CryptoX509ParseCertificates,
    /// `crypto.x509.parse_rsa_private_key`
    CryptoX509ParseRsaPrivateKey,
    /// `glob.quote_meta`
    GlobQuoteMeta,
    /// `graph.reachable_paths`
    GraphReachablePaths,
    /// `graphql.is_valid`
    GraphqlIsValid,
    /// `graphql.parse`
    GraphqlParse,
    /// `graphql.parse_and_verify`
    GraphqlParseAndVerify,
    /// `graphql.parse_query`
    GraphqlParseQuery,
    /// `graphql.parse_schema`
    GraphqlParseSchema,
    /// `hex.decode`
    HexDecode,
    /// `hex.encode`
    HexEncode,
    /// `http.send`
    HttpSend,
    /// `indexof_n`
    IndexofN,
    /// `io.jwt.decode`
    IoJwtDecode,
    /// `io.jwt.decode_verify`
    IoJwtDecodeVerify,
    /// `io.jwt.encode_sign`
    IoJwtEncodeSign,
    /// `io.jwt.encode_sign_raw`
    IoJwtEncodeSignRaw,
    /// `io.jwt.verify_es256`
    IoJwtVerifyEs256,
    /// `io.jwt.verify_es384`
    IoJwtVerifyEs384,
    /// `io.jwt.verify_es512`
    IoJwtVerifyEs512,
    /// `io.jwt.verify_hs256`
    IoJwtVerifyHs256,
    /// `io.jwt.verify_hs384`
    IoJwtVerifyHs384,
    /// `io.jwt.verify_hs512`
    IoJwtVerifyHs512,
    /// `io.jwt.verify_ps256`
    IoJwtVerifyPs256,
    /// `io.jwt.verify_ps384`
    IoJwtVerifyPs384,
    /// `io.jwt.verify_ps512`
    IoJwtVerifyPs512,
    /// `io.jwt.verify_rs256`
    IoJwtVerifyRs256,
    /// `io.jwt.verify_rs384`
    IoJwtVerifyRs384,
    /// `io.jwt.verify_rs512`
    IoJwtVerifyRs512,
    /// `json.patch`
    JsonPatch,
    /// `net.cidr_contains_matches`
    NetCidrContainsMatches,
    /// `net.cidr_expand`
    NetCidrExpand,
    /// `net.cidr_merge`
    NetCidrMerge,
    /// `net.lookup_ip_addr`
    NetLookupIpAddr,
    /// `object.union_n`
    ObjectUnionN,
    /// `opa.runtime`
    OpaRuntime,
    /// `rand.intn`
    RandIntn,
    /// `regex.find_n`
    RegexFindN,
    /// `regex.globs_match`
    RegexGlobsMatch,
    /// `regex.split`
    RegexSplit,
    /// `regex.template_match`
    RegexTemplateMatch,
    /// `regex.replace`
    RegexReplace,
    /// `regex.match`
    RegexMatch,
    /// `regex.is_valid`
    RegexIsValid,
    /// `regex.find_all_string_submatch_n`
    RegexFindAllStringSubmatchN,
    /// `rego.parse_module`
    RegoParseModule,
    /// `semver.compare`
    SemverCompare,
    /// `semver.is_valid`
    SemverIsValid,
    /// `sprintf`
    Sprintf,
    /// `time.add_date`
    TimeAddDate,
    /// `time.clock`
    TimeClock,
    /// `time.date`
    TimeDate,
    /// `time.diff`
    TimeDiff,
    /// `time.now_ns`
    TimeNowNs,
    /// `time.parse_duration_ns`
    TimeParseDurationNs,
    /// `time.parse_ns`
    TimeParseNs,
    /// `time.parse_rfc3339_ns`
    TimeParseRfc3339Ns,
    /// `time.weekday`
    TimeWeekday,
    /// `trace`
    Trace,
    /// `units.parse`
    UnitsParse,
    /// `units.parse_bytes`
    UnitsParseBytes,
    /// `urlquery.decode`
    UrlqueryDecode,
    /// `urlquery.decode_object`
    UrlqueryDecodeObject,
    /// `urlquery.encode`
    UrlqueryEncode,
    /// `urlquery.encode_object`
    UrlqueryEncodeObject,
    /// `uuid.rfc4122`
    UuidRfc4122,
    /// `yaml.is_valid`
    YamlIsValid,
    /// `yaml.marshal`
    YamlMarshal,
    /// `yaml.unmarshal`
    YamlUnmarshal,
}

/// The name under which a policy imports the builtin.
pub open spec fn builtin_name(b: Builtin) -> Seq<char> {
    match b {
        Builtin::Base64UrlEncodeNoPad => "base64url.encode_no_pad"@,
        Builtin::CryptoHmacMd5 => "crypto.hmac.md5"@,
        Builtin::CryptoHmacSha1 => "crypto.hmac.sha1"@,
        Builtin::CryptoHmacSha256 => "crypto.hmac.sha256"@,
        Builtin::CryptoHmacSha512 => "crypto.hmac.sha512"@,
        Builtin::CryptoMd5 => "crypto.md5"@,
        Builtin::CryptoSha1 => "crypto.sha1"@,
        Builtin::CryptoSha256 => "crypto.sha256"@,
        Builtin::CryptoX509ParseAndVerifyCertificates => "crypto.x509.parse_and_verify_certificates"@,
        Builtin::CryptoX509ParseCertificateRequest => "crypto.x509.parse_certificate_request"@,
        Builtin::CryptoX509ParseCertificates => "crypto.x509.parse_certificates"@,
        Builtin::CryptoX509ParseRsaPrivateKey => "crypto.x509.parse_rsa_private_key"@,
        Builtin::GlobQuoteMeta => "glob.quote_meta"@,
        Builtin::GraphReachablePaths => "graph.reachable_paths"@,
        Builtin::GraphqlIsValid => "graphql.is_valid"@,
        Builtin::GraphqlParse => "graphql.parse"@,
        Builtin::GraphqlParseAndVerify => "graphql.parse_and_verify"@,
        Builtin::GraphqlParseQuery => "graphql.parse_query"@,
        Builtin::GraphqlParseSchema => "graphql.parse_schema"@,
        Builtin::HexDecode => "hex.decode"@,
        Builtin::HexEncode => "hex.encode"@,
        Builtin::HttpSend => "http.send"@,
        Builtin::IndexofN => "indexof_n"@,
        Builtin::IoJwtDecode => "io.jwt.decode"@,
        Builtin::IoJwtDecodeVerify => "io.jwt.decode_verify"@,
        Builtin::IoJwtEncodeSign => "io.jwt.encode_sign"@,
        Builtin::IoJwtEncodeSignRaw => "io.jwt.encode_sign_raw"@,
        Builtin::IoJwtVerifyEs256 => "io.jwt.verify_es256"@,
        Builtin::IoJwtVerifyEs384 => "io.jwt.verify_es384"@,
        Builtin::IoJwtVerifyEs512 => "io.jwt.verify_es512"@,
        Builtin::IoJwtVerifyHs256 => "io.jwt.verify_hs256"@,
        Builtin::IoJwtVerifyHs384 => "io.jwt.verify_hs384"@,
        Builtin::IoJwtVerifyHs512 => "io.jwt.verify_hs512"@,
        Builtin::IoJwtVerifyPs256 => "io.jwt.verify_ps256"@,
        Builtin::IoJwtVerifyPs384 => "io.jwt.verify_ps384"@,
        Builtin::IoJwtVerifyPs512 => "io.jwt.verify_ps512"@,
        Builtin::IoJwtVerifyRs256 => "io.jwt.verify_rs256"@,
        Builtin::IoJwtVerifyRs384 => "io.jwt.verify_rs384"@,
        Builtin::IoJwtVerifyRs512 => "io.jwt.verify_rs512"@,
        Builtin::JsonPatch => "json.patch"@,
        Builtin::NetCidrContainsMatches => "net.cidr_contains_matches"@,
        Builtin::NetCidrExpand => "net.cidr_expand"@,
        Builtin::NetCidrMerge => "net.cidr_merge"@,
        Builtin::NetLookupIpAddr => "net.lookup_ip_addr"@,
        Builtin::ObjectUnionN => "object.union_n"@,
        Builtin::OpaRuntime => "opa.runtime"@,
        Builtin::RandIntn => "rand.intn"@,
        Builtin::RegexFindN => "regex.find_n"@,
        Builtin::RegexGlobsMatch => "regex.globs_match"@,
        Builtin::RegexSplit => "regex.split"@,
        Builtin::RegexTemplateMatch => "regex.template_match"@,
        Builtin::RegexReplace => "regex.replace"@,
        Builtin::RegexMatch => "regex.match"@,
        Builtin::RegexIsValid => "regex.is_valid"@,
        Builtin::RegexFindAllStringSubmatchN => "regex.find_all_string_submatch_n"@,
        Builtin::RegoParseModule => "rego.parse_module"@,
        Builtin::SemverCompare => "semver.compare"@,
        Builtin::SemverIsValid => "semver.is_valid"@,
        Builtin::Sprintf => "sprintf"@,
        Builtin::TimeAddDate => "time.add_date"@,
        Builtin::TimeClock => "time.clock"@,
        Builtin::TimeDate => "time.date"@,
        Builtin::TimeDiff => "time.diff"@,
        Builtin::TimeNowNs => "time.now_ns"@,
        Builtin::TimeParseDurationNs => "time.parse_duration_ns"@,
        Builtin::TimeParseNs => "time.parse_ns"@,
        Builtin::TimeParseRfc3339Ns => "time.parse_rfc3339_ns"@,
        Builtin::TimeWeekday => "time.weekday"@,
        Builtin::Trace => "trace"@,
        Builtin::UnitsParse => "units.parse"@,
        Builtin::UnitsParseBytes => "units.parse_bytes"@,
        Builtin::UrlqueryDecode => "urlquery.decode"@,
        Builtin::UrlqueryDecodeObject => "urlquery.decode_object"@,
        Builtin::UrlqueryEncode => "urlquery.encode"@,
        Builtin::UrlqueryEncodeObject => "urlquery.encode_object"@,
        Builtin::UuidRfc4122 => "uuid.rfc4122"@,
        Builtin::YamlIsValid => "yaml.is_valid"@,
        Builtin::YamlMarshal => "yaml.marshal"@,
        Builtin::YamlUnmarshal => "yaml.unmarshal"@,
    }
}

/// The number of arguments the builtin takes.
pub open spec fn arity(b: Builtin) -> nat {
    match b {
        Builtin::Base64UrlEncodeNoPad => 1,
        Builtin::CryptoHmacMd5 => 2,
        Builtin::CryptoHmacSha1 => 2,
        Builtin::CryptoHmacSha256 => 2,
        Builtin::CryptoHmacSha512 => 2,
        Builtin::CryptoMd5 => 1,
        Builtin::CryptoSha1 => 1,
        Builtin::CryptoSha256 => 1,
        Builtin::CryptoX509ParseAndVerifyCertificates => 1,
        Builtin::CryptoX509ParseCertificateRequest => 1,
        Builtin::CryptoX509ParseCertificates => 1,
        Builtin::CryptoX509ParseRsaPrivateKey => 1,
        Builtin::GlobQuoteMeta => 1,
        Builtin::GraphReachablePaths => 2,
        Builtin::GraphqlIsValid => 2,
        Builtin::GraphqlParse => 2,
        Builtin::GraphqlParseAndVerify => 2,
        Builtin::GraphqlParseQuery => 1,
        Builtin::GraphqlParseSchema => 1,
        Builtin::HexDecode => 1,
        Builtin::HexEncode => 1,
        Builtin::HttpSend => 1,
        Builtin::IndexofN => 2,
        Builtin::IoJwtDecode => 1,
        Builtin::IoJwtDecodeVerify => 2,
        Builtin::IoJwtEncodeSign => 3,
        Builtin::IoJwtEncodeSignRaw => 3,
        Builtin::IoJwtVerifyEs256 => 2,
        Builtin::IoJwtVerifyEs384 => 2,
        Builtin::IoJwtVerifyEs512 => 2,
        Builtin::IoJwtVerifyHs256 => 2,
        Builtin::IoJwtVerifyHs384 => 2,
        Builtin::IoJwtVerifyHs512 => 2,
        Builtin::IoJwtVerifyPs256 => 2,
        Builtin::IoJwtVerifyPs384 => 2,
        Builtin::IoJwtVerifyPs512 => 2,
        Builtin::IoJwtVerifyRs256 => 2,
        Builtin::IoJwtVerifyRs384 => 2,
        Builtin::IoJwtVerifyRs512 => 2,
        Builtin::JsonPatch => 2,
        Builtin::NetCidrContainsMatches => 2,
        Builtin::NetCidrExpand => 1,
        Builtin::NetCidrMerge => 1,
        Builtin::NetLookupIpAddr => 1,
        Builtin::ObjectUnionN => 1,
        Builtin::OpaRuntime => 0,
        Builtin::RandIntn => 2,
        Builtin::RegexFindN => 3,
        Builtin::RegexGlobsMatch => 2,
        Builtin::RegexSplit => 2,
        Builtin::RegexTemplateMatch => 4,
        Builtin::RegexReplace => 3,
        Builtin::RegexMatch => 2,
        Builtin::RegexIsValid => 1,
        Builtin::RegexFindAllStringSubmatchN => 3,
        Builtin::RegoParseModule => 2,
        Builtin::SemverCompare => 2,
        Builtin::SemverIsValid => 1,
        Builtin::Sprintf => 2,
        Builtin::TimeAddDate => 4,
        Builtin::TimeClock => 1,
        Builtin::TimeDate => 1,
        Builtin::TimeDiff => 2,
        Builtin::TimeNowNs => 0,
        Builtin::TimeParseDurationNs => 1,
        Builtin::TimeParseNs => 2,
        Builtin::TimeParseRfc3339Ns => 1,
        Builtin::TimeWeekday => 1,
        Builtin::Trace => 1,
        Builtin::UnitsParse => 1,
        Builtin::UnitsParseBytes => 1,
        Builtin::UrlqueryDecode => 1,
        Builtin::UrlqueryDecodeObject => 1,
        Builtin::UrlqueryEncode => 1,
        Builtin::UrlqueryEncodeObject => 1,
        Builtin::UuidRfc4122 => 1,
        Builtin::YamlIsValid => 1,
        Builtin::YamlMarshal => 1,
        Builtin::YamlUnmarshal => 1,
    }
}

/// The builtin needs what only the host side has: the network, the
/// process environment, floating point, or a serialiser of its own.
pub open spec fn runs_on_host(b: Builtin) -> bool {
    b == Builtin::HttpSend || b == Builtin::JsonPatch || b == Builtin::OpaRuntime || b == Builtin::Sprintf || b == Builtin::UnitsParse || b == Builtin::YamlMarshal || b == Builtin::YamlUnmarshal
}

/// The builtin is declared and has no implementation.
pub open spec fn is_stub(b: Builtin) -> bool {
    b == Builtin::CryptoX509ParseAndVerifyCertificates || b == Builtin::CryptoX509ParseCertificateRequest || b == Builtin::CryptoX509ParseCertificates || b == Builtin::CryptoX509ParseRsaPrivateKey || b == Builtin::GraphReachablePaths || b == Builtin::GraphqlIsValid || b == Builtin::GraphqlParse || b == Builtin::GraphqlParseAndVerify || b == Builtin::GraphqlParseQuery || b == Builtin::GraphqlParseSchema || b == Builtin::IndexofN || b == Builtin::IoJwtDecode || b == Builtin::IoJwtDecodeVerify || b == Builtin::IoJwtEncodeSign || b == Builtin::IoJwtEncodeSignRaw || b == Builtin::IoJwtVerifyEs256 || b == Builtin::IoJwtVerifyEs384 || b == Builtin::IoJwtVerifyEs512 || b == Builtin::IoJwtVerifyHs256 || b == Builtin::IoJwtVerifyHs384 || b == Builtin::IoJwtVerifyHs512 || b == Builtin::IoJwtVerifyPs256 || b == Builtin::IoJwtVerifyPs384 || b == Builtin::IoJwtVerifyPs512 || b == Builtin::IoJwtVerifyRs256 || b == Builtin::IoJwtVerifyRs384 || b == Builtin::IoJwtVerifyRs512 || b == Builtin::NetCidrContainsMatches || b == Builtin::NetCidrExpand || b == Builtin::NetCidrMerge || b == Builtin::NetLookupIpAddr || b == Builtin::RegoParseModule || b == Builtin::TimeDiff || b == Builtin::TimeParseNs
}

/// Whether two strings hold the same characters.
pub fn str_eq(a: &str, b: &str) -> (r: bool)
    ensures
        r == (a@ == b@),
{
    let x = chars_of(a);
    let y = chars_of(b);
    if x.len() != y.len() {
        return false;
    }
    let mut i: usize = 0;
    while i < x.len()
        invariant
            x@ == a@,
            y@ == b@,
            x.len() == y.len(),
            i <= x.len(),
            forall|j: int| 0 <= j < i ==> x@[j] == y@[j],
        decreases x.len() - i,
    {
        if x[i] != y[i] {
            return false;
        }
        i = i + 1;
    }
    assert(x@ =~= y@);
    true
}

impl Builtin {
    /// The name under which a policy imports the builtin.
    pub fn name(self) -> (r: &'static str)
        ensures
            r@ == builtin_name(self),
    {
        match self {
            Builtin::Base64UrlEncodeNoPad => "base64url.encode_no_pad",
            Builtin::CryptoHmacMd5 => "crypto.hmac.md5",
            Builtin::CryptoHmacSha1 => "crypto.hmac.sha1",
            Builtin::CryptoHmacSha256 => "crypto.hmac.sha256",
            Builtin::CryptoHmacSha512 => "crypto.hmac.sha512",
            Builtin::CryptoMd5 => "crypto.md5",
            Builtin::CryptoSha1 => "crypto.sha1",
            Builtin::CryptoSha256 => "crypto.sha256",
            Builtin::CryptoX509ParseAndVerifyCertificates => "crypto.x509.parse_and_verify_certificates",
            Builtin::CryptoX509ParseCertificateRequest => "crypto.x509.parse_certificate_request",
            Builtin::CryptoX509ParseCertificates => "crypto.x509.parse_certificates",
            Builtin::CryptoX509ParseRsaPrivateKey => "crypto.x509.parse_rsa_private_key",
            Builtin::GlobQuoteMeta => "glob.quote_meta",
            Builtin::GraphReachablePaths => "graph.reachable_paths",
            Builtin::GraphqlIsValid => "graphql.is_valid",
            Builtin::GraphqlParse => "graphql.parse",
            Builtin::GraphqlParseAndVerify => "graphql.parse_and_verify",
            Builtin::GraphqlParseQuery => "graphql.parse_query",
            Builtin::GraphqlParseSchema => "graphql.parse_schema",
            Builtin::HexDecode => "hex.decode",
            Builtin::HexEncode => "hex.encode",
            Builtin::HttpSend => "http.send",
            Builtin::IndexofN => "indexof_n",
            Builtin::IoJwtDecode => "io.jwt.decode",
            Builtin::IoJwtDecodeVerify => "io.jwt.decode_verify",
            Builtin::IoJwtEncodeSign => "io.jwt.encode_sign",
            Builtin::IoJwtEncodeSignRaw => "io.jwt.encode_sign_raw",
            Builtin::IoJwtVerifyEs256 => "io.jwt.verify_es256",
            Builtin::IoJwtVerifyEs384 => "io.jwt.verify_es384",
            Builtin::IoJwtVerifyEs512 => "io.jwt.verify_es512",
            Builtin::IoJwtVerifyHs256 => "io.jwt.verify_hs256",
            Builtin::IoJwtVerifyHs384 => "io.jwt.verify_hs384",
            Builtin::IoJwtVerifyHs512 => "io.jwt.verify_hs512",
            Builtin::IoJwtVerifyPs256 => "io.jwt.verify_ps256",
            Builtin::IoJwtVerifyPs384 => "io.jwt.verify_ps384",
            Builtin::IoJwtVerifyPs512 => "io.jwt.verify_ps512",
            Builtin::IoJwtVerifyRs256 => "io.jwt.verify_rs256",
            Builtin::IoJwtVerifyRs384 => "io.jwt.verify_rs384",
            Builtin::IoJwtVerifyRs512 => "io.jwt.verify_rs512",
            Builtin::JsonPatch => "json.patch",
            Builtin::NetCidrContainsMatches => "net.cidr_contains_matches",
            Builtin::NetCidrExpand => "net.cidr_expand",
            Builtin::NetCidrMerge => "net.cidr_merge",
            Builtin::NetLookupIpAddr => "net.lookup_ip_addr",
            Builtin::ObjectUnionN => "object.union_n",
            Builtin::OpaRuntime => "opa.runtime",
            Builtin::RandIntn => "rand.intn",
            Builtin::RegexFindN => "regex.find_n",
            Builtin::RegexGlobsMatch => "regex.globs_match",
            Builtin::RegexSplit => "regex.split",
            Builtin::RegexTemplateMatch => "regex.template_match",
            Builtin::RegexReplace => "regex.replace",
            Builtin::RegexMatch => "regex.match",
            Builtin::RegexIsValid => "regex.is_valid",
            Builtin::RegexFindAllStringSubmatchN => "regex.find_all_string_submatch_n",
            Builtin::RegoParseModule => "rego.parse_module",
            Builtin::SemverCompare => "semver.compare",
            Builtin::SemverIsValid => "semver.is_valid",
            Builtin::Sprintf => "sprintf",
            Builtin::TimeAddDate => "time.add_date",
            Builtin::TimeClock => "time.clock",
            Builtin::TimeDate => "time.date",
            Builtin::TimeDiff => "time.diff",
            Builtin::TimeNowNs => "time.now_ns",
            Builtin::TimeParseDurationNs => "time.parse_duration_ns",
            Builtin::TimeParseNs => "time.parse_ns",
            Builtin::TimeParseRfc3339Ns => "time.parse_rfc3339_ns",
            Builtin::TimeWeekday => "time.weekday",
            Builtin::Trace => "trace",
            Builtin::UnitsParse => "units.parse",
            Builtin::UnitsParseBytes => "units.parse_bytes",
            Builtin::UrlqueryDecode => "urlquery.decode",
            Builtin::UrlqueryDecodeObject => "urlquery.decode_object",
            Builtin::UrlqueryEncode => "urlquery.encode",
            Builtin::UrlqueryEncodeObject => "urlquery.encode_object",
            Builtin::UuidRfc4122 => "uuid.rfc4122",
            Builtin::YamlIsValid => "yaml.is_valid",
            Builtin::YamlMarshal => "yaml.marshal",
            Builtin::YamlUnmarshal => "yaml.unmarshal",
        }
    }

    /// The number of arguments the builtin takes.
    pub fn arity(self) -> (r: usize)
        ensures
            r == arity(self),
    {
        match self {
            Builtin::Base64UrlEncodeNoPad => 1,
            Builtin::CryptoHmacMd5 => 2,
            Builtin::CryptoHmacSha1 => 2,
            Builtin::CryptoHmacSha256 => 2,
            Builtin::CryptoHmacSha512 => 2,
            Builtin::CryptoMd5 => 1,
            Builtin::CryptoSha1 => 1,
            Builtin::CryptoSha256 => 1,
            Builtin::CryptoX509ParseAndVerifyCertificates => 1,
            Builtin::CryptoX509ParseCertificateRequest => 1,
            Builtin::CryptoX509ParseCertificates => 1,
            Builtin::CryptoX509ParseRsaPrivateKey => 1,
            Builtin::GlobQuoteMeta => 1,
            Builtin::GraphReachablePaths => 2,
            Builtin::GraphqlIsValid => 2,
            Builtin::GraphqlParse => 2,
            Builtin::GraphqlParseAndVerify => 2,
            Builtin::GraphqlParseQuery => 1,
            Builtin::GraphqlParseSchema => 1,
            Builtin::HexDecode => 1,
            Builtin::HexEncode => 1,
            Builtin::HttpSend => 1,
            Builtin::IndexofN => 2,
            Builtin::IoJwtDecode => 1,
            Builtin::IoJwtDecodeVerify => 2,
            Builtin::IoJwtEncodeSign => 3,
            Builtin::IoJwtEncodeSignRaw => 3,
            Builtin::IoJwtVerifyEs256 => 2,
            Builtin::IoJwtVerifyEs384 => 2,
            Builtin::IoJwtVerifyEs512 => 2,
            Builtin::IoJwtVerifyHs256 => 2,
            Builtin::IoJwtVerifyHs384 => 2,
            Builtin::IoJwtVerifyHs512 => 2,
            Builtin::IoJwtVerifyPs256 => 2,
            Builtin::IoJwtVerifyPs384 => 2,
            Builtin::IoJwtVerifyPs512 => 2,
            Builtin::IoJwtVerifyRs256 => 2,
            Builtin::IoJwtVerifyRs384 => 2,
            Builtin::IoJwtVerifyRs512 => 2,
            Builtin::JsonPatch => 2,
            Builtin::NetCidrContainsMatches => 2,
            Builtin::NetCidrExpand => 1,
            Builtin::NetCidrMerge => 1,
            Builtin::NetLookupIpAddr => 1,
            Builtin::ObjectUnionN => 1,
            Builtin::OpaRuntime => 0,
            Builtin::RandIntn => 2,
            Builtin::RegexFindN => 3,
            Builtin::RegexGlobsMatch => 2,
            Builtin::RegexSplit => 2,
            Builtin::RegexTemplateMatch => 4,
            Builtin::RegexReplace => 3,
            Builtin::RegexMatch => 2,
            Builtin::RegexIsValid => 1,
            Builtin::RegexFindAllStringSubmatchN => 3,
            Builtin::RegoParseModule => 2,
            Builtin::SemverCompare => 2,
            Builtin::SemverIsValid => 1,
            Builtin::Sprintf => 2,
            Builtin::TimeAddDate => 4,
            Builtin::TimeClock => 1,
            Builtin::TimeDate => 1,
            Builtin::TimeDiff => 2,
            Builtin::TimeNowNs => 0,
            Builtin::TimeParseDurationNs => 1,
            Builtin::TimeParseNs => 2,
            Builtin::TimeParseRfc3339Ns => 1,
            Builtin::TimeWeekday => 1,
            Builtin::Trace => 1,
            Builtin::UnitsParse => 1,
            Builtin::UnitsParseBytes => 1,
            Builtin::UrlqueryDecode => 1,
            Builtin::UrlqueryDecodeObject => 1,
            Builtin::UrlqueryEncode => 1,
            Builtin::UrlqueryEncodeObject => 1,
            Builtin::UuidRfc4122 => 1,
            Builtin::YamlIsValid => 1,
            Builtin::YamlMarshal => 1,
            Builtin::YamlUnmarshal => 1,
        }
    }

    /// Whether the builtin runs on the host side.
    pub fn runs_on_host(self) -> (r: bool)
        ensures
            r == runs_on_host(self),
    {
        match self {
            Builtin::HttpSend => true,
            Builtin::JsonPatch => true,
            Builtin::OpaRuntime => true,
            Builtin::Sprintf => true,
            Builtin::UnitsParse => true,
            Builtin::YamlMarshal => true,
            Builtin::YamlUnmarshal => true,
            _ => false,
        }
    }
}

/// Resolve a builtin by its name.
pub fn resolve(name: &str) -> (r: Result<Builtin, BuiltinError>)
    ensures
        r matches Ok(b) ==> builtin_name(b) == name@,
        r is Err ==> r == Err::<Builtin, BuiltinError>(BuiltinError::UnknownBuiltin) && forall|b: Builtin| builtin_name(b) != name@,
{
    if str_eq(name, "base64url.encode_no_pad") {
        return Ok(Builtin::Base64UrlEncodeNoPad);
    }
    if str_eq(name, "crypto.hmac.md5") {
        return Ok(Builtin::CryptoHmacMd5);
    }
    if str_eq(name, "crypto.hmac.sha1") {
        return Ok(Builtin::CryptoHmacSha1);
    }
    if str_eq(name, "crypto.hmac.sha256") {
        return Ok(Builtin::CryptoHmacSha256);
    }
    if str_eq(name, "crypto.hmac.sha512") {
        return Ok(Builtin::CryptoHmacSha512);
    }
    if str_eq(name, "crypto.md5") {
        return Ok(Builtin::CryptoMd5);
    }
    if str_eq(name, "crypto.sha1") {
        return Ok(Builtin::CryptoSha1);
    }
    if str_eq(name, "crypto.sha256") {
        return Ok(Builtin::CryptoSha256);
    }
    if str_eq(name, "crypto.x509.parse_and_verify_certificates") {
        return Ok(Builtin::CryptoX509ParseAndVerifyCertificates);
    }
    if str_eq(name, "crypto.x509.parse_certificate_request") {
        return Ok(Builtin::CryptoX509ParseCertificateRequest);
    }
    if str_eq(name, "crypto.x509.parse_certificates") {
        return Ok(Builtin::CryptoX509ParseCertificates);
    }
    if str_eq(name, "crypto.x509.parse_rsa_private_key") {
        return Ok(Builtin::CryptoX509ParseRsaPrivateKey);
    }
    if str_eq(name, "glob.quote_meta") {
        return Ok(Builtin::GlobQuoteMeta);
    }
    if str_eq(name, "graph.reachable_paths") {
        return Ok(Builtin::GraphReachablePaths);
    }
    if str_eq(name, "graphql.is_valid") {
        return Ok(Builtin::GraphqlIsValid);
    }
    if str_eq(name, "graphql.parse") {
        return Ok(Builtin::GraphqlParse);
    }
    if str_eq(name, "graphql.parse_and_verify") {
        return Ok(Builtin::GraphqlParseAndVerify);
    }
    if str_eq(name, "graphql.parse_query") {
        return Ok(Builtin::GraphqlParseQuery);
    }
    if str_eq(name, "graphql.parse_schema") {
        return Ok(Builtin::GraphqlParseSchema);
    }
    if str_eq(name, "hex.decode") {
        return Ok(Builtin::HexDecode);
    }
    if str_eq(name, "hex.encode") {
        return Ok(Builtin::HexEncode);
    }
    if str_eq(name, "http.send") {
        return Ok(Builtin::HttpSend);
    }
    if str_eq(name, "indexof_n") {
        return Ok(Builtin::IndexofN);
    }
    if str_eq(name, "io.jwt.decode") {
        return Ok(Builtin::IoJwtDecode);
    }
    if str_eq(name, "io.jwt.decode_verify") {
        return Ok(Builtin::IoJwtDecodeVerify);
    }
    if str_eq(name, "io.jwt.encode_sign") {
        return Ok(Builtin::IoJwtEncodeSign);
    }
    if str_eq(name, "io.jwt.encode_sign_raw") {
        return Ok(Builtin::IoJwtEncodeSignRaw);
    }
    if str_eq(name, "io.jwt.verify_es256") {
        return Ok(Builtin::IoJwtVerifyEs256);
    }
    if str_eq(name, "io.jwt.verify_es384") {
        return Ok(Builtin::IoJwtVerifyEs384);
    }
    if str_eq(name, "io.jwt.verify_es512") {
        return Ok(Builtin::IoJwtVerifyEs512);
    }
    if str_eq(name, "io.jwt.verify_hs256") {
        return Ok(Builtin::IoJwtVerifyHs256);
    }
    if str_eq(name, "io.jwt.verify_hs384") {
        return Ok(Builtin::IoJwtVerifyHs384);
    }
    if str_eq(name, "io.jwt.verify_hs512") {
        return Ok(Builtin::IoJwtVerifyHs512);
    }
    if str_eq(name, "io.jwt.verify_ps256") {
        return Ok(Builtin::IoJwtVerifyPs256);
    }
    if str_eq(name, "io.jwt.verify_ps384") {
        return Ok(Builtin::IoJwtVerifyPs384);
    }
    if str_eq(name, "io.jwt.verify_ps512") {
        return Ok(Builtin::IoJwtVerifyPs512);
    }
    if str_eq(name, "io.jwt.verify_rs256") {
        return Ok(Builtin::IoJwtVerifyRs256);
    }
    if str_eq(name, "io.jwt.verify_rs384") {
        return Ok(Builtin::IoJwtVerifyRs384);
    }
    if str_eq(name, "io.jwt.verify_rs512") {
        return Ok(Builtin::IoJwtVerifyRs512);
    }
    if str_eq(name, "json.patch") {
        return Ok(Builtin::JsonPatch);
    }
    if str_eq(name, "net.cidr_contains_matches") {
        return Ok(Builtin::NetCidrContainsMatches);
    }
    if str_eq(name, "net.cidr_expand") {
        return Ok(Builtin::NetCidrExpand);
    }
    if str_eq(name, "net.cidr_merge") {
        return Ok(Builtin::NetCidrMerge);
    }
    if str_eq(name, "net.lookup_ip_addr") {
        return Ok(Builtin::NetLookupIpAddr);
    }
    if str_eq(name, "object.union_n") {
        return Ok(Builtin::ObjectUnionN);
    }
    if str_eq(name, "opa.runtime") {
        return Ok(Builtin::OpaRuntime);
    }
    if str_eq(name, "rand.intn") {
        return Ok(Builtin::RandIntn);
    }
    if str_eq(name, "regex.find_n") {
        return Ok(Builtin::RegexFindN);
    }
    if str_eq(name, "regex.globs_match") {
        return Ok(Builtin::RegexGlobsMatch);
    }
    if str_eq(name, "regex.split") {
        return Ok(Builtin::RegexSplit);
    }
    if str_eq(name, "regex.template_match") {
        return Ok(Builtin::RegexTemplateMatch);
    }
    if str_eq(name, "regex.replace") {
        return Ok(Builtin::RegexReplace);
    }
    if str_eq(name, "regex.match") {
        return Ok(Builtin::RegexMatch);
    }
    if str_eq(name, "regex.is_valid") {
        return Ok(Builtin::RegexIsValid);
    }
    if str_eq(name, "regex.find_all_string_submatch_n") {
        return Ok(Builtin::RegexFindAllStringSubmatchN);
    }
    if str_eq(name, "rego.parse_module") {
        return Ok(Builtin::RegoParseModule);
    }
    if str_eq(name, "semver.compare") {
        return Ok(Builtin::SemverCompare);
    }
    if str_eq(name, "semver.is_valid") {
        return Ok(Builtin::SemverIsValid);
    }
    if str_eq(name, "sprintf") {
        return Ok(Builtin::Sprintf);
    }
    if str_eq(name, "time.add_date") {
        return Ok(Builtin::TimeAddDate);
    }
    if str_eq(name, "time.clock") {
        return Ok(Builtin::TimeClock);
    }
    if str_eq(name, "time.date") {
        return Ok(Builtin::TimeDate);
    }
    if str_eq(name, "time.diff") {
        return Ok(Builtin::TimeDiff);
    }
    if str_eq(name, "time.now_ns") {
        return Ok(Builtin::TimeNowNs);
    }
    if str_eq(name, "time.parse_duration_ns") {
        return Ok(Builtin::TimeParseDurationNs);
    }
    if str_eq(name, "time.parse_ns") {
        return Ok(Builtin::TimeParseNs);
    }
    if str_eq(name, "time.parse_rfc3339_ns") {
        return Ok(Builtin::TimeParseRfc3339Ns);
    }
    if str_eq(name, "time.weekday") {
        return Ok(Builtin::TimeWeekday);
    }
    if str_eq(name, "trace") {
        return Ok(Builtin::Trace);
    }
    if str_eq(name, "units.parse") {
        return Ok(Builtin::UnitsParse);
    }
    if str_eq(name, "units.parse_bytes") {
        return Ok(Builtin::UnitsParseBytes);
    }
    if str_eq(name, "urlquery.decode") {
        return Ok(Builtin::UrlqueryDecode);
    }
    if str_eq(name, "urlquery.decode_object") {
        return Ok(Builtin::UrlqueryDecodeObject);
    }
    if str_eq(name, "urlquery.encode") {
        return Ok(Builtin::UrlqueryEncode);
    }
    if str_eq(name, "urlquery.encode_object") {
        return Ok(Builtin::UrlqueryEncodeObject);
    }
    if str_eq(name, "uuid.rfc4122") {
        return Ok(Builtin::UuidRfc4122);
    }
    if str_eq(name, "yaml.is_valid") {
        return Ok(Builtin::YamlIsValid);
    }
    if str_eq(name, "yaml.marshal") {
        return Ok(Builtin::YamlMarshal);
    }
    if str_eq(name, "yaml.unmarshal") {
        return Ok(Builtin::YamlUnmarshal);
    }
    Err(BuiltinError::UnknownBuiltin)
}

/// The texts of a sequence of strings, as JSON strings.
pub open spec fn str_vals(s: Seq<String>) -> Seq<JVal> {
    s.map_values(|x: String| JVal::Str(x@))
}

/// Remove and return the first argument.
fn take_first(args: &mut Vec<Json>) -> (r: Json)
    requires
        old(args).len() > 0,
    ensures
        r == old(args)@[0],
        final(args)@ == old(args)@.subrange(1, old(args)@.len() as int),
{
    args.remove(0)
}

/// A string argument.
pub fn as_string(j: Json, i: usize) -> (r: Result<String, BuiltinError>)
    ensures
        j@ matches JVal::Str(s) ==> r is Ok && r.unwrap()@ == s,
        !(j@ is Str) ==> r == Err::<String, BuiltinError>(BuiltinError::ArgumentType(i)),
{
    match j {
        Json::Str(s) => Ok(s),
        _ => Err(BuiltinError::ArgumentType(i)),
    }
}

/// A signed 64-bit integer argument.
pub fn as_i64(j: Json, i: usize) -> (r: Result<i64, BuiltinError>)
    ensures
        match j@ {
            JVal::Int(n) => if i64::MIN <= n <= i64::MAX {
                r == Ok::<i64, BuiltinError>(n as i64)
            } else {
                r == Err::<i64, BuiltinError>(BuiltinError::ArgumentType(i))
            },
            _ => r == Err::<i64, BuiltinError>(BuiltinError::ArgumentType(i)),
        },
{
    match j {
        Json::Int(n) => if i64::MIN as i128 <= n && n <= i64::MAX as i128 {
            Ok(n as i64)
        } else {
            Err(BuiltinError::ArgumentType(i))
        },
        _ => Err(BuiltinError::ArgumentType(i)),
    }
}

/// A signed 32-bit integer argument.
pub fn as_i32(j: Json, i: usize) -> (r: Result<i32, BuiltinError>)
    ensures
        match j@ {
            JVal::Int(n) => if i32::MIN <= n <= i32::MAX {
                r == Ok::<i32, BuiltinError>(n as i32)
            } else {
                r == Err::<i32, BuiltinError>(BuiltinError::ArgumentType(i))
            },
            _ => r == Err::<i32, BuiltinError>(BuiltinError::ArgumentType(i)),
        },
{
    match j {
        Json::Int(n) => if i32::MIN as i128 <= n && n <= i32::MAX as i128 {
            Ok(n as i32)
        } else {
            Err(BuiltinError::ArgumentType(i))
        },
        _ => Err(BuiltinError::ArgumentType(i)),
    }
}

/// A non-negative size argument.
pub fn as_usize(j: Json, i: usize) -> (r: Result<usize, BuiltinError>)
    ensures
        match j@ {
            JVal::Int(n) => if 0 <= n <= usize::MAX {
                r == Ok::<usize, BuiltinError>(n as usize)
            } else {
                r == Err::<usize, BuiltinError>(BuiltinError::ArgumentType(i))
            },
            _ => r == Err::<usize, BuiltinError>(BuiltinError::ArgumentType(i)),
        },
{
    match j {
        Json::Int(n) => if 0 <= n && n <= usize::MAX as i128 {
            Ok(n as usize)
        } else {
            Err(BuiltinError::ArgumentType(i))
        },
        _ => Err(BuiltinError::ArgumentType(i)),
    }
}

/// An array argument.
pub fn as_array(j: Json, i: usize) -> (r: Result<Vec<Json>, BuiltinError>)
    ensures
        j@ matches JVal::Array(v) ==> r is Ok && jvals(r.unwrap()@) == v,
        !(j@ is Array) ==> r == Err::<Vec<Json>, BuiltinError>(BuiltinError::ArgumentType(i)),
{
    match j {
        Json::Array(v) => Ok(v),
        _ => Err(BuiltinError::ArgumentType(i)),
    }
}

/// An object argument, as its members.
pub fn as_members(j: Json, i: usize) -> (r: Result<Vec<(String, Json)>, BuiltinError>)
    ensures
        j@ matches JVal::Object(m) ==> r is Ok && crate::json::jmembers(r.unwrap()@) == m,
        !(j@ is Object) ==> r == Err::<Vec<(String, Json)>, BuiltinError>(BuiltinError::ArgumentType(i)),
{
    match j {
        Json::Object(m) => Ok(m),
        _ => Err(BuiltinError::ArgumentType(i)),
    }
}

/// The timestamp and time zone that an argument stands for: a number read in
/// UTC, or an array of a number and the name of a time zone.
pub open spec fn timestamp_of(j: JVal) -> Option<(i64, Seq<char>)> {
    match j {
        JVal::Int(n) => if i64::MIN <= n <= i64::MAX {
            Some((n as i64, "UTC"@))
        } else {
            None
        },
        JVal::Array(v) => if v.len() == 2 && v[0] is Int && i64::MIN <= v[0]->Int_0 <= i64::MAX
            && v[1] is Str {
            Some((v[0]->Int_0 as i64, v[1]->Str_0))
        } else {
            None
        },
        _ => None,
    }
}

/// A timestamp argument: a number, or an array of a number and a time zone.
pub fn as_timestamp(j: Json, i: usize) -> (r: Result<crate::time::TimestampWithOptionalTimezone, BuiltinError>)
    ensures
        match timestamp_of(j@) {
            Some((ts, tz)) => r is Ok && r.unwrap().spec_ts() == ts && r.unwrap().spec_tz() == tz,
            None => r == Err::<crate::time::TimestampWithOptionalTimezone, BuiltinError>(BuiltinError::ArgumentType(i)),
        },
{
    match j {
        Json::Int(n) => {
            let ts = as_i64(Json::Int(n), i)?;
            Ok(crate::time::TimestampWithOptionalTimezone::Timestamp(ts))
        },
        Json::Array(v) => {
            proof {
                crate::json::lemma_jvals(v@);
            }
            if v.len() != 2 {
                return Err(BuiltinError::ArgumentType(i));
            }
            let mut v = v;
            let first = take_first(&mut v);
            let second = take_first(&mut v);
            let ts = as_i64(first, i)?;
            let tz = as_string(second, i)?;
            Ok(crate::time::TimestampWithOptionalTimezone::TimestampAndTimezone(ts, tz))
        },
        _ => Err(BuiltinError::ArgumentType(i)),
    }
}

/// Every item is a string.
pub open spec fn all_strs(items: Seq<JVal>) -> bool {
    forall|i: int| 0 <= i < items.len() ==> #[trigger] items[i] is Str
}

/// The name-value pairs that the members `m` stand for, where each member
/// holds a string or an array of strings.
pub open spec fn query_pairs(m: Seq<(Seq<char>, JVal)>) -> Option<Seq<(Seq<char>, Seq<char>)>>
    decreases m.len(),
{
    if m.len() == 0 {
        Some(Seq::empty())
    } else {
        match query_pairs(m.drop_last()) {
            None => None,
            Some(p) => match m.last().1 {
                JVal::Str(v) => Some(p.push((m.last().0, v))),
                JVal::Array(items) => if all_strs(items) {
                    Some(p + items.map_values(|x: JVal| (m.last().0, x->Str_0)))
                } else {
                    None
                },
                _ => None,
            },
        }
    }
}

/// Once a prefix of the members stands for no pairs, neither do the members.
proof fn lemma_query_none_prefix(m: Seq<(Seq<char>, JVal)>, k: int)
    requires
        0 <= k <= m.len(),
        query_pairs(m.take(k)) is None,
    ensures
        query_pairs(m) is None,
    decreases m.len() - k,
{
    if k < m.len() {
        assert(m.take(k + 1).drop_last() =~= m.take(k));
        lemma_query_none_prefix(m, k + 1);
    } else {
        assert(m.take(k) =~= m);
    }
}

/// An object argument whose members hold a string or an array of strings.
pub fn as_query_object(j: Json, i: usize) -> (r: Result<Vec<(String, crate::urlquery::OneOrMany<String>)>, BuiltinError>)
    ensures
        match j@ {
            JVal::Object(m) => match query_pairs(m) {
                Some(ps) => r is Ok && crate::urlquery::flat_pairs(r.unwrap()@) == ps,
                None => r == Err::<Vec<(String, crate::urlquery::OneOrMany<String>)>, BuiltinError>(BuiltinError::ArgumentType(i)),
            },
            _ => r == Err::<Vec<(String, crate::urlquery::OneOrMany<String>)>, BuiltinError>(BuiltinError::ArgumentType(i)),
        },
{
    let m = as_members(j, i)?;
    let ghost mv = crate::json::jmembers(m@);
    proof {
        crate::json::lemma_jmembers(m@);
    }
    let ghost orig = m@;
    let mut out: Vec<(String, crate::urlquery::OneOrMany<String>)> = Vec::new();
    let mut rest = m;
    let total: usize = rest.len();
    let mut n: usize = 0;
    proof {
        assert(mv.take(0) =~= Seq::<(Seq<char>, JVal)>::empty());
        assert(crate::urlquery::flat_pairs(out@) =~= Seq::<(Seq<char>, Seq<char>)>::empty());
    }
    while rest.len() > 0
        invariant
            n <= total,
            total == orig.len(),
            mv.len() == orig.len(),
            j@ == JVal::Object(mv),
            forall|q: int| 0 <= q < orig.len() ==> #[trigger] mv[q] == (orig[q].0@, jval(orig[q].1)),
            rest@ == orig.subrange(n as int, total as int),
            query_pairs(mv.take(n as int)) == Some(crate::urlquery::flat_pairs(out@)),
        decreases rest.len(),
    {
        assert(n < total);
        assert(rest@[0] == orig[n as int]);
        let (k, v) = rest.remove(0);
        let ghost t1 = mv.take(n as int + 1);
        proof {
            assert(t1.drop_last() =~= mv.take(n as int));
            assert(t1.last() == (k@, jval(v)));
        }
        let ghost before = crate::urlquery::flat_pairs(out@);
        let ghost ob = out@;
        match v {
            Json::Str(s) => {
                let ghost sv = s@;
                out.push((k, crate::urlquery::OneOrMany::One(s)));
                proof {
                    assert(out@.drop_last() =~= ob);
                    assert(crate::urlquery::flat_pairs(out@) =~= before + seq![(k@, sv)]);
                }
            },
            Json::Array(items) => {
                let ghost iv = jvals(items@);
                assert(jval(Json::Array(items)) == JVal::Array(iv));
                proof {
                    crate::json::lemma_jvals(items@);
                }
                let ghost io = items@;
                let mut strs: Vec<String> = Vec::new();
                let mut items = items;
                let count: usize = items.len();
                let mut c: usize = 0;
                while items.len() > 0
                    invariant
                        c <= count,
                        count == io.len(),
                        iv.len() == io.len(),
                        forall|q: int| 0 <= q < io.len() ==> #[trigger] iv[q] == jval(io[q]),
                        items@ == io.subrange(c as int, count as int),
                        strs@.len() == c,
                        forall|q: int| 0 <= q < c ==> #[trigger] iv[q] is Str && strs@[q]@ == iv[q]->Str_0,
                        n < mv.len(),
                        j@ == JVal::Object(mv),
                        query_pairs(mv.take(n as int)) is Some,
                        t1 == mv.take(n as int + 1),
                        t1.drop_last() == mv.take(n as int),
                        t1.last() == (k@, JVal::Array(iv)),
                    decreases items.len(),
                {
                    assert(c < count);
                    assert(items@[0] == io[c as int]);
                    let item = items.remove(0);
                    let s = match item {
                        Json::Str(s) => s,
                        _ => {
                            proof {
                                assert(!(iv[c as int] is Str));
                                assert(!all_strs(iv));
                                assert(query_pairs(t1) is None);
                                lemma_query_none_prefix(mv, n as int + 1);
                            }
                            return Err(BuiltinError::ArgumentType(i));
                        },
                    };
                    strs.push(s);
                    c = c + 1;
                    assert(items@ =~= io.subrange(c as int, count as int));
                }
                let ghost sv = strs@;
                out.push((k, crate::urlquery::OneOrMany::Many(strs)));
                proof {
                    assert(all_strs(iv));
                    assert(out@.drop_last() =~= ob);
                    assert(crate::urlquery::keyed(k@, sv) =~= iv.map_values(|x: JVal| (k@, x->Str_0)));
                    assert(crate::urlquery::flat_pairs(out@) =~= before + crate::urlquery::keyed(k@, sv));
                }
            },
            _ => {
                proof {
                    assert(query_pairs(t1) is None);
                    lemma_query_none_prefix(mv, n as int + 1);
                }
                return Err(BuiltinError::ArgumentType(i));
            },
        }
        n = n + 1;
        assert(rest@ =~= orig.subrange(n as int, total as int));
    }
    assert(mv.take(n as int) =~= mv);
    Ok(out)
}

/// An array of JSON strings.
pub fn strings_json(v: Vec<String>) -> (r: Json)
    ensures
        r@ == JVal::Array(str_vals(v@)),
{
    let ghost orig = v@;
    let mut out: Vec<Json> = Vec::new();
    let mut rest = v;
    let total: usize = rest.len();
    let mut i: usize = 0;
    while rest.len() > 0
        invariant
            i <= total,
            total == orig.len(),
            rest@ == orig.subrange(i as int, total as int),
            jvals(out@) == str_vals(orig.take(i as int)),
        decreases rest.len(),
    {
        assert(i < total);
        assert(rest@[0] == orig[i as int]);
        let s = rest.remove(0);
        let ghost ob = out@;
        out.push(Json::Str(s));
        proof {
            assert(out@.drop_last() =~= ob);
            assert(out@.last() == Json::Str(s));
            assert(jvals(out@) == jvals(out@.drop_last()).push(jval(out@.last())));
            assert(orig.take(i as int + 1) =~= orig.take(i as int).push(s));
            assert(str_vals(orig.take(i as int + 1)) =~= str_vals(orig.take(i as int)).push(JVal::Str(s@)));
        }
        i = i + 1;
        assert(rest@ =~= orig.subrange(i as int, total as int));
    }
    assert(orig.take(i as int) =~= orig);
    Json::Array(out)
}

/// The rows of strings, as JSON arrays of strings.
pub open spec fn row_vals(s: Seq<Vec<String>>) -> Seq<JVal> {
    s.map_values(|row: Vec<String>| JVal::Array(str_vals(row@)))
}

/// An array of arrays of JSON strings.
pub fn rows_json(v: Vec<Vec<String>>) -> (r: Json)
    ensures
        r@ == JVal::Array(row_vals(v@)),
{
    let ghost orig = v@;
    let mut out: Vec<Json> = Vec::new();
    let mut rest = v;
    let total: usize = rest.len();
    let mut i: usize = 0;
    while rest.len() > 0
        invariant
            i <= total,
            total == orig.len(),
            rest@ == orig.subrange(i as int, total as int),
            jvals(out@) == row_vals(orig.take(i as int)),
        decreases rest.len(),
    {
        assert(i < total);
        assert(rest@[0] == orig[i as int]);
        let row = rest.remove(0);
        let ghost rv = row@;
        let j = strings_json(row);
        proof {
            crate::json::lemma_jvals_push(out@, j);
            assert(orig.take(i as int + 1) =~= orig.take(i as int).push(orig[i as int]));
            assert(row_vals(orig.take(i as int + 1)) =~= row_vals(orig.take(i as int)).push(JVal::Array(str_vals(rv))));
        }
        out.push(j);
        i = i + 1;
        assert(rest@ =~= orig.subrange(i as int, total as int));
    }
    assert(orig.take(i as int) =~= orig);
    Json::Array(out)
}

/// An array of three integers.
fn triple_json(a: i128, b: i128, c: i128) -> (r: Json)
    ensures
        r@ == JVal::Array(seq![JVal::Int(a as int), JVal::Int(b as int), JVal::Int(c as int)]),
{
    let mut v: Vec<Json> = Vec::new();
    proof {
        assert(jvals(v@) =~= Seq::<JVal>::empty());
        crate::json::lemma_jvals_push(v@, Json::Int(a));
    }
    v.push(Json::Int(a));
    proof {
        crate::json::lemma_jvals_push(v@, Json::Int(b));
    }
    v.push(Json::Int(b));
    proof {
        crate::json::lemma_jvals_push(v@, Json::Int(c));
    }
    v.push(Json::Int(c));
    assert(jvals(v@) =~= seq![JVal::Int(a as int), JVal::Int(b as int), JVal::Int(c as int)]);
    Json::Array(v)
}

/// Texts, as JSON strings.
pub open spec fn str_jvals(ts: Seq<Seq<char>>) -> Seq<JVal> {
    ts.map_values(|t: Seq<char>| JVal::Str(t))
}

/// Rows of texts, as JSON arrays of strings.
pub open spec fn row_jvals(rs: Seq<Seq<Seq<char>>>) -> Seq<JVal> {
    rs.map_values(|row: Seq<Seq<char>>| JVal::Array(str_jvals(row)))
}

proof fn lemma_str_vals(v: Seq<String>)
    ensures
        str_vals(v) == str_jvals(crate::regex::texts(v)),
{
    assert(str_vals(v) =~= str_jvals(crate::regex::texts(v)));
}

proof fn lemma_row_vals(v: Seq<Vec<String>>)
    ensures
        row_vals(v) == row_jvals(crate::regex::text_rows(v)),
{
    assert forall|i: int| 0 <= i < v.len() implies #[trigger] row_vals(v)[i] == row_jvals(crate::regex::text_rows(v))[i] by {
        lemma_str_vals(v[i]@);
    }
    assert(row_vals(v) =~= row_jvals(crate::regex::text_rows(v)));
}

/// What calling the builtin `b` with the arguments `args` does to a context
/// going from `c0` to `c1` and returning `r`.
pub open spec fn call_ensures<C: EvaluationContext>(
    b: Builtin,
    c0: C,
    c1: C,
    args: Seq<JVal>,
    r: Result<Json, BuiltinError>,
) -> bool {
    &&& c1.clock() == c0.clock()
    &&& b != Builtin::RandIntn && b != Builtin::UuidRfc4122 ==> forall|k: KeyV| #[trigger] c1.cached(k) == c0.cached(k)
    &&& args.len() != arity(b) ==> r == Err::<Json, BuiltinError>(BuiltinError::InvalidArguments)
    &&& args.len() == arity(b) && runs_on_host(b) ==> r == Err::<Json, BuiltinError>(BuiltinError::HostOnly)
    &&& args.len() == arity(b) && is_stub(b) ==> r is Err
    &&& b == Builtin::TimeNowNs && args.len() == 0 ==> r is Ok && r.unwrap()@ == JVal::Int(c0.clock() as int)
    &&& b == Builtin::GlobQuoteMeta && args.len() == 1 ==> match args[0] {
        JVal::Str(s) => r is Ok && r.unwrap()@ == JVal::Str(crate::glob::quoted(s)),
        _ => r == Err::<Json, BuiltinError>(BuiltinError::ArgumentType(0)),
    }
    &&& b == Builtin::Base64UrlEncodeNoPad && args.len() == 1 ==> match args[0] {
        JVal::Str(s) => r is Ok && r.unwrap()@ == JVal::Str(crate::base64url::base64url_of(s)),
        _ => r == Err::<Json, BuiltinError>(BuiltinError::ArgumentType(0)),
    }
    &&& b == Builtin::CryptoMd5 && args.len() == 1 ==> match args[0] {
        JVal::Str(s) => r is Ok && r.unwrap()@ == JVal::Str(crate::crypto::hex_text(crate::crypto::digest::md5_digest(s))),
        _ => r == Err::<Json, BuiltinError>(BuiltinError::ArgumentType(0)),
    }
    &&& b == Builtin::CryptoSha1 && args.len() == 1 ==> match args[0] {
        JVal::Str(s) => r is Ok && r.unwrap()@ == JVal::Str(crate::crypto::hex_text(crate::crypto::digest::sha1_digest(s))),
        _ => r == Err::<Json, BuiltinError>(BuiltinError::ArgumentType(0)),
    }
    &&& b == Builtin::CryptoSha256 && args.len() == 1 ==> match args[0] {
        JVal::Str(s) => r is Ok && r.unwrap()@ == JVal::Str(crate::crypto::hex_text(crate::crypto::digest::sha256_digest(s))),
        _ => r == Err::<Json, BuiltinError>(BuiltinError::ArgumentType(0)),
    }
    &&& b == Builtin::HexEncode && args.len() == 1 ==> match args[0] {
        JVal::Str(s) => r is Ok && r.unwrap()@ == JVal::Str(crate::crypto::hex_text(vstd::utf8::encode_utf8(s))),
        _ => r == Err::<Json, BuiltinError>(BuiltinError::ArgumentType(0)),
    }
    &&& b == Builtin::UrlqueryEncode && args.len() == 1 ==> match args[0] {
        JVal::Str(s) => r is Ok && r.unwrap()@ == JVal::Str(crate::urlquery::form_encoded(s)),
        _ => r == Err::<Json, BuiltinError>(BuiltinError::ArgumentType(0)),
    }
    &&& b == Builtin::RegexIsValid && args.len() == 1 ==> match args[0] {
        JVal::Str(s) => r is Ok && r.unwrap()@ == JVal::Bool(crate::regex::regex_valid(s)),
        _ => r == Err::<Json, BuiltinError>(BuiltinError::ArgumentType(0)),
    }
    &&& b == Builtin::SemverIsValid && args.len() == 1 ==> match args[0] {
        JVal::Str(s) => r is Ok && r.unwrap()@ == JVal::Bool(crate::semver::semver_valid(s)),
        _ => r == Err::<Json, BuiltinError>(BuiltinError::ArgumentType(0)),
    }
    &&& b == Builtin::YamlIsValid && args.len() == 1 ==> match args[0] {
        JVal::Str(s) => r is Ok && r.unwrap()@ == JVal::Bool(crate::yaml::yaml_valid(s)),
        _ => r == Err::<Json, BuiltinError>(BuiltinError::ArgumentType(0)),
    }
    &&& b == Builtin::Trace && args.len() == 1 ==> match args[0] {
        JVal::Str(s) => r is Ok && r.unwrap()@ == JVal::Bool(true),
        _ => r == Err::<Json, BuiltinError>(BuiltinError::ArgumentType(0)),
    }
    &&& b == Builtin::TimeParseRfc3339Ns && args.len() == 1 ==> match args[0] {
        JVal::Str(s) => match crate::time::rfc3339_ns(s) { Some(v) => r is Ok && r.unwrap()@ == JVal::Int(v as int), None => r == Err::<Json, BuiltinError>(BuiltinError::Parse) },
        _ => r == Err::<Json, BuiltinError>(BuiltinError::ArgumentType(0)),
    }
    &&& b == Builtin::UnitsParseBytes && args.len() == 1 ==> match args[0] {
        JVal::Str(s) => match crate::units::decimal_size(vstd::utf8::encode_utf8(s)) { Some(v) => r is Ok && r.unwrap()@ == JVal::Int(v as int), None => r == Err::<Json, BuiltinError>(BuiltinError::Parse) },
        _ => r == Err::<Json, BuiltinError>(BuiltinError::ArgumentType(0)),
    }
    &&& b == Builtin::UrlqueryDecode && args.len() == 1 ==> match args[0] {
        JVal::Str(s) => match crate::urlquery::percent_decoded(crate::urlquery::plus_as_space(s)) { Some(t) => r is Ok && r.unwrap()@ == JVal::Str(t), None => r == Err::<Json, BuiltinError>(BuiltinError::Parse) },
        _ => r == Err::<Json, BuiltinError>(BuiltinError::ArgumentType(0)),
    }
    &&& b == Builtin::CryptoHmacMd5 && args.len() == 2 ==> match (args[0], args[1]) {
        (JVal::Str(x), JVal::Str(y)) => r is Ok && r.unwrap()@ == JVal::Str(crate::crypto::hex_text(crate::crypto::hmac::hmac_md5_of(x, y))),
        (JVal::Str(_), _) => r == Err::<Json, BuiltinError>(BuiltinError::ArgumentType(1)),
        _ => r == Err::<Json, BuiltinError>(BuiltinError::ArgumentType(0)),
    }
    &&& b == Builtin::CryptoHmacSha1 && args.len() == 2 ==> match (args[0], args[1]) {
        (JVal::Str(x), JVal::Str(y)) => r is Ok && r.unwrap()@ == JVal::Str(crate::crypto::hex_text(crate::crypto::hmac::hmac_sha1_of(x, y))),
        (JVal::Str(_), _) => r == Err::<Json, BuiltinError>(BuiltinError::ArgumentType(1)),
        _ => r == Err::<Json, BuiltinError>(BuiltinError::ArgumentType(0)),
    }
    &&& b == Builtin::CryptoHmacSha256 && args.len() == 2 ==> match (args[0], args[1]) {
        (JVal::Str(x), JVal::Str(y)) => r is Ok && r.unwrap()@ == JVal::Str(crate::crypto::hex_text(crate::crypto::hmac::hmac_sha256_of(x, y))),
        (JVal::Str(_), _) => r == Err::<Json, BuiltinError>(BuiltinError::ArgumentType(1)),
        _ => r == Err::<Json, BuiltinError>(BuiltinError::ArgumentType(0)),
    }
    &&& b == Builtin::CryptoHmacSha512 && args.len() == 2 ==> match (args[0], args[1]) {
        (JVal::Str(x), JVal::Str(y)) => r is Ok && r.unwrap()@ == JVal::Str(crate::crypto::hex_text(crate::crypto::hmac::hmac_sha512_of(x, y))),
        (JVal::Str(_), _) => r == Err::<Json, BuiltinError>(BuiltinError::ArgumentType(1)),
        _ => r == Err::<Json, BuiltinError>(BuiltinError::ArgumentType(0)),
    }
    &&& b == Builtin::RegexMatch && args.len() == 2 ==> match (args[0], args[1]) {
        (JVal::Str(x), JVal::Str(y)) => if crate::regex::regex_valid(x) { r is Ok && r.unwrap()@ == JVal::Bool(crate::regex::regex_is_match(x, y)) } else { r == Err::<Json, BuiltinError>(BuiltinError::Parse) },
        (JVal::Str(_), _) => r == Err::<Json, BuiltinError>(BuiltinError::ArgumentType(1)),
        _ => r == Err::<Json, BuiltinError>(BuiltinError::ArgumentType(0)),
    }
    &&& b == Builtin::SemverCompare && args.len() == 2 ==> match (args[0], args[1]) {
        (JVal::Str(x), JVal::Str(y)) => if crate::semver::semver_valid(x) && crate::semver::semver_valid(y) { r is Ok && r.unwrap()@ == JVal::Int(crate::semver::semver_order(x, y) as int) } else { r == Err::<Json, BuiltinError>(BuiltinError::Parse) },
        (JVal::Str(_), _) => r == Err::<Json, BuiltinError>(BuiltinError::ArgumentType(1)),
        _ => r == Err::<Json, BuiltinError>(BuiltinError::ArgumentType(0)),
    }
    &&& b == Builtin::HexDecode && args.len() == 1 ==> match args[0] {
        JVal::Str(x) => match crate::hex::hex_bytes(x) { Some(bb) => if vstd::utf8::valid_utf8(bb) { r is Ok && r.unwrap()@ == JVal::Str(vstd::utf8::decode_utf8(bb)) } else { r == Err::<Json, BuiltinError>(BuiltinError::Parse) }, None => r == Err::<Json, BuiltinError>(BuiltinError::Parse) },
        _ => r == Err::<Json, BuiltinError>(BuiltinError::ArgumentType(0)),
    }
    &&& b == Builtin::RegexFindN && args.len() == 3 ==> match args[0] {
        JVal::Str(p) => match args[1] {
        JVal::Str(v) => match args[2] {
        JVal::Int(n) => if i32::MIN <= n <= i32::MAX {
            if crate::regex::regex_valid(p) { r is Ok && r.unwrap()@ == JVal::Array(str_jvals(if n < 0 { crate::regex::regex_finds(p, v) } else { crate::regex::first_n(crate::regex::regex_finds(p, v), n) })) } else { r == Err::<Json, BuiltinError>(BuiltinError::Parse) }
        } else {
            r == Err::<Json, BuiltinError>(BuiltinError::ArgumentType(2))
        },
        _ => r == Err::<Json, BuiltinError>(BuiltinError::ArgumentType(2)),
    },
        _ => r == Err::<Json, BuiltinError>(BuiltinError::ArgumentType(1)),
    },
        _ => r == Err::<Json, BuiltinError>(BuiltinError::ArgumentType(0)),
    }
    &&& b == Builtin::RegexSplit && args.len() == 2 ==> match args[0] {
        JVal::Str(p) => match args[1] {
        JVal::Str(v) => if crate::regex::regex_valid(p) { r is Ok && r.unwrap()@ == JVal::Array(str_jvals(crate::regex::regex_pieces(p, v))) } else { r == Err::<Json, BuiltinError>(BuiltinError::Parse) },
        _ => r == Err::<Json, BuiltinError>(BuiltinError::ArgumentType(1)),
    },
        _ => r == Err::<Json, BuiltinError>(BuiltinError::ArgumentType(0)),
    }
    &&& b == Builtin::RegexReplace && args.len() == 3 ==> match args[0] {
        JVal::Str(x) => match args[1] {
        JVal::Str(p) => match args[2] {
        JVal::Str(w) => if crate::regex::regex_valid(p) { r is Ok && r.unwrap()@ == JVal::Str(crate::regex::regex_replaced(p, x, w)) } else { r == Err::<Json, BuiltinError>(BuiltinError::Parse) },
        _ => r == Err::<Json, BuiltinError>(BuiltinError::ArgumentType(2)),
    },
        _ => r == Err::<Json, BuiltinError>(BuiltinError::ArgumentType(1)),
    },
        _ => r == Err::<Json, BuiltinError>(BuiltinError::ArgumentType(0)),
    }
    &&& b == Builtin::RegexGlobsMatch && args.len() == 2 ==> match args[0] {
        JVal::Str(x) => match args[1] {
        JVal::Str(y) => match crate::regex::globs_intersect(x, y) { Some(t) => r is Ok && r.unwrap()@ == JVal::Bool(t), None => r == Err::<Json, BuiltinError>(BuiltinError::Parse) },
        _ => r == Err::<Json, BuiltinError>(BuiltinError::ArgumentType(1)),
    },
        _ => r == Err::<Json, BuiltinError>(BuiltinError::ArgumentType(0)),
    }
    &&& b == Builtin::RegexTemplateMatch && args.len() == 4 ==> match args[0] {
        JVal::Str(p) => match args[1] {
        JVal::Str(v) => match args[2] {
        JVal::Str(ds) => match args[3] {
        JVal::Str(de) => if ds.len() == 0 || de.len() == 0 { r == Err::<Json, BuiltinError>(BuiltinError::Delimiters) } else { match crate::regex::route_matches(p, ds[0], de[0], v) { Some(t) => r is Ok && r.unwrap()@ == JVal::Bool(t), None => r == Err::<Json, BuiltinError>(BuiltinError::Parse) } },
        _ => r == Err::<Json, BuiltinError>(BuiltinError::ArgumentType(3)),
    },
        _ => r == Err::<Json, BuiltinError>(BuiltinError::ArgumentType(2)),
    },
        _ => r == Err::<Json, BuiltinError>(BuiltinError::ArgumentType(1)),
    },
        _ => r == Err::<Json, BuiltinError>(BuiltinError::ArgumentType(0)),
    }
    &&& b == Builtin::RegexFindAllStringSubmatchN && args.len() == 3 ==> match args[0] {
        JVal::Str(p) => match args[1] {
        JVal::Str(v) => match args[2] {
        JVal::Int(n) => if 0 <= n <= usize::MAX {
            if crate::regex::regex_valid(p) { r is Ok && r.unwrap()@ == JVal::Array(row_jvals(crate::regex::present_rows(crate::regex::first_n(crate::regex::regex_submatches(p, v), n)))) } else { r == Err::<Json, BuiltinError>(BuiltinError::Parse) }
        } else {
            r == Err::<Json, BuiltinError>(BuiltinError::ArgumentType(2))
        },
        _ => r == Err::<Json, BuiltinError>(BuiltinError::ArgumentType(2)),
    },
        _ => r == Err::<Json, BuiltinError>(BuiltinError::ArgumentType(1)),
    },
        _ => r == Err::<Json, BuiltinError>(BuiltinError::ArgumentType(0)),
    }
    &&& b == Builtin::TimeAddDate && args.len() == 4 ==> match args[0] {
        JVal::Int(ns) => if i64::MIN <= ns <= i64::MAX {
            match args[1] {
        JVal::Int(y) => if i32::MIN <= y <= i32::MAX {
            match args[2] {
        JVal::Int(m) => if i32::MIN <= m <= i32::MAX {
            match args[3] {
        JVal::Int(d) => if i64::MIN <= d <= i64::MAX {
            if -crate::time::MAX_YEARS <= y <= crate::time::MAX_YEARS && -crate::time::MAX_MONTHS <= m <= crate::time::MAX_MONTHS && -crate::time::MAX_DAYS <= d <= crate::time::MAX_DAYS { match crate::time::date_shifted(ns as i64, y as i32, m as i32, d as i64) { Some(t) => r is Ok && r.unwrap()@ == JVal::Int(t as int), None => r == Err::<Json, BuiltinError>(BuiltinError::OutOfRange) } } else { r == Err::<Json, BuiltinError>(BuiltinError::OutOfRange) }
        } else {
            r == Err::<Json, BuiltinError>(BuiltinError::ArgumentType(3))
        },
        _ => r == Err::<Json, BuiltinError>(BuiltinError::ArgumentType(3)),
    }
        } else {
            r == Err::<Json, BuiltinError>(BuiltinError::ArgumentType(2))
        },
        _ => r == Err::<Json, BuiltinError>(BuiltinError::ArgumentType(2)),
    }
        } else {
            r == Err::<Json, BuiltinError>(BuiltinError::ArgumentType(1))
        },
        _ => r == Err::<Json, BuiltinError>(BuiltinError::ArgumentType(1)),
    }
        } else {
            r == Err::<Json, BuiltinError>(BuiltinError::ArgumentType(0))
        },
        _ => r == Err::<Json, BuiltinError>(BuiltinError::ArgumentType(0)),
    }
    &&& b == Builtin::TimeClock && args.len() == 1 ==> match timestamp_of(args[0]) {
        Some(tv) => match crate::time::civil_of(tv.0, tv.1) { Some(c) => r is Ok && r.unwrap()@ == JVal::Array(seq![JVal::Int(c.3 as int), JVal::Int(c.4 as int), JVal::Int(c.5 as int)]), None => r == Err::<Json, BuiltinError>(BuiltinError::UnknownTimezone) },
        None => r == Err::<Json, BuiltinError>(BuiltinError::ArgumentType(0)),
    }
    &&& b == Builtin::TimeDate && args.len() == 1 ==> match timestamp_of(args[0]) {
        Some(tv) => match crate::time::civil_of(tv.0, tv.1) { Some(c) => r is Ok && r.unwrap()@ == JVal::Array(seq![JVal::Int(c.0 as int), JVal::Int(c.1 as int), JVal::Int(c.2 as int)]), None => r == Err::<Json, BuiltinError>(BuiltinError::UnknownTimezone) },
        None => r == Err::<Json, BuiltinError>(BuiltinError::ArgumentType(0)),
    }
    &&& b == Builtin::TimeWeekday && args.len() == 1 ==> match timestamp_of(args[0]) {
        Some(tv) => match crate::time::civil_of(tv.0, tv.1) { Some(c) => r is Ok && r.unwrap()@ == JVal::Str(crate::time::weekday_name(c.6)), None => r == Err::<Json, BuiltinError>(BuiltinError::UnknownTimezone) },
        None => r == Err::<Json, BuiltinError>(BuiltinError::ArgumentType(0)),
    }
    &&& b == Builtin::TimeParseDurationNs && args.len() == 1 ==> match args[0] {
        JVal::Str(x) => match crate::time::duration_ns(x) { Some(t) => if t <= i128::MAX { r is Ok && r.unwrap()@ == JVal::Int(t as int) } else { r == Err::<Json, BuiltinError>(BuiltinError::OutOfRange) }, None => r == Err::<Json, BuiltinError>(BuiltinError::Parse) },
        _ => r == Err::<Json, BuiltinError>(BuiltinError::ArgumentType(0)),
    }
    &&& b == Builtin::UrlqueryDecodeObject && args.len() == 1 ==> match args[0] {
        JVal::Str(x) => r is Ok && r.unwrap()@ is Object && forall|k: Seq<char>| #[trigger] crate::json::member(r.unwrap()@->Object_0, k) == if crate::urlquery::has_name(crate::urlquery::form_pairs(x), k) { Some(JVal::Array(crate::urlquery::values_of(crate::urlquery::form_pairs(x), k))) } else { None::<JVal> },
        _ => r == Err::<Json, BuiltinError>(BuiltinError::ArgumentType(0)),
    }
    &&& b == Builtin::UuidRfc4122 && args.len() == 1 ==> match args[0] {
        JVal::Str(x) => exists|rr: Result<String, BuiltinError>| #[trigger] crate::uuid::uuid_ensures(c0, c1, x, rr) && match rr { Ok(t) => r is Ok && r.unwrap()@ == JVal::Str(t@), Err(e) => r == Err::<Json, BuiltinError>(e) },
        _ => r == Err::<Json, BuiltinError>(BuiltinError::ArgumentType(0)),
    }
    &&& b == Builtin::UrlqueryEncodeObject && args.len() == 1 ==> match args[0] {
        JVal::Object(m) => match query_pairs(m) {
            Some(ps) => r is Ok && r.unwrap()@ == JVal::Str(crate::urlquery::form_serialized(ps)),
            None => r == Err::<Json, BuiltinError>(BuiltinError::ArgumentType(0)),
        },
        _ => r == Err::<Json, BuiltinError>(BuiltinError::ArgumentType(0)),
    }
    &&& b == Builtin::ObjectUnionN && args.len() == 1 ==> match args[0] {
        JVal::Array(v) => r is Ok && r.unwrap()@ == crate::object::union_all(v),
        _ => r == Err::<Json, BuiltinError>(BuiltinError::ArgumentType(0)),
    }
    &&& b == Builtin::RandIntn && args.len() == 2 ==> match (args[0], args[1]) {
        (JVal::Str(s), JVal::Int(n)) => i64::MIN <= n <= i64::MAX ==> exists|rr: Result<i64, BuiltinError>|
            #[trigger] crate::rand::intn_ensures(c0, c1, s, n as i64, rr) && match rr {
                Ok(x) => r is Ok && r.unwrap()@ == JVal::Int(x as int),
                Err(e) => r == Err::<Json, BuiltinError>(e),
            },
        (JVal::Str(_), _) => r == Err::<Json, BuiltinError>(BuiltinError::ArgumentType(1)),
        _ => r == Err::<Json, BuiltinError>(BuiltinError::ArgumentType(0)),
    }
}

/// Call the builtin `b` with the arguments `args`, decoded from and encoded
/// to JSON. Builtins that run on the host side are refused.
pub fn call<C: EvaluationContext>(b: Builtin, ctx: &mut C, args: Vec<Json>) -> (r: Result<Json, BuiltinError>)
    ensures
        call_ensures(b, *old(ctx), *final(ctx), jvals(args@), r),
{
    proof {
        crate::json::lemma_jvals(args@);
    }
    if args.len() != b.arity() {
        return Err(BuiltinError::InvalidArguments);
    }
    if b.runs_on_host() {
        return Err(BuiltinError::HostOnly);
    }
    let ghost a = args@;
    let mut args = args;
    match b {
        Builtin::Base64UrlEncodeNoPad => {
            let a0 = as_string(take_first(&mut args), 0)?;
            let v = crate::base64url::encode_no_pad(a0);
            Ok(Json::Str(v))
        },
        Builtin::CryptoHmacMd5 => {
            let a0 = as_string(take_first(&mut args), 0)?;
            let a1 = as_string(take_first(&mut args), 1)?;
            match crate::crypto::hmac::md5(a0, a1) {
                Ok(v) => Ok(Json::Str(v)),
                Err(e) => Err(e),
            }
        },
        Builtin::CryptoHmacSha1 => {
            let a0 = as_string(take_first(&mut args), 0)?;
            let a1 = as_string(take_first(&mut args), 1)?;
            match crate::crypto::hmac::sha1(a0, a1) {
                Ok(v) => Ok(Json::Str(v)),
                Err(e) => Err(e),
            }
        },
        Builtin::CryptoHmacSha256 => {
            let a0 = as_string(take_first(&mut args), 0)?;
            let a1 = as_string(take_first(&mut args), 1)?;
            match crate::crypto::hmac::sha256(a0, a1) {
                Ok(v) => Ok(Json::Str(v)),
                Err(e) => Err(e),
            }
        },
        Builtin::CryptoHmacSha512 => {
            let a0 = as_string(take_first(&mut args), 0)?;
            let a1 = as_string(take_first(&mut args), 1)?;
            match crate::crypto::hmac::sha512(a0, a1) {
                Ok(v) => Ok(Json::Str(v)),
                Err(e) => Err(e),
            }
        },
        Builtin::CryptoMd5 => {
            let a0 = as_string(take_first(&mut args), 0)?;
            let v = crate::crypto::digest::md5(a0);
            Ok(Json::Str(v))
        },
        Builtin::CryptoSha1 => {
            let a0 = as_string(take_first(&mut args), 0)?;
            let v = crate::crypto::digest::sha1(a0);
            Ok(Json::Str(v))
        },
        Builtin::CryptoSha256 => {
            let a0 = as_string(take_first(&mut args), 0)?;
            let v = crate::crypto::digest::sha256(a0);
            Ok(Json::Str(v))
        },
        Builtin::CryptoX509ParseAndVerifyCertificates => {
            let a0 = as_string(take_first(&mut args), 0)?;
            match crate::crypto::x509::parse_and_verify_certificates(a0) {
                Ok(_) => Ok(Json::Null),
                Err(e) => Err(e),
            }
        },
        Builtin::CryptoX509ParseCertificateRequest => {
            let a0 = as_string(take_first(&mut args), 0)?;
            match crate::crypto::x509::parse_certificate_request(a0) {
                Ok(_) => Ok(Json::Null),
                Err(e) => Err(e),
            }
        },
        Builtin::CryptoX509ParseCertificates => {
            let a0 = as_string(take_first(&mut args), 0)?;
            match crate::crypto::x509::parse_certificates(a0) {
                Ok(_) => Ok(Json::Null),
                Err(e) => Err(e),
            }
        },
        Builtin::CryptoX509ParseRsaPrivateKey => {
            let a0 = as_string(take_first(&mut args), 0)?;
            match crate::crypto::x509::parse_rsa_private_key(a0) {
                Ok(_) => Ok(Json::Null),
                Err(e) => Err(e),
            }
        },
        Builtin::GlobQuoteMeta => {
            let a0 = as_string(take_first(&mut args), 0)?;
            Ok(Json::Str(crate::glob::quote_meta(a0)))
        },
        Builtin::GraphReachablePaths => {
            let a0 = take_first(&mut args);
            let a1 = take_first(&mut args);
            match crate::misc::reachable_paths(a0, a1) {
                Ok(_) => Ok(Json::Null),
                Err(e) => Err(e),
            }
        },
        Builtin::GraphqlIsValid => {
            let a0 = as_string(take_first(&mut args), 0)?;
            let a1 = as_string(take_first(&mut args), 1)?;
            match crate::graphql::is_valid(a0, a1) {
                Ok(_) => Ok(Json::Null),
                Err(e) => Err(e),
            }
        },
        Builtin::GraphqlParse => {
            let a0 = as_string(take_first(&mut args), 0)?;
            let a1 = as_string(take_first(&mut args), 1)?;
            match crate::graphql::parse(a0, a1) {
                Ok(_) => Ok(Json::Null),
                Err(e) => Err(e),
            }
        },
        Builtin::GraphqlParseAndVerify => {
            let a0 = as_string(take_first(&mut args), 0)?;
            let a1 = as_string(take_first(&mut args), 1)?;
            match crate::graphql::parse_and_verify(a0, a1) {
                Ok(_) => Ok(Json::Null),
                Err(e) => Err(e),
            }
        },
        Builtin::GraphqlParseQuery => {
            let a0 = as_string(take_first(&mut args), 0)?;
            match crate::graphql::parse_query(a0) {
                Ok(_) => Ok(Json::Null),
                Err(e) => Err(e),
            }
        },
        Builtin::GraphqlParseSchema => {
            let a0 = as_string(take_first(&mut args), 0)?;
            match crate::graphql::parse_schema(a0) {
                Ok(_) => Ok(Json::Null),
                Err(e) => Err(e),
            }
        },
        Builtin::HexDecode => {
            let a0 = as_string(take_first(&mut args), 0)?;
            match crate::hex::decode(a0) {
                Ok(v) => Ok(Json::Str(v)),
                Err(e) => Err(e),
            }
        },
        Builtin::HexEncode => {
            let a0 = as_string(take_first(&mut args), 0)?;
            let v = crate::hex::encode(a0);
            Ok(Json::Str(v))
        },
        Builtin::HttpSend => {
            Err(BuiltinError::HostOnly)
        },
        Builtin::IndexofN => {
            let a0 = as_string(take_first(&mut args), 0)?;
            let a1 = as_string(take_first(&mut args), 1)?;
            match crate::misc::indexof_n(a0, a1) {
                Ok(_) => Ok(Json::Null),
                Err(e) => Err(e),
            }
        },
        Builtin::IoJwtDecode => {
            let a0 = as_string(take_first(&mut args), 0)?;
            match crate::io::jwt::decode(a0) {
                Ok(_) => Ok(Json::Null),
                Err(e) => Err(e),
            }
        },
        Builtin::IoJwtDecodeVerify => {
            let a0 = as_string(take_first(&mut args), 0)?;
            let a1 = as_members(take_first(&mut args), 1)?;
            match crate::io::jwt::decode_verify(a0, a1) {
                Ok(_) => Ok(Json::Null),
                Err(e) => Err(e),
            }
        },
        Builtin::IoJwtEncodeSign => {
            let a0 = take_first(&mut args);
            let a1 = take_first(&mut args);
            let a2 = take_first(&mut args);
            match crate::io::jwt::encode_sign(a0, a1, a2) {
                Ok(_) => Ok(Json::Null),
                Err(e) => Err(e),
            }
        },
        Builtin::IoJwtEncodeSignRaw => {
            let a0 = as_string(take_first(&mut args), 0)?;
            let a1 = as_string(take_first(&mut args), 1)?;
            let a2 = as_string(take_first(&mut args), 2)?;
            match crate::io::jwt::encode_sign_raw(a0, a1, a2) {
                Ok(_) => Ok(Json::Null),
                Err(e) => Err(e),
            }
        },
        Builtin::IoJwtVerifyEs256 => {
            let a0 = as_string(take_first(&mut args), 0)?;
            let a1 = as_string(take_first(&mut args), 1)?;
            match crate::io::jwt::verify_es256(a0, a1) {
                Ok(_) => Ok(Json::Null),
                Err(e) => Err(e),
            }
        },
        Builtin::IoJwtVerifyEs384 => {
            let a0 = as_string(take_first(&mut args), 0)?;
            let a1 = as_string(take_first(&mut args), 1)?;
            match crate::io::jwt::verify_es384(a0, a1) {
                Ok(_) => Ok(Json::Null),
                Err(e) => Err(e),
            }
        },
        Builtin::IoJwtVerifyEs512 => {
            let a0 = as_string(take_first(&mut args), 0)?;
            let a1 = as_string(take_first(&mut args), 1)?;
            match crate::io::jwt::verify_es512(a0, a1) {
                Ok(_) => Ok(Json::Null),
                Err(e) => Err(e),
            }
        },
        Builtin::IoJwtVerifyHs256 => {
            let a0 = as_string(take_first(&mut args), 0)?;
            let a1 = as_string(take_first(&mut args), 1)?;
            match crate::io::jwt::verify_hs256(a0, a1) {
                Ok(_) => Ok(Json::Null),
                Err(e) => Err(e),
            }
        },
        Builtin::IoJwtVerifyHs384 => {
            let a0 = as_string(take_first(&mut args), 0)?;
            let a1 = as_string(take_first(&mut args), 1)?;
            match crate::io::jwt::verify_hs384(a0, a1) {
                Ok(_) => Ok(Json::Null),
                Err(e) => Err(e),
            }
        },
        Builtin::IoJwtVerifyHs512 => {
            let a0 = as_string(take_first(&mut args), 0)?;
            let a1 = as_string(take_first(&mut args), 1)?;
            match crate::io::jwt::verify_hs512(a0, a1) {
                Ok(_) => Ok(Json::Null),
                Err(e) => Err(e),
            }
        },
        Builtin::IoJwtVerifyPs256 => {
            let a0 = as_string(take_first(&mut args), 0)?;
            let a1 = as_string(take_first(&mut args), 1)?;
            match crate::io::jwt::verify_ps256(a0, a1) {
                Ok(_) => Ok(Json::Null),
                Err(e) => Err(e),
            }
        },
        Builtin::IoJwtVerifyPs384 => {
            let a0 = as_string(take_first(&mut args), 0)?;
            let a1 = as_string(take_first(&mut args), 1)?;
            match crate::io::jwt::verify_ps384(a0, a1) {
                Ok(_) => Ok(Json::Null),
                Err(e) => Err(e),
            }
        },
        Builtin::IoJwtVerifyPs512 => {
            let a0 = as_string(take_first(&mut args), 0)?;
            let a1 = as_string(take_first(&mut args), 1)?;
            match crate::io::jwt::verify_ps512(a0, a1) {
                Ok(_) => Ok(Json::Null),
                Err(e) => Err(e),
            }
        },
        Builtin::IoJwtVerifyRs256 => {
            let a0 = as_string(take_first(&mut args), 0)?;
            let a1 = as_string(take_first(&mut args), 1)?;
            match crate::io::jwt::verify_rs256(a0, a1) {
                Ok(_) => Ok(Json::Null),
                Err(e) => Err(e),
            }
        },
        Builtin::IoJwtVerifyRs384 => {
            let a0 = as_string(take_first(&mut args), 0)?;
            let a1 = as_string(take_first(&mut args), 1)?;
            match crate::io::jwt::verify_rs384(a0, a1) {
                Ok(_) => Ok(Json::Null),
                Err(e) => Err(e),
            }
        },
        Builtin::IoJwtVerifyRs512 => {
            let a0 = as_string(take_first(&mut args), 0)?;
            let a1 = as_string(take_first(&mut args), 1)?;
            match crate::io::jwt::verify_rs512(a0, a1) {
                Ok(_) => Ok(Json::Null),
                Err(e) => Err(e),
            }
        },
        Builtin::JsonPatch => {
            Err(BuiltinError::HostOnly)
        },
        Builtin::NetCidrContainsMatches => {
            let a0 = take_first(&mut args);
            let a1 = take_first(&mut args);
            match crate::net::cidr_contains_matches(a0, a1) {
                Ok(_) => Ok(Json::Null),
                Err(e) => Err(e),
            }
        },
        Builtin::NetCidrExpand => {
            let a0 = as_string(take_first(&mut args), 0)?;
            match crate::net::cidr_expand(a0) {
                Ok(_) => Ok(Json::Null),
                Err(e) => Err(e),
            }
        },
        Builtin::NetCidrMerge => {
            let a0 = take_first(&mut args);
            match crate::net::cidr_merge(a0) {
                Ok(_) => Ok(Json::Null),
                Err(e) => Err(e),
            }
        },
        Builtin::NetLookupIpAddr => {
            let a0 = as_string(take_first(&mut args), 0)?;
            match crate::net::lookup_ip_addr(a0) {
                Ok(_) => Ok(Json::Null),
                Err(e) => Err(e),
            }
        },
        Builtin::ObjectUnionN => {
            let a0 = as_array(take_first(&mut args), 0)?;
            Ok(crate::object::union_n(a0))
        },
        Builtin::OpaRuntime => {
            Err(BuiltinError::HostOnly)
        },
        Builtin::RandIntn => {
            let ghost c0 = *ctx;
            let a0 = as_string(take_first(&mut args), 0)?;
            let a1 = as_i64(take_first(&mut args), 1)?;
            let rr = crate::rand::intn(ctx, a0, a1);
            proof {
                assert(crate::rand::intn_ensures(c0, *ctx, a[0]->Str_0@, a1, rr));
            }
            match rr {
                Ok(v) => Ok(Json::Int(v as i128)),
                Err(e) => Err(e),
            }
        },
        Builtin::RegexFindN => {
            let a0 = as_string(take_first(&mut args), 0)?;
            let a1 = as_string(take_first(&mut args), 1)?;
            let a2 = as_i32(take_first(&mut args), 2)?;
            match crate::regex::find_n(a0, a1, a2) {
                Ok(v) => {
                    proof {
                        lemma_str_vals(v@);
                    }
                    Ok(strings_json(v))
                },
                Err(e) => Err(e),
            }
        },
        Builtin::RegexGlobsMatch => {
            let a0 = as_string(take_first(&mut args), 0)?;
            let a1 = as_string(take_first(&mut args), 1)?;
            match crate::regex::globs_match(a0, a1) {
                Ok(v) => Ok(Json::Bool(v)),
                Err(e) => Err(e),
            }
        },
        Builtin::RegexSplit => {
            let a0 = as_string(take_first(&mut args), 0)?;
            let a1 = as_string(take_first(&mut args), 1)?;
            match crate::regex::split(a0, a1) {
                Ok(v) => {
                    proof {
                        lemma_str_vals(v@);
                    }
                    Ok(strings_json(v))
                },
                Err(e) => Err(e),
            }
        },
        Builtin::RegexTemplateMatch => {
            let a0 = as_string(take_first(&mut args), 0)?;
            let a1 = as_string(take_first(&mut args), 1)?;
            let a2 = as_string(take_first(&mut args), 2)?;
            let a3 = as_string(take_first(&mut args), 3)?;
            match crate::regex::template_match(a0, a1, a2, a3) {
                Ok(v) => Ok(Json::Bool(v)),
                Err(e) => Err(e),
            }
        },
        Builtin::RegexReplace => {
            let a0 = as_string(take_first(&mut args), 0)?;
            let a1 = as_string(take_first(&mut args), 1)?;
            let a2 = as_string(take_first(&mut args), 2)?;
            match crate::regex::replace(a0, a1, a2) {
                Ok(v) => Ok(Json::Str(v)),
                Err(e) => Err(e),
            }
        },
        Builtin::RegexMatch => {
            let a0 = as_string(take_first(&mut args), 0)?;
            let a1 = as_string(take_first(&mut args), 1)?;
            match crate::regex::regex_match(a0, a1) {
                Ok(v) => Ok(Json::Bool(v)),
                Err(e) => Err(e),
            }
        },
        Builtin::RegexIsValid => {
            let a0 = as_string(take_first(&mut args), 0)?;
            let v = crate::regex::is_valid(a0);
            Ok(Json::Bool(v))
        },
        Builtin::RegexFindAllStringSubmatchN => {
            let a0 = as_string(take_first(&mut args), 0)?;
            let a1 = as_string(take_first(&mut args), 1)?;
            let a2 = as_usize(take_first(&mut args), 2)?;
            match crate::regex::find_all_string_submatch_n(a0, a1, a2) {
                Ok(v) => {
                    proof {
                        lemma_row_vals(v@);
                    }
                    Ok(rows_json(v))
                },
                Err(e) => Err(e),
            }
        },
        Builtin::RegoParseModule => {
            let a0 = as_string(take_first(&mut args), 0)?;
            let a1 = as_string(take_first(&mut args), 1)?;
            match crate::misc::parse_module(a0, a1) {
                Ok(_) => Ok(Json::Null),
                Err(e) => Err(e),
            }
        },
        Builtin::SemverCompare => {
            let a0 = as_string(take_first(&mut args), 0)?;
            let a1 = as_string(take_first(&mut args), 1)?;
            match crate::semver::compare(a0, a1) {
                Ok(v) => Ok(Json::Int(v as i128)),
                Err(e) => Err(e),
            }
        },
        Builtin::SemverIsValid => {
            let a0 = as_string(take_first(&mut args), 0)?;
            let v = crate::semver::is_valid(a0);
            Ok(Json::Bool(v))
        },
        Builtin::Sprintf => {
            Err(BuiltinError::HostOnly)
        },
        Builtin::TimeAddDate => {
            let a0 = as_i64(take_first(&mut args), 0)?;
            let a1 = as_i32(take_first(&mut args), 1)?;
            let a2 = as_i32(take_first(&mut args), 2)?;
            let a3 = as_i64(take_first(&mut args), 3)?;
            match crate::time::add_date(a0, a1, a2, a3) {
                Ok(v) => Ok(Json::Int(v as i128)),
                Err(e) => Err(e),
            }
        },
        Builtin::TimeClock => {
            let a0 = as_timestamp(take_first(&mut args), 0)?;
            match crate::time::clock(a0) {
                Ok(v) => Ok(triple_json(v.0 as i128, v.1 as i128, v.2 as i128)),
                Err(e) => Err(e),
            }
        },
        Builtin::TimeDate => {
            let a0 = as_timestamp(take_first(&mut args), 0)?;
            match crate::time::date(a0) {
                Ok(v) => Ok(triple_json(v.0 as i128, v.1 as i128, v.2 as i128)),
                Err(e) => Err(e),
            }
        },
        Builtin::TimeDiff => {
            let a0 = take_first(&mut args);
            let a1 = take_first(&mut args);
            match crate::time::diff(a0, a1) {
                Ok(_) => Ok(Json::Null),
                Err(e) => Err(e),
            }
        },
        Builtin::TimeNowNs => {
            Ok(Json::Int(crate::time::now_ns(ctx) as i128))
        },
        Builtin::TimeParseDurationNs => {
            let a0 = as_string(take_first(&mut args), 0)?;
            match crate::time::parse_duration_ns(a0) {
                Ok(v) => if v <= i128::MAX as u128 {
                    Ok(Json::Int(v as i128))
                } else {
                    Err(BuiltinError::OutOfRange)
                },
                Err(e) => Err(e),
            }
        },
        Builtin::TimeParseNs => {
            let a0 = as_string(take_first(&mut args), 0)?;
            let a1 = as_string(take_first(&mut args), 1)?;
            match crate::time::parse_ns(a0, a1) {
                Ok(_) => Ok(Json::Null),
                Err(e) => Err(e),
            }
        },
        Builtin::TimeParseRfc3339Ns => {
            let a0 = as_string(take_first(&mut args), 0)?;
            match crate::time::parse_rfc3339_ns(a0) {
                Ok(v) => Ok(Json::Int(v as i128)),
                Err(e) => Err(e),
            }
        },
        Builtin::TimeWeekday => {
            let a0 = as_timestamp(take_first(&mut args), 0)?;
            match crate::time::weekday(a0) {
                Ok(v) => Ok(Json::Str(v.to_owned())),
                Err(e) => Err(e),
            }
        },
        Builtin::Trace => {
            let a0 = as_string(take_first(&mut args), 0)?;
            match crate::misc::trace(a0) {
                Ok(v) => Ok(Json::Bool(v)),
                Err(e) => Err(e),
            }
        },
        Builtin::UnitsParse => {
            Err(BuiltinError::HostOnly)
        },
        Builtin::UnitsParseBytes => {
            let a0 = as_string(take_first(&mut args), 0)?;
            match crate::units::parse_bytes(a0) {
                Ok(v) => Ok(Json::Int(v as i128)),
                Err(e) => Err(e),
            }
        },
        Builtin::UrlqueryDecode => {
            let a0 = as_string(take_first(&mut args), 0)?;
            match crate::urlquery::decode(a0) {
                Ok(v) => Ok(Json::Str(v)),
                Err(e) => Err(e),
            }
        },
        Builtin::UrlqueryDecodeObject => {
            let a0 = as_string(take_first(&mut args), 0)?;
            let v = crate::urlquery::decode_object(a0);
            Ok(v)
        },
        Builtin::UrlqueryEncode => {
            let a0 = as_string(take_first(&mut args), 0)?;
            let v = crate::urlquery::encode(a0);
            Ok(Json::Str(v))
        },
        Builtin::UrlqueryEncodeObject => {
            let a0 = as_query_object(take_first(&mut args), 0)?;
            Ok(Json::Str(crate::urlquery::encode_object(a0)))
        },
        Builtin::UuidRfc4122 => {
            let ghost c0 = *ctx;
            let a0 = as_string(take_first(&mut args), 0)?;
            let rr = crate::uuid::rfc4122(ctx, a0);
            proof {
                assert(crate::uuid::uuid_ensures(c0, *ctx, a[0]->Str_0@, rr));
            }
            match rr {
                Ok(v) => Ok(Json::Str(v)),
                Err(e) => Err(e),
            }
        },
        Builtin::YamlIsValid => {
            let a0 = as_string(take_first(&mut args), 0)?;
            let v = crate::yaml::is_valid(a0);
            Ok(Json::Bool(v))
        },
        Builtin::YamlMarshal => {
            Err(BuiltinError::HostOnly)
        },
        Builtin::YamlUnmarshal => {
            Err(BuiltinError::HostOnly)
        },
    }
}

/// Within one evaluation, `time.now_ns` returns the same value each time it is
/// called, whatever builtin calls come between.
pub proof fn lemma_clock_frozen<C: EvaluationContext>(
    c0: C,
    c1: C,
    c2: C,
    c3: C,
    b: Builtin,
    args: Seq<JVal>,
    r1: Result<Json, BuiltinError>,
    r2: Result<Json, BuiltinError>,
    r3: Result<Json, BuiltinError>,
)
    requires
        call_ensures(Builtin::TimeNowNs, c0, c1, Seq::empty(), r1),
        call_ensures(b, c1, c2, args, r2),
        call_ensures(Builtin::TimeNowNs, c2, c3, Seq::empty(), r3),
    ensures
        r1 is Ok && r3 is Ok && r1.unwrap()@ == r3.unwrap()@,
{
}

} // verus!