//! Builtins related to the current OPA environment.

use vstd::prelude::*;
use crate::json::{Json, JVal, jmembers, member, put_member};
use crate::http::last_header;

verus! {

/// Metadata about the OPA runtime.
#[derive(Debug)]
pub struct Runtime {
    /// The environment variables of the process, as names and values.
    pub env: Vec<(String, String)>,
    /// The version of the OPA runtime: empty.
    pub version: String,
    /// The commit of the OPA runtime: empty.
    pub commit: String,
}

/// Returns an object that describes the runtime environment, given the
/// process's environment variables as names and values.
pub fn runtime(env: Vec<(String, String)>) -> (r: Runtime)
    ensures
        r.env@ == env@,
        r.version@.len() == 0,
        r.commit@.len() == 0,
{
    Runtime { env, version: String::new(), commit: String::new() }
}

impl Runtime {
    /// The JSON object `{"env": {...}, "version": ..., "commit": ...}`.
    pub fn to_json(&self) -> (r: Json)
        ensures
            r@ is Object,
            member(r@->Object_0, "version"@) == Some(JVal::Str(self.version@)),
            member(r@->Object_0, "commit"@) == Some(JVal::Str(self.commit@)),
            member(r@->Object_0, "env"@) matches Some(JVal::Object(e)) && forall|n: Seq<char>| #[trigger] member(e, n) == match last_header(self.env@, n) {
                Some(v) => Some(JVal::Str(v)),
                None => None::<JVal>,
            },
    {
        let mut env: Vec<(String, Json)> = Vec::new();
        let mut i: usize = 0;
        proof {
            assert(jmembers(env@) =~= Seq::<(Seq<char>, JVal)>::empty());
            assert(self.env@.take(0) =~= Seq::<(String, String)>::empty());
        }
        while i < self.env.len()
            invariant
                i <= self.env.len(),
                forall|n: Seq<char>| #[trigger] member(jmembers(env@), n) == match last_header(self.env@.take(i as int), n) {
                    Some(v) => Some(JVal::Str(v)),
                    None => None::<JVal>,
                },
            decreases self.env.len() - i,
        {
            put_member(&mut env, self.env[i].0.clone(), Json::Str(self.env[i].1.clone()));
            proof {
                assert(self.env@.take(i as int + 1).drop_last() =~= self.env@.take(i as int));
            }
            i = i + 1;
        }
        assert(self.env@.take(i as int) =~= self.env@);
        assert forall|n: Seq<char>| #[trigger] member(jmembers(env@), n) == match last_header(self.env@, n) {
            Some(v) => Some(JVal::Str(v)),
            None => None::<JVal>,
        } by {
            assert(member(jmembers(env@), n) == match last_header(self.env@.take(i as int), n) {
                Some(v) => Some(JVal::Str(v)),
                None => None::<JVal>,
            });
        }
        let mut obj: Vec<(String, Json)> = Vec::new();
        proof {
            reveal_strlit("env");
            reveal_strlit("version");
            reveal_strlit("commit");
            assert("env"@ != "version"@) by {
                assert("env"@.len() != "version"@.len());
            }
            assert("env"@ != "commit"@) by {
                assert("env"@.len() != "commit"@.len());
            }
            assert("version"@ != "commit"@) by {
                assert("version"@.len() != "commit"@.len());
            }
        }
        let ghost ev = Json::Object(env)@;
        assert(ev == JVal::Object(jmembers(env@)));
        put_member(&mut obj, "env".to_owned(), Json::Object(env));
        put_member(&mut obj, "version".to_owned(), Json::Str(self.version.clone()));
        assert(member(jmembers(obj@), "env"@) == Some(ev));
        put_member(&mut obj, "commit".to_owned(), Json::Str(self.commit.clone()));
        assert(member(jmembers(obj@), "env"@) == Some(ev));
        assert(member(jmembers(obj@), "version"@) == Some(JVal::Str(self.version@)));
        let ghost om = obj@;
        let r = Json::Object(obj);
        assert(r@ == JVal::Object(jmembers(om)));
        r
    }
}

} // verus!
