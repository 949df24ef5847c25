//! A prepared policy: the ABI version, the entrypoints and the builtins that
//! a module reports, and the plan of each evaluation. The host carries the
//! plan out against the guest.

use vstd::prelude::*;
use crate::builtins::{Builtin, builtin_name, resolve, str_eq};
use crate::types::{AbiVersion, Addr, BuiltinId, EntrypointId, Heap, UnsupportedAbi, Value, abi_of, pages_for};

verus! {

broadcast use vstd::std_specs::vec::group_vec_axioms, vstd::seq::group_seq_axioms;

/// Why a module cannot be prepared.
#[derive(Debug)]
pub enum RuntimeError {
    /// The module advertises an ABI version that this host does not support.
    Abi(UnsupportedAbi),
    /// The module imports a builtin that the registry does not know.
    UnknownBuiltin(String),
}

/// Why an evaluation cannot be planned.
#[derive(Debug, PartialEq, Eq)]
pub enum EvalError {
    /// No entrypoint has the name.
    UnknownEntrypoint,
    /// The input does not fit in the guest's address space.
    InputTooLong,
}

/// A module with its ABI version, entrypoints and builtins resolved.
#[derive(Debug)]
pub struct Runtime {
    version: AbiVersion,
    entrypoints: Vec<(String, EntrypointId)>,
    builtins: Vec<(BuiltinId, String, Builtin)>,
}

/// The names and IDs of the pairs `v`.
pub open spec fn named_ids(v: Seq<(String, i32)>) -> Seq<(Seq<char>, i32)> {
    v.map_values(|p: (String, i32)| (p.0@, p.1))
}

/// Some builtin of the registry has the name `n`.
pub open spec fn name_known(n: Seq<char>) -> bool {
    exists|b: Builtin| builtin_name(b) == n
}

/// The loaded builtin `l` is the one the module's pair `b` names.
pub open spec fn loaded_entry_matches(l: (BuiltinId, String, Builtin), b: (String, i32)) -> bool {
    l.0.0 == b.1 && l.1@ == b.0@ && builtin_name(l.2) == b.0@
}

/// The first `n` loaded builtins are those the first `n` pairs name.
pub open spec fn loaded_matches(l: Seq<(BuiltinId, String, Builtin)>, bs: Seq<(String, i32)>, n: int) -> bool {
    &&& l.len() == n
    &&& forall|j: int| 0 <= j < n ==> #[trigger] loaded_entry_matches(l[j], bs[j])
}

impl Runtime {
    /// The ABI version.
    pub closed spec fn spec_version(&self) -> AbiVersion {
        self.version
    }

    /// The entrypoints, as names and IDs.
    pub closed spec fn spec_entrypoints(&self) -> Seq<(Seq<char>, i32)> {
        self.entrypoints@.map_values(|p: (String, EntrypointId)| (p.0@, p.1.0))
    }

    /// The builtins, as IDs, names and the builtin each name resolves to.
    pub closed spec fn spec_builtins(&self) -> Seq<(i32, Seq<char>, Builtin)> {
        self.builtins@.map_values(|p: (BuiltinId, String, Builtin)| (p.0.0, p.1@, p.2))
    }

    /// Every builtin is the one its name resolves to.
    pub closed spec fn well_formed(&self) -> bool {
        forall|i: int| 0 <= i < self.builtins@.len() ==> builtin_name(#[trigger] self.builtins@[i].2) == self.builtins@[i].1@
    }

    /// Prepare a module from the ABI version numbers it advertises, the
    /// `{name: id}` map of the builtins it imports and that of its
    /// entrypoints. Every builtin name must be known to the registry.
    pub fn new(
        abi_major: i32,
        abi_minor: i32,
        builtins: Vec<(String, i32)>,
        entrypoints: Vec<(String, i32)>,
    ) -> (r: Result<Runtime, RuntimeError>)
        ensures
            abi_of(abi_major, abi_minor) is None ==> (r matches Err(RuntimeError::Abi(u)) && u == (UnsupportedAbi { major: abi_major, minor: abi_minor })),
            r matches Ok(rt) ==> {
                &&& abi_of(abi_major, abi_minor) == Some(rt.spec_version())
                &&& rt.well_formed()
                &&& rt.spec_entrypoints() == named_ids(entrypoints@)
                &&& rt.spec_builtins().len() == builtins@.len()
                &&& forall|i: int| 0 <= i < builtins@.len() ==> #[trigger] rt.spec_builtins()[i].0 == builtins@[i].1 && rt.spec_builtins()[i].1 == builtins@[i].0@
            },
            r matches Err(RuntimeError::UnknownBuiltin(n)) ==> abi_of(abi_major, abi_minor) is Some && exists|i: int| 0 <= i < builtins@.len() && builtins@[i].0@ == n@ && forall|b: Builtin| builtin_name(b) != n@,
            r matches Ok(rt) ==> forall|i: int| 0 <= i < builtins@.len() ==> #[trigger] builtin_name(rt.spec_builtins()[i].2) == builtins@[i].0@,
            abi_of(abi_major, abi_minor) is Some && (forall|i: int| 0 <= i < builtins@.len() ==> #[trigger] name_known(builtins@[i].0@)) ==> r is Ok,
            abi_of(abi_major, abi_minor) is Some && (exists|i: int| 0 <= i < builtins@.len() && !#[trigger] name_known(builtins@[i].0@)) ==> r is Err && r->Err_0 is UnknownBuiltin,
    {
        let version = match AbiVersion::new(abi_major, abi_minor) {
            Ok(v) => v,
            Err(e) => {
                return Err(RuntimeError::Abi(e));
            },
        };
        let ghost bs = builtins@;
        let mut loaded: Vec<(BuiltinId, String, Builtin)> = Vec::new();
        let mut i: usize = 0;
        while i < builtins.len()
            invariant
                i <= builtins.len(),
                bs == builtins@,
                abi_of(abi_major, abi_minor) == Some(version),
                loaded_matches(loaded@, bs, i as int),
            decreases builtins.len() - i,
        {
            let name = builtins[i].0.clone();
            match resolve(name.as_str()) {
                Ok(b) => {
                    let ghost before = loaded@;
                    let ghost nv = name@;
                    assert(nv == bs[i as int].0@);
                    loaded.push((BuiltinId(builtins[i].1), name, b));
                    proof {
                        assert(loaded@[i as int].1@ == nv);
                        assert forall|j: int| 0 <= j < i + 1 implies #[trigger] loaded_entry_matches(loaded@[j], bs[j]) by {
                            if j < i {
                                assert(loaded@[j] == before[j]);
                            }
                        }
                        assert(loaded_matches(loaded@, bs, i + 1));
                    }
                },
                Err(_) => {
                    proof {
                        assert(forall|b: Builtin| builtin_name(b) != bs[i as int].0@);
                        assert(!name_known(bs[i as int].0@));
                    }
                    return Err(RuntimeError::UnknownBuiltin(name));
                },
            }
            i = i + 1;
        }
        let mut eps: Vec<(String, EntrypointId)> = Vec::new();
        let mut j: usize = 0;
        while j < entrypoints.len()
            invariant
                j <= entrypoints.len(),
                eps@.len() == j,
                forall|k: int| 0 <= k < j ==> #[trigger] eps@[k].0@ == entrypoints@[k].0@ && eps@[k].1.0 == entrypoints@[k].1,
            decreases entrypoints.len() - j,
        {
            eps.push((entrypoints[j].0.clone(), EntrypointId(entrypoints[j].1)));
            j = j + 1;
        }
        let rt = Runtime { version, entrypoints: eps, builtins: loaded };
        proof {
            assert forall|k: int| 0 <= k < rt.builtins@.len() implies builtin_name(#[trigger] rt.builtins@[k].2) == rt.builtins@[k].1@ by {
                assert(loaded_entry_matches(rt.builtins@[k], bs[k]));
            }
            assert(rt.well_formed());
            assert(rt.spec_entrypoints() =~= named_ids(entrypoints@));
            assert(rt.spec_builtins().len() == builtins@.len());
            assert forall|k: int| 0 <= k < builtins@.len() implies #[trigger] rt.spec_builtins()[k].0 == builtins@[k].1 && rt.spec_builtins()[k].1 == builtins@[k].0@ by {
                assert(rt.spec_builtins()[k] == (rt.builtins@[k].0.0, rt.builtins@[k].1@, rt.builtins@[k].2));
                assert(loaded_entry_matches(rt.builtins@[k], bs[k]));
            }
            assert forall|k: int| 0 <= k < builtins@.len() implies #[trigger] builtin_name(rt.spec_builtins()[k].2) == builtins@[k].0@ by {
                assert(rt.spec_builtins()[k] == (rt.builtins@[k].0.0, rt.builtins@[k].1@, rt.builtins@[k].2));
                assert(loaded_entry_matches(rt.builtins@[k], bs[k]));
            }
            assert forall|k: int| 0 <= k < builtins@.len() implies #[trigger] name_known(builtins@[k].0@) by {
                assert(loaded_entry_matches(rt.builtins@[k], bs[k]));
            }
        }
        Ok(rt)
    }

    /// Get the ABI version detected for this module.
    pub fn abi_version(&self) -> (r: AbiVersion)
        ensures
            r == self.spec_version(),
    {
        self.version
    }

    /// Get the names of the entrypoints of this module.
    pub fn entrypoints(&self) -> (r: Vec<String>)
        ensures
            r@.len() == self.spec_entrypoints().len(),
            forall|i: int| 0 <= i < r@.len() ==> #[trigger] r@[i]@ == self.spec_entrypoints()[i].0,
    {
        let mut out: Vec<String> = Vec::new();
        let mut i: usize = 0;
        while i < self.entrypoints.len()
            invariant
                i <= self.entrypoints.len(),
                out@.len() == i,
                forall|j: int| 0 <= j < i ==> #[trigger] out@[j]@ == self.entrypoints@[j].0@,
            decreases self.entrypoints.len() - i,
        {
            out.push(self.entrypoints[i].0.clone());
            i = i + 1;
        }
        out
    }

    /// Get the default entrypoint of this module: the first one with ID 0,
    /// if there is one.
    pub fn default_entrypoint(&self) -> (r: Option<&str>)
        ensures
            r matches Some(n) ==> exists|i: int| 0 <= i < self.spec_entrypoints().len() && #[trigger] self.spec_entrypoints()[i] == (n@, 0i32),
            r is None ==> forall|i: int| 0 <= i < self.spec_entrypoints().len() ==> #[trigger] self.spec_entrypoints()[i].1 != 0,
    {
        let mut i: usize = 0;
        while i < self.entrypoints.len()
            invariant
                i <= self.entrypoints.len(),
                forall|j: int| 0 <= j < i ==> #[trigger] self.spec_entrypoints()[j].1 != 0,
            decreases self.entrypoints.len() - i,
        {
            if self.entrypoints[i].1.0 == 0 {
                assert(self.spec_entrypoints()[i as int] == (self.entrypoints@[i as int].0@, 0i32));
                return Some(self.entrypoints[i].0.as_str());
            }
            i = i + 1;
        }
        None
    }

    /// Look up an entrypoint by name.
    pub fn entrypoint_id(&self, name: &str) -> (r: Option<EntrypointId>)
        ensures
            r matches Some(id) ==> exists|i: int| 0 <= i < self.spec_entrypoints().len() && #[trigger] self.spec_entrypoints()[i] == (name@, id.0),
            r is None ==> forall|i: int| 0 <= i < self.spec_entrypoints().len() ==> #[trigger] self.spec_entrypoints()[i].0 != name@,
    {
        let mut i: usize = 0;
        while i < self.entrypoints.len()
            invariant
                i <= self.entrypoints.len(),
                forall|j: int| 0 <= j < i ==> #[trigger] self.spec_entrypoints()[j].0 != name@,
            decreases self.entrypoints.len() - i,
        {
            if str_eq(self.entrypoints[i].0.as_str(), name) {
                assert(self.spec_entrypoints()[i as int] == (name@, self.entrypoints@[i as int].1.0));
                return Some(self.entrypoints[i].1);
            }
            i = i + 1;
        }
        None
    }

    /// Look up a builtin by the ID the module gave it.
    pub fn builtin(&self, id: i32) -> (r: Option<Builtin>)
        ensures
            r matches Some(b) ==> exists|i: int| 0 <= i < self.spec_builtins().len() && #[trigger] self.spec_builtins()[i].0 == id && self.spec_builtins()[i].2 == b,
            r is None ==> forall|i: int| 0 <= i < self.spec_builtins().len() ==> #[trigger] self.spec_builtins()[i].0 != id,
    {
        let mut i: usize = 0;
        while i < self.builtins.len()
            invariant
                i <= self.builtins.len(),
                forall|j: int| 0 <= j < i ==> #[trigger] self.spec_builtins()[j].0 != id,
            decreases self.builtins.len() - i,
        {
            if self.builtins[i].0.0 == id {
                assert(self.spec_builtins()[i as int].0 == id);
                return Some(self.builtins[i].2);
            }
            i = i + 1;
        }
        None
    }

    /// The names of the exports the module must have; `opa_eval` is among
    /// them exactly where the ABI version offers the fast path.
    pub fn required_exports(&self) -> (r: Vec<&'static str>)
        ensures
            r@.len() == if self.spec_version().spec_has_eval_fastpath() { 17nat } else { 16nat },
            self.spec_version().spec_has_eval_fastpath() ==> r@.last()@ == "opa_eval"@,
    {
        let mut v: Vec<&'static str> = Vec::new();
        v.push("eval");
        v.push("builtins");
        v.push("entrypoints");
        v.push("opa_eval_ctx_new");
        v.push("opa_eval_ctx_set_input");
        v.push("opa_eval_ctx_set_data");
        v.push("opa_eval_ctx_set_entrypoint");
        v.push("opa_eval_ctx_get_result");
        v.push("opa_malloc");
        v.push("opa_free");
        v.push("opa_json_parse");
        v.push("opa_json_dump");
        v.push("opa_heap_ptr_get");
        v.push("opa_heap_ptr_set");
        v.push("opa_value_parse");
        v.push("opa_value_dump");
        if self.version.has_eval_fastpath() {
            v.push("opa_eval");
        }
        v
    }

    /// Instantiate the policy with the `data` document, which the guest has
    /// loaded as `data`, and the heap pointer read right after.
    pub fn with_data(self, data: Value, heap_ptr: Addr) -> (r: Policy)
        ensures
            r.runtime == self,
            r.data == data,
            r.heap_ptr == heap_ptr,
    {
        Policy { runtime: self, data, heap_ptr }
    }
}

/// A runtime with its `data` document loaded, ready to be evaluated.
#[derive(Debug)]
pub struct Policy {
    /// The prepared module.
    pub runtime: Runtime,
    /// The loaded `data` document.
    pub data: Value,
    /// The heap pointer right after `data` was loaded: each evaluation starts
    /// from it.
    pub heap_ptr: Addr,
}

/// The guest operations of one evaluation.
#[derive(Debug, PartialEq, Eq)]
pub enum EvalPlan {
    /// Grow the memory by `grow_pages` pages, write the input's JSON text at
    /// `input_addr`, then call `opa_eval(0, entrypoint, data, input_addr,
    /// input_len, heap_ptr, 0)` and read the NUL-terminated result it
    /// returns.
    FastPath {
        grow_pages: u64,
        entrypoint: EntrypointId,
        data: Value,
        input_addr: i32,
        input_len: i32,
        heap_ptr: i32,
    },
    /// Set the heap pointer to `rewind_to`, load the input, make an
    /// evaluation context, set its data, input and entrypoint, call `eval`,
    /// and dump the result.
    Classic {
        rewind_to: Addr,
        entrypoint: EntrypointId,
        data: Value,
    },
}

/// The heap pointer from which an evaluation starts.
pub open spec fn start_heap(p: EvalPlan) -> int {
    match p {
        EvalPlan::FastPath { input_addr, .. } => input_addr as int,
        EvalPlan::Classic { rewind_to, .. } => rewind_to.0 as int,
    }
}

/// What planning an evaluation of `policy` at the entrypoint named `name`,
/// with an input of `input_len` bytes and a memory of `current_pages` pages,
/// gives.
pub open spec fn plan_ensures(policy: Policy, name: Seq<char>, input_len: usize, current_pages: u64, r: Result<EvalPlan, EvalError>) -> bool {
    let eps = policy.runtime.spec_entrypoints();
    &&& (forall|i: int| 0 <= i < eps.len() ==> eps[i].0 != name) ==> r == Err::<EvalPlan, EvalError>(EvalError::UnknownEntrypoint)
    &&& r matches Ok(p) ==> match p {
        EvalPlan::FastPath { grow_pages, entrypoint, data, input_addr, input_len: n, heap_ptr } => {
            &&& policy.runtime.spec_version().spec_has_eval_fastpath()
            &&& exists|i: int| 0 <= i < eps.len() && eps[i] == (name, entrypoint.0)
            &&& data == policy.data
            &&& input_addr == policy.heap_ptr.0
            &&& n == input_len
            &&& heap_ptr == policy.heap_ptr.0 + input_len
            &&& grow_pages == if current_pages < pages_for(heap_ptr as int) { pages_for(heap_ptr as int) - current_pages } else { 0 }
        },
        EvalPlan::Classic { rewind_to, entrypoint, data } => {
            &&& !policy.runtime.spec_version().spec_has_eval_fastpath()
            &&& exists|i: int| 0 <= i < eps.len() && eps[i] == (name, entrypoint.0)
            &&& data == policy.data
            &&& rewind_to == policy.heap_ptr
        },
    }
    &&& r == Err::<EvalPlan, EvalError>(EvalError::InputTooLong) ==> policy.runtime.spec_version().spec_has_eval_fastpath()
        && policy.heap_ptr.0 + input_len > i32::MAX
    &&& (exists|i: int| 0 <= i < eps.len() && eps[i].0 == name) && (!policy.runtime.spec_version().spec_has_eval_fastpath()
        || policy.heap_ptr.0 + input_len <= i32::MAX) ==> r is Ok
}

impl Policy {
    /// Plan an evaluation at the entrypoint named `entrypoint`, with an input
    /// whose JSON text has `input_len` bytes, on a memory of `current_pages`
    /// pages. On the fast path the input is written at the saved heap pointer
    /// and the memory grows first where it is too small; on the classic path
    /// the heap is first rewound to the saved pointer.
    pub fn plan_evaluation(&self, entrypoint: &str, input_len: usize, current_pages: u64) -> (r: Result<EvalPlan, EvalError>)
        requires
            self.heap_ptr.0 >= 0,
        ensures
            plan_ensures(*self, entrypoint@, input_len, current_pages, r),
    {
        let id = match self.runtime.entrypoint_id(entrypoint) {
            Some(id) => id,
            None => {
                return Err(EvalError::UnknownEntrypoint);
            },
        };
        if self.runtime.version.has_eval_fastpath() {
            if input_len > (i32::MAX - self.heap_ptr.0) as usize {
                return Err(EvalError::InputTooLong);
            }
            let len = input_len as i32;
            let heap = Heap::new(self.heap_ptr.0, len);
            let needed = heap.pages();
            let grow = if current_pages < needed { needed - current_pages } else { 0 };
            Ok(EvalPlan::FastPath {
                grow_pages: grow,
                entrypoint: id,
                data: self.data,
                input_addr: self.heap_ptr.0,
                input_len: len,
                heap_ptr: heap.end(),
            })
        } else {
            Ok(EvalPlan::Classic { rewind_to: self.heap_ptr, entrypoint: id, data: self.data })
        }
    }
}

/// Two successive evaluations of the same policy both start from the heap
/// pointer saved after `data` was loaded: the classic path rewinds the heap to
/// it, and the fast path writes its input there.
pub proof fn lemma_heap_rewind(
    policy: Policy,
    name1: Seq<char>,
    len1: usize,
    pages1: u64,
    plan1: EvalPlan,
    name2: Seq<char>,
    len2: usize,
    pages2: u64,
    plan2: EvalPlan,
)
    requires
        plan_ensures(policy, name1, len1, pages1, Ok(plan1)),
        plan_ensures(policy, name2, len2, pages2, Ok(plan2)),
    ensures
        start_heap(plan1) == policy.heap_ptr.0,
        start_heap(plan2) == policy.heap_ptr.0,
{
}

} // verus!
