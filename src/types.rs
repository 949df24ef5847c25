//! Values exchanged with the guest module: addresses, heap allocations, error
//! codes and the ABI version.

use vstd::prelude::*;

verus! {

/// Size of one page of the guest's linear memory.
pub const PAGE_SIZE: i32 = 65536;

/// An entrypoint ID, as returned by the `entrypoints` export, and given to the
/// `opa_eval_ctx_set_entrypoint` export.
#[derive(Debug, Clone, Copy, PartialEq, Eq, Structural)]
pub struct EntrypointId(pub i32);

/// The ID of a builtin, as returned by the `builtins` export, and passed to the
/// `opa_builtin*` imports.
#[derive(Debug, Clone, Copy, PartialEq, Eq, Structural)]
pub struct BuiltinId(pub i32);

/// A value stored on the guest heap, as used by the `opa_value_*` exports.
#[derive(Debug, Clone, Copy, PartialEq, Eq, Structural)]
pub struct Value(pub i32);

/// A generic address in the guest memory.
#[derive(Debug, Clone, Copy, PartialEq, Eq, Structural)]
pub struct Addr(pub i32);

/// The address of an evaluation context, used by the `opa_eval_ctx_*` exports.
#[derive(Debug, Clone, Copy, PartialEq, Eq, Structural)]
pub struct Ctx(pub i32);

/// A heap allocation in the guest memory.
#[derive(Debug)]
pub struct Heap {
    /// The pointer to the start of the allocation.
    pub ptr: i32,
    /// The length of the allocation.
    pub len: i32,
    /// Whether the allocation has been handed back to the guest's free routine.
    pub freed: bool,
}

/// Number of pages needed to hold the addresses below `end`.
pub open spec fn pages_for(end: int) -> int {
    if end % (PAGE_SIZE as int) > 0 {
        end / (PAGE_SIZE as int) + 1
    } else {
        end / (PAGE_SIZE as int)
    }
}

impl Heap {
    /// The allocation lies at a non-negative address and ends inside the
    /// 32-bit address space.
    pub open spec fn well_formed(&self) -> bool {
        &&& 0 <= self.ptr
        &&& 0 <= self.len
        &&& self.ptr + self.len <= i32::MAX
    }

    /// The first address past the allocation.
    pub open spec fn spec_end(&self) -> int {
        self.ptr + self.len
    }

    /// A fresh allocation, not freed yet.
    pub fn new(ptr: i32, len: i32) -> (r: Heap)
        ensures
            r.ptr == ptr,
            r.len == len,
            !r.freed,
    {
        Heap { ptr, len, freed: false }
    }

    /// Get the end of the heap allocation.
    pub fn end(&self) -> (r: i32)
        requires
            self.well_formed(),
        ensures
            r == self.spec_end(),
    {
        self.ptr + self.len
    }

    /// Calculate the number of pages this heap allocation occupies.
    pub fn pages(&self) -> (r: u64)
        requires
            self.well_formed(),
        ensures
            r == pages_for(self.spec_end()),
            r as int * PAGE_SIZE >= self.spec_end(),
            r == 0 || (r as int - 1) * PAGE_SIZE < self.spec_end(),
    {
        let addr = self.end();
        let page = addr / PAGE_SIZE;
        let r: i32 = if addr % PAGE_SIZE > 0 { page + 1 } else { page };
        r as u64
    }

    /// Record that the allocation has been handed back to the guest.
    pub fn mark_freed(&mut self)
        ensures
            final(self).ptr == old(self).ptr,
            final(self).len == old(self).len,
            final(self).freed,
    {
        self.freed = true;
    }
}

/// A NUL-terminated string in the guest memory.
#[derive(Debug, Clone, Copy, PartialEq, Eq, Structural)]
pub struct NulStr(pub i32);

/// Why bytes could not be read from or written to the guest memory.
#[derive(Debug, Clone, Copy, PartialEq, Eq, Structural)]
pub enum MemoryError {
    /// The address is negative.
    InvalidAddress,
    /// The address lies past the end of the memory.
    OutOfBounds,
    /// No NUL byte ends the string before the end of the memory.
    Malformed,
    /// The bytes to write hold a NUL byte.
    InteriorNul,
}

/// `i` is the position of the first NUL byte of `mem` at or after `start`.
pub open spec fn first_nul_from(mem: Seq<u8>, start: int, i: int) -> bool {
    &&& start <= i < mem.len()
    &&& mem[i] == 0
    &&& forall|j: int| start <= j < i ==> mem[j] != 0
}

/// What reading a NUL-terminated string at `addr` of the memory `mem` gives:
/// the bytes from `addr` up to the first NUL byte, without it.
pub open spec fn cstr_at(mem: Seq<u8>, addr: i32) -> Result<Seq<u8>, MemoryError> {
    if addr < 0 {
        Err(MemoryError::InvalidAddress)
    } else if addr > mem.len() {
        Err(MemoryError::OutOfBounds)
    } else if exists|i: int| first_nul_from(mem, addr as int, i) {
        Ok(mem.subrange(addr as int, choose|i: int| first_nul_from(mem, addr as int, i)))
    } else {
        Err(MemoryError::Malformed)
    }
}

impl NulStr {
    /// Read the NUL-terminated string from the guest memory `mem`.
    pub fn read(&self, mem: &[u8]) -> (r: Result<Vec<u8>, MemoryError>)
        ensures
            r matches Ok(b) ==> cstr_at(mem@, self.0) == Ok::<Seq<u8>, MemoryError>(b@),
            r matches Err(e) ==> cstr_at(mem@, self.0) == Err::<Seq<u8>, MemoryError>(e),
    {
        if self.0 < 0 {
            return Err(MemoryError::InvalidAddress);
        }
        let start = self.0 as usize;
        if start > mem.len() {
            return Err(MemoryError::OutOfBounds);
        }
        let mut out: Vec<u8> = Vec::new();
        let mut i = start;
        while i < mem.len()
            invariant
                start <= i <= mem@.len(),
                start == self.0,
                out@ == mem@.subrange(start as int, i as int),
                forall|j: int| start <= j < i ==> mem@[j] != 0,
            decreases mem.len() - i,
        {
            if mem[i] == 0 {
                proof {
                    assert(first_nul_from(mem@, start as int, i as int));
                    let c = choose|c: int| first_nul_from(mem@, start as int, c);
                    if c < i {
                        assert(mem@[c] != 0);
                    } else if c > i {
                        assert(mem@[i as int] != 0);
                    }
                }
                return Ok(out);
            }
            out.push(mem[i]);
            i = i + 1;
            assert(out@ =~= mem@.subrange(start as int, i as int));
        }
        Err(MemoryError::Malformed)
    }
}

/// `b` followed by one NUL byte, where `b` holds none.
pub open spec fn nul_terminated(b: Seq<u8>) -> Result<Seq<u8>, MemoryError> {
    if exists|i: int| 0 <= i < b.len() && b[i] == 0 {
        Err(MemoryError::InteriorNul)
    } else {
        Ok(b.push(0))
    }
}

/// Append the NUL byte that ends a string in the guest memory, checking that
/// the bytes hold none already.
pub fn with_nul(b: Vec<u8>) -> (r: Result<Vec<u8>, MemoryError>)
    ensures
        r matches Ok(v) ==> nul_terminated(b@) == Ok::<Seq<u8>, MemoryError>(v@),
        r matches Err(e) ==> nul_terminated(b@) == Err::<Seq<u8>, MemoryError>(e),
{
    let mut i: usize = 0;
    while i < b.len()
        invariant
            i <= b.len(),
            forall|j: int| 0 <= j < i ==> b@[j] != 0,
        decreases b.len() - i,
    {
        if b[i] == 0 {
            return Err(MemoryError::InteriorNul);
        }
        i = i + 1;
    }
    let mut v = b;
    v.push(0);
    Ok(v)
}

/// An error returned by the guest module.
#[derive(Debug, Clone, Copy, PartialEq, Eq, Structural)]
pub enum OpaError {
    /// Unrecoverable internal error.
    Internal,
    /// Invalid value type was encountered.
    InvalidType,
    /// Invalid object path reference.
    InvalidPath,
    /// Unrecognized error code.
    Other(i32),
}

/// What a status code returned by the value-mutating exports means.
pub open spec fn code_meaning(code: i32) -> Result<(), OpaError> {
    if code == 0 {
        Ok(())
    } else if code == 1 {
        Err(OpaError::Internal)
    } else if code == 2 {
        Err(OpaError::InvalidType)
    } else if code == 3 {
        Err(OpaError::InvalidPath)
    } else {
        Err(OpaError::Other(code))
    }
}

impl OpaError {
    /// Convert a status code to an `OpaError`.
    pub fn from_code(code: i32) -> (r: Result<(), OpaError>)
        ensures
            r == code_meaning(code),
    {
        match code {
            0 => Ok(()),
            1 => Err(OpaError::Internal),
            2 => Err(OpaError::InvalidType),
            3 => Err(OpaError::InvalidPath),
            x => Err(OpaError::Other(x)),
        }
    }
}

/// The ABI version of a compiled policy module.
#[derive(Debug, Clone, Copy, PartialEq, Eq, Structural)]
pub enum AbiVersion {
    /// Version 1.0
    V1_0,
    /// Version 1.1
    V1_1,
    /// Version 1.2
    V1_2,
    /// Version >1.2, <2.0
    V1_2Plus(i32),
}

/// The ABI version numbers `major.minor` that this host does not support.
#[derive(Debug, Clone, Copy, PartialEq, Eq, Structural)]
pub struct UnsupportedAbi {
    /// The major version number that the module advertised.
    pub major: i32,
    /// The minor version number that the module advertised.
    pub minor: i32,
}

/// The ABI version that the numbers `major.minor` stand for, if supported.
pub open spec fn abi_of(major: i32, minor: i32) -> Option<AbiVersion> {
    if major != 1 || minor < 0 {
        None
    } else if minor == 0 {
        Some(AbiVersion::V1_0)
    } else if minor == 1 {
        Some(AbiVersion::V1_1)
    } else if minor == 2 {
        Some(AbiVersion::V1_2)
    } else {
        Some(AbiVersion::V1_2Plus(minor))
    }
}

impl AbiVersion {
    /// Whether this version offers the `opa_eval` fast path.
    pub open spec fn spec_has_eval_fastpath(self) -> bool {
        self is V1_2 || self is V1_2Plus
    }

    /// Create an ABI version out of the major and minor version numbers.
    pub fn new(major: i32, minor: i32) -> (r: Result<AbiVersion, UnsupportedAbi>)
        ensures
            abi_of(major, minor) is Some ==> r == Ok::<AbiVersion, UnsupportedAbi>(
                abi_of(major, minor).unwrap(),
            ),
            abi_of(major, minor) is None ==> r == Err::<AbiVersion, UnsupportedAbi>(
                UnsupportedAbi { major, minor },
            ),
    {
        if major != 1 || minor < 0 {
            Err(UnsupportedAbi { major, minor })
        } else if minor == 0 {
            Ok(AbiVersion::V1_0)
        } else if minor == 1 {
            Ok(AbiVersion::V1_1)
        } else if minor == 2 {
            Ok(AbiVersion::V1_2)
        } else {
            Ok(AbiVersion::V1_2Plus(minor))
        }
    }

    /// Check if this ABI version has support for the `eval` fast path.
    pub fn has_eval_fastpath(self) -> (r: bool)
        ensures
            r == self.spec_has_eval_fastpath(),
    {
        match self {
            AbiVersion::V1_2 | AbiVersion::V1_2Plus(_) => true,
            _ => false,
        }
    }
}

} // verus!
