use opa_wasm::types::{
    with_nul, AbiVersion, Heap, MemoryError, NulStr, OpaError, UnsupportedAbi,
};

#[test]
fn heap_end_and_pages() {
    assert_eq!(Heap::new(0, 0).pages(), 0);
    assert_eq!(Heap::new(0, 65536).pages(), 1);
    assert_eq!(Heap::new(65536, 1).pages(), 2);
    assert_eq!(Heap::new(100, 20).end(), 120);
    assert_eq!(Heap::new(100, 20).pages(), 1);
}

#[test]
fn heap_mark_freed() {
    let mut h = Heap::new(8, 4);
    assert!(!h.freed);
    h.mark_freed();
    assert!(h.freed);
    assert_eq!(h.ptr, 8);
    assert_eq!(h.len, 4);
}

#[test]
fn opa_error_codes() {
    assert_eq!(OpaError::from_code(0), Ok(()));
    assert_eq!(OpaError::from_code(1), Err(OpaError::Internal));
    assert_eq!(OpaError::from_code(2), Err(OpaError::InvalidType));
    assert_eq!(OpaError::from_code(3), Err(OpaError::InvalidPath));
    assert_eq!(OpaError::from_code(42), Err(OpaError::Other(42)));
}

#[test]
fn abi_versions() {
    assert_eq!(AbiVersion::new(1, 0), Ok(AbiVersion::V1_0));
    assert_eq!(AbiVersion::new(1, 1), Ok(AbiVersion::V1_1));
    assert_eq!(AbiVersion::new(1, 2), Ok(AbiVersion::V1_2));
    assert_eq!(AbiVersion::new(1, 5), Ok(AbiVersion::V1_2Plus(5)));
    assert_eq!(AbiVersion::new(2, 0), Err(UnsupportedAbi { major: 2, minor: 0 }));
    assert_eq!(AbiVersion::new(1, -1), Err(UnsupportedAbi { major: 1, minor: -1 }));
    assert!(!AbiVersion::V1_0.has_eval_fastpath());
    assert!(!AbiVersion::V1_1.has_eval_fastpath());
    assert!(AbiVersion::V1_2.has_eval_fastpath());
    assert!(AbiVersion::V1_2Plus(3).has_eval_fastpath());
}

#[test]
fn nul_str_reading() {
    let mem = b"abc\0def".to_vec();
    assert_eq!(NulStr(0).read(&mem), Ok(b"abc".to_vec()));
    assert_eq!(NulStr(3).read(&mem), Ok(Vec::new()));
    assert_eq!(NulStr(4).read(&mem), Err(MemoryError::Malformed));
    assert_eq!(NulStr(7).read(&mem), Err(MemoryError::Malformed));
    assert_eq!(NulStr(8).read(&mem), Err(MemoryError::OutOfBounds));
    assert_eq!(NulStr(-1).read(&mem), Err(MemoryError::InvalidAddress));
}

#[test]
fn nul_terminated_buffers() {
    assert_eq!(with_nul(b"{}".to_vec()), Ok(b"{}\0".to_vec()));
    assert_eq!(with_nul(Vec::new()), Ok(vec![0]));
    assert_eq!(with_nul(b"a\0b".to_vec()), Err(MemoryError::InteriorNul));
}
