use dynamorio_rs::arity::{lookup_code, CODE_OFFSET, MAX_ARITY};
use dynamorio_rs::closure::Closure;
use dynamorio_rs::error::FatalError;
use dynamorio_rs::exec_memory::ExecAllocator;

#[test]
fn lookup_code_lengths() {
    let expected = [13, 13, 13, 13, 13, 13, 17, 25, 25];
    for arity in 0..=MAX_ARITY {
        let code = lookup_code(arity).expect("supported arity");
        assert_eq!(code.len(), expected[arity]);
    }
}

#[test]
fn lookup_code_unsupported() {
    assert!(lookup_code(9).is_none());
    assert!(lookup_code(100).is_none());
    assert!(lookup_code(usize::MAX).is_none());
}

#[test]
fn lookup_code_bytes_arity0() {
    let code = lookup_code(0).unwrap();
    assert_eq!(
        code,
        vec![0x48, 0x8b, 0x3d, 0xe9, 0xff, 0xff, 0xff, 0xff, 0x25, 0xeb, 0xff, 0xff, 0xff]
    );
}

#[test]
fn lookup_code_bytes_arity6() {
    let code = lookup_code(6).unwrap();
    assert_eq!(
        code,
        vec![
            0xff, 0x35, 0xea, 0xff, 0xff, 0xff, 0xff, 0x15, 0xec, 0xff, 0xff, 0xff, 0x48, 0x83,
            0xc4, 0x08, 0xc3,
        ]
    );
}

#[test]
fn lookup_code_bytes_arity8() {
    let code = lookup_code(8).unwrap();
    assert_eq!(
        code,
        vec![
            0xff, 0x35, 0xea, 0xff, 0xff, 0xff, 0xff, 0x74, 0x24, 0x18, 0xff, 0x74, 0x24, 0x18,
            0xff, 0x15, 0xe4, 0xff, 0xff, 0xff, 0x48, 0x83, 0xc4, 0x18, 0xc3,
        ]
    );
}

#[test]
fn trampoline_invokes_dispatcher_with_context_appended() {
    // For every supported arity: call the built trampoline with a known
    // argument vector and check the dispatcher receives exactly that
    // vector with the captured context appended as the final argument.
    let dispatcher = 0xdead_beef_f00d_cafe_u64;
    let context = 0x1122_3344_5566_7788_u64;
    for arity in 0..=MAX_ARITY {
        let mut alloc = ExecAllocator::new();
        let closure = Closure::new(&mut alloc, arity, dispatcher, context).expect("supported");
        let args: Vec<u64> = (0..arity as u64).map(|i| 1000 + i).collect();
        let call = closure.invoke(&args);
        assert_eq!(call.target, dispatcher);
        let mut expected = args.clone();
        expected.push(context);
        assert_eq!(call.args, expected);
    }
}

#[test]
fn trampoline_zero_arity_call() {
    let mut alloc = ExecAllocator::new();
    let closure = Closure::new(&mut alloc, 0, 0xaa, 0xbb).unwrap();
    let call = closure.invoke(&Vec::new());
    assert_eq!(call.target, 0xaa);
    assert_eq!(call.args, vec![0xbb]);
}

#[test]
fn trampoline_unsupported_arity_fails_fatally() {
    let mut alloc = ExecAllocator::new();
    let before = alloc.live_count();
    let result = Closure::new(&mut alloc, 9, 0x1, 0x2);
    assert!(matches!(result, Err(FatalError::UnsupportedArity)));
    // Nothing was allocated: no unusable pointer can exist.
    assert_eq!(alloc.live_count(), before);
}

#[test]
fn trampoline_code_offset_is_fixed() {
    let mut alloc = ExecAllocator::new();
    for arity in 0..=MAX_ARITY {
        let closure = Closure::new(&mut alloc, arity, 0x10, 0x20).unwrap();
        let block = closure.block();
        assert_eq!(closure.code(), block.addr + CODE_OFFSET as u64);
        let expected_len = [13, 13, 13, 13, 13, 13, 17, 25, 25][arity];
        assert_eq!(block.size, CODE_OFFSET + expected_len);
    }
}

#[test]
fn fatal_error_descriptions() {
    assert_eq!(
        FatalError::UnsupportedArity.describe(),
        "argument count not supported"
    );
    assert_eq!(
        FatalError::OutOfExecutableMemory.describe(),
        "failed to allocate executable memory"
    );
}
