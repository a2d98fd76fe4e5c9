//! Fixed catalogue of forwarding-code byte sequences, indexed by parameter
//! count.
//!
//! Each sequence implements, in the host CPU's native calling convention:
//! load the word at a fixed backward displacement from the current
//! instruction pointer (the captured context word at block offset 0), load
//! the word at a second fixed displacement (the dispatcher address at block
//! offset 8), then jump indirectly through the dispatcher, having appended
//! the context as one additional trailing argument.  For arities 6 to 8 the
//! extra argument spills through the stack, so the sequence restores stack
//! alignment and ends in a return instead of a tail jump.
//!
//! The displacements are fixed at code-generation time relative to the
//! 16-byte header, so the code is position-independent with respect to the
//! block itself and the block's two halves must never be separated.

use vstd::prelude::*;

verus! {

/// Largest supported parameter count.
pub const MAX_ARITY: usize = 8;

/// Offset of the code region within a generated block: the code follows the
/// two captured 64-bit words.
pub const CODE_OFFSET: usize = 16;

/// The forwarding-code bytes for the given parameter count, as a
/// mathematical sequence.
pub open spec fn spec_code(arity: int) -> Seq<u8>
    recommends
        0 <= arity <= MAX_ARITY,
{
    if arity == 0 {
        seq![
            0x48u8, 0x8bu8, 0x3du8, 0xe9u8, 0xffu8, 0xffu8, 0xffu8,
            0xffu8, 0x25u8, 0xebu8, 0xffu8, 0xffu8, 0xffu8,
        ]
    } else if arity == 1 {
        seq![
            0x48u8, 0x8bu8, 0x35u8, 0xe9u8, 0xffu8, 0xffu8, 0xffu8,
            0xffu8, 0x25u8, 0xebu8, 0xffu8, 0xffu8, 0xffu8,
        ]
    } else if arity == 2 {
        seq![
            0x48u8, 0x8bu8, 0x15u8, 0xe9u8, 0xffu8, 0xffu8, 0xffu8,
            0xffu8, 0x25u8, 0xebu8, 0xffu8, 0xffu8, 0xffu8,
        ]
    } else if arity == 3 {
        seq![
            0x48u8, 0x8bu8, 0x0du8, 0xe9u8, 0xffu8, 0xffu8, 0xffu8,
            0xffu8, 0x25u8, 0xebu8, 0xffu8, 0xffu8, 0xffu8,
        ]
    } else if arity == 4 {
        seq![
            0x4cu8, 0x8bu8, 0x05u8, 0xe9u8, 0xffu8, 0xffu8, 0xffu8,
            0xffu8, 0x25u8, 0xebu8, 0xffu8, 0xffu8, 0xffu8,
        ]
    } else if arity == 5 {
        seq![
            0x4cu8, 0x8bu8, 0x0du8, 0xe9u8, 0xffu8, 0xffu8, 0xffu8,
            0xffu8, 0x25u8, 0xebu8, 0xffu8, 0xffu8, 0xffu8,
        ]
    } else if arity == 6 {
        seq![
            0xffu8, 0x35u8, 0xeau8, 0xffu8, 0xffu8, 0xffu8,
            0xffu8, 0x15u8, 0xecu8, 0xffu8, 0xffu8, 0xffu8,
            0x48u8, 0x83u8, 0xc4u8, 0x08u8,
            0xc3u8,
        ]
    } else if arity == 7 {
        seq![
            0x48u8, 0x83u8, 0xecu8, 0x08u8,
            0xffu8, 0x35u8, 0xe6u8, 0xffu8, 0xffu8, 0xffu8,
            0xffu8, 0x74u8, 0x24u8, 0x18u8,
            0xffu8, 0x15u8, 0xe4u8, 0xffu8, 0xffu8, 0xffu8,
            0x48u8, 0x83u8, 0xc4u8, 0x18u8,
            0xc3u8,
        ]
    } else {
        seq![
            0xffu8, 0x35u8, 0xeau8, 0xffu8, 0xffu8, 0xffu8,
            0xffu8, 0x74u8, 0x24u8, 0x18u8,
            0xffu8, 0x74u8, 0x24u8, 0x18u8,
            0xffu8, 0x15u8, 0xe4u8, 0xffu8, 0xffu8, 0xffu8,
            0x48u8, 0x83u8, 0xc4u8, 0x18u8,
            0xc3u8,
        ]
    }
}

/// Length of the forwarding code for the given parameter count.
pub open spec fn spec_code_len(arity: int) -> int {
    if 0 <= arity <= 5 {
        13
    } else if arity == 6 {
        17
    } else {
        25
    }
}

/// The catalogue's sequences have the lengths given by `spec_code_len`, and
/// none is longer than 25 bytes.
pub proof fn lemma_code_len(arity: int)
    requires
        0 <= arity <= MAX_ARITY,
    ensures
        spec_code(arity).len() == spec_code_len(arity),
        spec_code(arity).len() <= 25,
{
}

/// The 4 bytes of `code` at `pos`, read as a little-endian two's-complement
/// 32-bit displacement.
pub open spec fn spec_disp32(code: Seq<u8>, pos: int) -> int
    recommends
        0 <= pos && pos + 4 <= code.len(),
{
    let v = (code[pos] as int) + 256 * (code[pos + 1] as int) + 65536 * (code[pos + 2] as int)
        + 16777216 * (code[pos + 3] as int);
    if v >= 0x8000_0000 {
        v - 0x1_0000_0000
    } else {
        v
    }
}

/// Where, within the arity's code, the instruction that fetches the
/// captured context keeps its displacement field, and where the next
/// instruction starts (the point the displacement is relative to).
pub open spec fn spec_context_load(arity: int) -> (int, int)
    recommends
        0 <= arity <= MAX_ARITY,
{
    if arity <= 5 {
        (3, 7)
    } else if arity == 6 {
        (2, 6)
    } else if arity == 7 {
        (6, 10)
    } else {
        (2, 6)
    }
}

/// Where, within the arity's code, the instruction that fetches the
/// dispatcher address keeps its displacement field, and where the next
/// instruction starts.
pub open spec fn spec_dispatcher_load(arity: int) -> (int, int)
    recommends
        0 <= arity <= MAX_ARITY,
{
    if arity <= 5 {
        (9, 13)
    } else if arity == 6 {
        (8, 12)
    } else {
        (16, 20)
    }
}

/// The layout invariant of the catalogue: for every supported arity, the
/// forwarding code reaches the two data words through displacements fixed
/// relative to the block itself — the context load resolves to block
/// offset 0 and the dispatcher load to block offset 8.  The code is thus
/// position-independent with respect to the block, and the block's two
/// halves must never be separated or relocated independently.
pub proof fn lemma_code_targets_header(arity: int)
    requires
        0 <= arity <= MAX_ARITY,
    ensures
        ({
            let (pos, next) = spec_context_load(arity);
            CODE_OFFSET + next + spec_disp32(spec_code(arity), pos) == 0
        }),
        ({
            let (pos, next) = spec_dispatcher_load(arity);
            CODE_OFFSET + next + spec_disp32(spec_code(arity), pos) == 8
        }),
{
    if arity <= 5 {
        assert(spec_disp32(spec_code(arity), 3) == -23);
        assert(spec_disp32(spec_code(arity), 9) == -21);
    } else if arity == 6 {
        assert(spec_disp32(spec_code(6), 2) == -22);
        assert(spec_disp32(spec_code(6), 8) == -20);
    } else if arity == 7 {
        assert(spec_disp32(spec_code(7), 6) == -26);
        assert(spec_disp32(spec_code(7), 16) == -28);
    } else {
        assert(spec_disp32(spec_code(8), 2) == -22);
        assert(spec_disp32(spec_code(8), 16) == -28);
    }
}

/// The forwarding code for the given parameter count, or `None` for an
/// unsupported count.  Pure and total for arities 0 to 8; a request outside
/// that range is a build-time contract violation that the trampoline builder
/// turns into a fatal error.
pub fn lookup_code(args: usize) -> (r: Option<Vec<u8>>)
    ensures
        r is Some <==> args <= MAX_ARITY,
        r matches Some(code) ==> code@ == spec_code(args as int),
{
    let r: Option<Vec<u8>> = match args {
        0 => Some(vec![
            0x48u8, 0x8bu8, 0x3du8, 0xe9u8, 0xffu8, 0xffu8, 0xffu8,
            0xffu8, 0x25u8, 0xebu8, 0xffu8, 0xffu8, 0xffu8,
        ]),
        1 => Some(vec![
            0x48u8, 0x8bu8, 0x35u8, 0xe9u8, 0xffu8, 0xffu8, 0xffu8,
            0xffu8, 0x25u8, 0xebu8, 0xffu8, 0xffu8, 0xffu8,
        ]),
        2 => Some(vec![
            0x48u8, 0x8bu8, 0x15u8, 0xe9u8, 0xffu8, 0xffu8, 0xffu8,
            0xffu8, 0x25u8, 0xebu8, 0xffu8, 0xffu8, 0xffu8,
        ]),
        3 => Some(vec![
            0x48u8, 0x8bu8, 0x0du8, 0xe9u8, 0xffu8, 0xffu8, 0xffu8,
            0xffu8, 0x25u8, 0xebu8, 0xffu8, 0xffu8, 0xffu8,
        ]),
        4 => Some(vec![
            0x4cu8, 0x8bu8, 0x05u8, 0xe9u8, 0xffu8, 0xffu8, 0xffu8,
            0xffu8, 0x25u8, 0xebu8, 0xffu8, 0xffu8, 0xffu8,
        ]),
        5 => Some(vec![
            0x4cu8, 0x8bu8, 0x0du8, 0xe9u8, 0xffu8, 0xffu8, 0xffu8,
            0xffu8, 0x25u8, 0xebu8, 0xffu8, 0xffu8, 0xffu8,
        ]),
        6 => Some(vec![
            0xffu8, 0x35u8, 0xeau8, 0xffu8, 0xffu8, 0xffu8,
            0xffu8, 0x15u8, 0xecu8, 0xffu8, 0xffu8, 0xffu8,
            0x48u8, 0x83u8, 0xc4u8, 0x08u8,
            0xc3u8,
        ]),
        7 => Some(vec![
            0x48u8, 0x83u8, 0xecu8, 0x08u8,
            0xffu8, 0x35u8, 0xe6u8, 0xffu8, 0xffu8, 0xffu8,
            0xffu8, 0x74u8, 0x24u8, 0x18u8,
            0xffu8, 0x15u8, 0xe4u8, 0xffu8, 0xffu8, 0xffu8,
            0x48u8, 0x83u8, 0xc4u8, 0x18u8,
            0xc3u8,
        ]),
        8 => Some(vec![
            0xffu8, 0x35u8, 0xeau8, 0xffu8, 0xffu8, 0xffu8,
            0xffu8, 0x74u8, 0x24u8, 0x18u8,
            0xffu8, 0x74u8, 0x24u8, 0x18u8,
            0xffu8, 0x15u8, 0xe4u8, 0xffu8, 0xffu8, 0xffu8,
            0x48u8, 0x83u8, 0xc4u8, 0x18u8,
            0xc3u8,
        ]),
        _ => None,
    };
    proof {
        if args <= 8 {
            assert(r matches Some(code) && code@ =~= spec_code(args as int));
        }
    }
    r
}

} // verus!
