//! Bridge between stateful handler objects and a host instrumentation engine
//! whose callback API accepts only bare, context-free function pointers of
//! fixed arity.
//!
//! The core synthesizes, per registration, a small executable block (a
//! "closure" or trampoline): 16 bytes of captured data (a context word and a
//! dispatcher address) followed by arity-specific forwarding code that loads
//! the two words through fixed instruction-relative displacements and
//! tail-calls the dispatcher with the context appended as one extra trailing
//! argument.  On top of that sit the shared, lock-guarded handler containers,
//! the per-event registration tokens whose destruction unregisters with the
//! host and then releases the block, and the process-wide slots used for
//! events the host supports only one registration of at a time.
//!
//! The host engine itself, and the borrowed facade objects over its opaque
//! handles, are collaborators outside this crate: here they appear as plain
//! handle values and as an explicit model of the host's callback table, so
//! that the registration lifecycle, the byte layout of the generated blocks,
//! and the dispatch discipline are all stated and checked.

pub mod arity;
pub mod basic_block;
pub mod closure;
pub mod context;
pub mod error;
pub mod event;
pub mod exec_memory;
pub mod extension;
pub mod handlers;
pub mod host;
pub mod instruction;
pub mod manager;
pub mod module;
pub mod sync;
pub mod syscall;
pub mod wrap;

use vstd::prelude::*;

verus! {

/// Process-wide client/session identifier handed to the client at start-up
/// and required by nudge registration.
#[derive(Clone, Copy, Debug, Eq, PartialEq, Structural)]
pub struct ClientId(pub u64);

/// The byte form in which a name or URL is handed to the host's C calling
/// convention: the text's bytes followed by one terminating zero, available
/// exactly when the text holds no interior zero byte.  Used by the
/// embedding layer before handing diagnostic names to the host.
pub fn c_string_bytes(text: &Vec<u8>) -> (r: Option<Vec<u8>>)
    ensures
        r is Some <==> !text@.contains(0u8),
        r matches Some(out) ==> out@ == text@.push(0u8),
{
    let n = text.len();
    let mut out: Vec<u8> = Vec::new();
    let mut i: usize = 0;
    while i < n
        invariant
            n == text@.len(),
            0 <= i <= n,
            out@ == text@.subrange(0, i as int),
            forall|j: int| 0 <= j < i ==> text@[j] != 0u8,
        decreases n - i,
    {
        let b = text[i];
        if b == 0 {
            proof {
                assert(text@.contains(0u8));
            }
            return None;
        }
        out.push(b);
        proof {
            assert(out@ =~= text@.subrange(0, i + 1));
        }
        i = i + 1;
    }
    out.push(0);
    proof {
        assert(out@ =~= text@.push(0u8));
        if text@.contains(0u8) {
            let j = choose|j: int| 0 <= j < text@.len() && text@[j] == 0u8;
            assert(false);
        }
    }
    Some(out)
}

} // verus!
