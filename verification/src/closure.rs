//! The trampoline: a runtime-generated executable block that adapts a
//! captured context word and a dispatcher address into a bare function
//! pointer the host engine can call.
//!
//! Byte layout of the block, of size `16 + len(code)`:
//!
//! * bytes `[0, 8)`: the captured context word, little endian (for handler
//!   registrations, the shared handler's address);
//! * bytes `[8, 16)`: the dispatcher address, little endian;
//! * bytes `[16, ..)`: the arity's forwarding code, which loads the two
//!   words through displacements fixed relative to the 16-byte header and
//!   transfers control to the dispatcher with the context appended as one
//!   extra trailing argument.
//!
//! The block is written once at build time and never mutated, so concurrent
//! execution of its code needs no synchronization; it is released only
//! through the owning registration token, after the host unregistration
//! that guarantees no call is still in flight.

use crate::arity::{lookup_code, spec_code, spec_code_len, CODE_OFFSET, MAX_ARITY};
use crate::error::FatalError;
use crate::exec_memory::{Block, ExecAllocator};
use vstd::bytes::{
    lemma_auto_spec_u64_to_from_le_bytes, spec_u64_from_le_bytes, spec_u64_to_le_bytes,
    u64_from_le_bytes, u64_to_le_bytes,
};
use vstd::prelude::*;
use vstd::slice::slice_subrange;

verus! {

/// One resolved dispatcher call: the address control is transferred to and
/// the full argument vector it receives.
#[derive(Debug)]
pub struct DispatchCall {
    pub target: u64,
    pub args: Vec<u64>,
}

/// How a boolean flag crosses the host boundary in an argument vector:
/// one machine word, 1 for true and 0 for false.
pub open spec fn spec_flag_word(b: bool) -> u64 {
    if b {
        1
    } else {
        0
    }
}

/// Executable form of `spec_flag_word`.
pub fn flag_word(b: bool) -> (r: u64)
    ensures
        r == spec_flag_word(b),
{
    if b {
        1
    } else {
        0
    }
}

/// A built trampoline: the executable block it owns and the bytes written
/// into it.
pub struct Closure {
    block: Block,
    image: Vec<u8>,
    arity: usize,
    context: u64,
    dispatcher: u64,
}

impl Closure {
    /// The parameter count the forwarding code was chosen for.
    pub closed spec fn spec_arity(self) -> int {
        self.arity as int
    }

    /// The captured context word, stored at block offset 0.
    pub closed spec fn spec_context(self) -> u64 {
        self.context
    }

    /// The dispatcher address, stored at block offset 8.
    pub closed spec fn spec_dispatcher(self) -> u64 {
        self.dispatcher
    }

    /// The executable block the bytes live in.
    pub closed spec fn spec_block(self) -> Block {
        self.block
    }

    /// The bytes written into the block.
    pub closed spec fn spec_image(self) -> Seq<u8> {
        self.image@
    }

    /// Well-formedness: the image is the 16-byte header followed by the
    /// arity's forwarding code, the header words encode the captured
    /// context and the dispatcher address, and the block is exactly as
    /// large as the image.
    pub open spec fn wf(self) -> bool {
        &&& 0 <= self.spec_arity() <= MAX_ARITY
        &&& self.spec_image().len() == CODE_OFFSET + spec_code_len(self.spec_arity())
        &&& self.spec_image().subrange(0, 8) == spec_u64_to_le_bytes(self.spec_context())
        &&& self.spec_image().subrange(8, 16) == spec_u64_to_le_bytes(self.spec_dispatcher())
        &&& self.spec_image().subrange(CODE_OFFSET as int, self.spec_image().len() as int)
            == spec_code(self.spec_arity())
        &&& self.spec_block().size == self.spec_image().len()
        &&& self.spec_block().addr + self.spec_block().size <= u64::MAX
    }

    /// What the block's bytes alone determine one call through the
    /// trampoline's pointer to do: the jump target is decoded from header
    /// bytes `[8, 16)`, and the dispatcher receives the caller's arguments
    /// with the word decoded from bytes `[0, 8)` appended.
    pub open spec fn spec_invoke(self, args: Seq<u64>) -> (u64, Seq<u64>) {
        (
            spec_u64_from_le_bytes(self.spec_image().subrange(8, 16)),
            args.push(spec_u64_from_le_bytes(self.spec_image().subrange(0, 8))),
        )
    }

    /// Builds a trampoline for a callback of `args` parameters that
    /// forwards to `callback` with `user_data` appended as the final
    /// argument.  Fails fatally for an unsupported parameter count or when
    /// no executable block can be had; no partially built state is ever
    /// returned, and on failure the allocator is left unchanged.
    pub fn new(
        alloc: &mut ExecAllocator,
        args: usize,
        callback: u64,
        user_data: u64,
    ) -> (r: Result<Closure, FatalError>)
        requires
            old(alloc).wf(),
        ensures
            final(alloc).wf(),
            r is Ok <==> args <= MAX_ARITY
                && CODE_OFFSET + spec_code_len(args as int) <= old(alloc).spec_free_space(),
            match r {
                Ok(c) => {
                    &&& c.wf()
                    &&& c.spec_arity() == args
                    &&& c.spec_context() == user_data
                    &&& c.spec_dispatcher() == callback
                    &&& !old(alloc).has_addr(c.spec_block().addr)
                    &&& final(alloc).live_blocks()
                        == old(alloc).live_blocks().push(c.spec_block())
                    &&& final(alloc).spec_free_space() == old(alloc).spec_free_space() - (
                    CODE_OFFSET + spec_code_len(args as int))
                },
                Err(e) => {
                    &&& *final(alloc) == *old(alloc)
                    &&& (e == FatalError::UnsupportedArity <==> args > MAX_ARITY)
                    &&& args > MAX_ARITY ==> e == FatalError::UnsupportedArity
                },
            },
    {
        let code = match lookup_code(args) {
            Some(code) => code,
            None => {
                return Err(FatalError::UnsupportedArity);
            },
        };
        proof {
            crate::arity::lemma_code_len(args as int);
        }
        let size: usize = CODE_OFFSET + code.len();
        let block = match alloc.allocate(size) {
            Ok(block) => block,
            Err(e) => {
                return Err(e);
            },
        };
        let mut image = u64_to_le_bytes(user_data);
        let mut disp_bytes = u64_to_le_bytes(callback);
        let mut code = code;
        let ghost ctx_seq = image@;
        let ghost disp_seq = disp_bytes@;
        let ghost code_seq = code@;
        image.append(&mut disp_bytes);
        image.append(&mut code);
        let c = Closure { block, image, arity: args, context: user_data, dispatcher: callback };
        proof {
            assert(c.spec_image() == ctx_seq + disp_seq + code_seq);
            assert(c.spec_image().len() == CODE_OFFSET + spec_code_len(args as int));
            assert(c.spec_image().subrange(0, 8) =~= ctx_seq);
            assert(c.spec_image().subrange(8, 16) =~= disp_seq);
            assert(c.spec_image().subrange(CODE_OFFSET as int, c.spec_image().len() as int)
                =~= code_seq);
        }
        Ok(c)
    }

    /// The bare function pointer handed to the host: the address of the
    /// code region, always the fixed header size past the block start.
    pub fn code(&self) -> (r: u64)
        requires
            self.wf(),
        ensures
            r == self.spec_block().addr + CODE_OFFSET,
    {
        self.block.addr + (CODE_OFFSET as u64)
    }

    /// The executable block owned by this trampoline, as handed back to the
    /// allocator on release.
    pub fn block(&self) -> (r: Block)
        ensures
            r == self.spec_block(),
    {
        self.block
    }

    /// What one call through the trampoline's function pointer does: the
    /// two header words are recovered from the block through the fixed
    /// displacements, and control reaches the dispatcher with the caller's
    /// arguments followed by the captured context.  The argument vector is
    /// delivered unchanged; the context is appended as the final argument.
    pub fn invoke(&self, args: &Vec<u64>) -> (r: DispatchCall)
        requires
            self.wf(),
            args@.len() == self.spec_arity(),
        ensures
            (r.target, r.args@) == self.spec_invoke(args@),
            r.target == self.spec_dispatcher(),
            r.args@ == args@.push(self.spec_context()),
    {
        proof {
            lemma_header_round_trip(*self);
        }
        let image = self.image.as_slice();
        let context = u64_from_le_bytes(slice_subrange(image, 0, 8));
        let target = u64_from_le_bytes(slice_subrange(image, 8, 16));
        let n = args.len();
        let mut forwarded: Vec<u64> = Vec::new();
        let mut i: usize = 0;
        while i < n
            invariant
                n == args@.len(),
                0 <= i <= n,
                forwarded@ == args@.subrange(0, i as int),
            decreases n - i,
        {
            forwarded.push(args[i]);
            proof {
                assert(forwarded@ =~= args@.subrange(0, i + 1));
            }
            i = i + 1;
        }
        proof {
            assert(forwarded@ =~= args@);
        }
        forwarded.push(context);
        DispatchCall { target, args: forwarded }
    }
}

/// Decoding the two header words of a well-formed trampoline image gives
/// back exactly the captured context and the dispatcher address.
pub proof fn lemma_header_round_trip(c: Closure)
    requires
        c.wf(),
    ensures
        spec_u64_from_le_bytes(c.spec_image().subrange(0, 8)) == c.spec_context(),
        spec_u64_from_le_bytes(c.spec_image().subrange(8, 16)) == c.spec_dispatcher(),
{
    lemma_auto_spec_u64_to_from_le_bytes();
}

/// For every well-formed trampoline — so for every supported arity — and
/// every argument vector, a call through the trampoline's pointer reaches
/// exactly the captured dispatcher, with exactly the caller's arguments
/// plus the captured context appended as the final argument: what the
/// written bytes determine coincides with what the builder captured.
pub proof fn lemma_trampoline_invoke(c: Closure, args: Seq<u64>)
    requires
        c.wf(),
    ensures
        c.spec_invoke(args) == (c.spec_dispatcher(), args.push(c.spec_context())),
{
    lemma_header_round_trip(c);
}

} // verus!
