//! Per-handler code-region instrumentation: the analysis and
//! instrumentation adapters, and the registration token that owns the two
//! trampolines the pair is registered through.
//!
//! The host runs the analysis callback once per code region and the
//! instrumentation callback once per instruction in the region.  Both
//! adapters follow the common dispatch discipline: reconstruct the
//! borrowed facades, acquire the shared handler's lock, forward, release,
//! and hand the handler's emit flags back to the host.  The process-wide,
//! slot-based variant of this event pair lives with the manager (see
//! `crate::manager::bb_analysis_event`).

use crate::arity::{spec_code_len, CODE_OFFSET};
use crate::closure::Closure;
use crate::context::Context;
use crate::error::FatalError;
use crate::exec_memory::{Block, ExecAllocator};
use crate::handlers::{BasicBlockHandler, EmitFlags};
use crate::host::{
    lemma_absence_preserved, EventKind, HostModel, Registration, TeardownStep,
};
use crate::instruction::{Instruction, InstructionList};
use crate::manager::Manager;
use crate::sync::Mutex;
use vstd::prelude::*;

verus! {

/// Adapter for code-region analysis: runs once per region and returns the
/// handler's emit flags to the host.
pub fn bb_analysis_event<T: BasicBlockHandler>(
    context: u64,
    bb: &InstructionList,
    for_trace: bool,
    translating: bool,
    handler: &mut Mutex<T>,
) -> (flags: EmitFlags)
    requires
        !old(handler).locked,
    ensures
        !final(handler).locked,
        (final(handler).value@, flags) == T::analyse_spec(
            old(handler).value@,
            (Context { handle: context }),
            *bb,
            for_trace,
            translating,
        ),
{
    let mut ctx = Context::from_raw(context);
    handler.lock();
    let flags = handler.value.analyse(&mut ctx, bb, for_trace, translating);
    handler.unlock();
    flags
}

/// Adapter for code-region instrumentation: runs once per instruction in
/// the region and returns the handler's emit flags to the host.
pub fn bb_instrumentation_event<T: BasicBlockHandler>(
    context: u64,
    bb: &mut InstructionList,
    instruction: &Instruction,
    for_trace: bool,
    translating: bool,
    handler: &mut Mutex<T>,
) -> (flags: EmitFlags)
    requires
        !old(handler).locked,
    ensures
        !final(handler).locked,
        (final(handler).value@, flags) == T::instrument_spec(
            old(handler).value@,
            (Context { handle: context }),
            *old(bb),
            *instruction,
            for_trace,
            translating,
        ),
{
    let mut ctx = Context::from_raw(context);
    handler.lock();
    let flags = handler.value.instrument(&mut ctx, bb, instruction, for_trace, translating);
    handler.unlock();
    flags
}


/// Registration token for per-handler code-region instrumentation.  Owns
/// two trampolines — arity 6 for the analysis callback and arity 7 for the
/// instrumentation callback — registered with the host as a pair;
/// destruction withdraws both, then releases both blocks.
pub struct RegisteredBasicBlockHandler {
    analysis_closure: Closure,
    instrumentation_closure: Closure,
    active: bool,
}

impl RegisteredBasicBlockHandler {
    /// The analysis trampoline owned by this token.
    pub closed spec fn spec_analysis_closure(self) -> Closure {
        self.analysis_closure
    }

    /// The instrumentation trampoline owned by this token.
    pub closed spec fn spec_instrumentation_closure(self) -> Closure {
        self.instrumentation_closure
    }

    /// Whether the registration has not been torn down yet.
    pub closed spec fn is_active(self) -> bool {
        self.active
    }

    /// Well-formedness: both trampolines are well formed, with the
    /// parameter counts of the two callbacks, in distinct blocks.
    pub open spec fn wf(self) -> bool {
        &&& self.spec_analysis_closure().wf()
        &&& self.spec_analysis_closure().spec_arity() == 6
        &&& self.spec_instrumentation_closure().wf()
        &&& self.spec_instrumentation_closure().spec_arity() == 7
        &&& self.spec_analysis_closure().spec_block().addr
            != self.spec_instrumentation_closure().spec_block().addr
    }

    /// The bare analysis pointer the host holds.
    pub open spec fn spec_analysis_entry(self) -> u64 {
        (self.spec_analysis_closure().spec_block().addr + CODE_OFFSET as u64) as u64
    }

    /// The bare instrumentation pointer the host holds.
    pub open spec fn spec_instrumentation_entry(self) -> u64 {
        (self.spec_instrumentation_closure().spec_block().addr + CODE_OFFSET as u64) as u64
    }

    /// Tears the registration down: withdraw the pair of code-region
    /// registrations from the host, then release both trampoline blocks,
    /// in that order and exactly once.  Idempotent.
    pub fn destroy(
        &mut self,
        host: &mut HostModel,
        alloc: &mut ExecAllocator,
    ) -> (steps: Vec<TeardownStep>)
        requires
            old(self).wf(),
            old(alloc).wf(),
            old(self).is_active() ==> old(alloc).is_live(
                old(self).spec_analysis_closure().spec_block(),
            ) && old(alloc).is_live(old(self).spec_instrumentation_closure().spec_block()),
        ensures
            final(self).wf(),
            final(alloc).wf(),
            !final(self).is_active(),
            final(self).spec_analysis_closure() == old(self).spec_analysis_closure(),
            final(self).spec_instrumentation_closure() == old(
                self,
            ).spec_instrumentation_closure(),
            !old(self).is_active() ==> {
                &&& steps@ == Seq::<TeardownStep>::empty()
                &&& *final(host) == *old(host)
                &&& *final(alloc) == *old(alloc)
            },
            old(self).is_active() ==> {
                let a_block = old(self).spec_analysis_closure().spec_block();
                let i_block = old(self).spec_instrumentation_closure().spec_block();
                &&& steps@ == seq![
                    (TeardownStep::Unregister {
                        kind: EventKind::BasicBlockAnalysis,
                        entry: old(self).spec_analysis_entry(),
                    }),
                    (TeardownStep::Unregister {
                        kind: EventKind::BasicBlockInstrumentation,
                        entry: old(self).spec_instrumentation_entry(),
                    }),
                    (TeardownStep::Free { addr: a_block.addr, size: a_block.size }),
                    (TeardownStep::Free { addr: i_block.addr, size: i_block.size }),
                ]
                &&& !final(host).has_kind_entry(
                    EventKind::BasicBlockAnalysis,
                    old(self).spec_analysis_entry(),
                )
                &&& !final(host).has_kind_entry(
                    EventKind::BasicBlockInstrumentation,
                    old(self).spec_instrumentation_entry(),
                )
                &&& forall|r: Registration|
                    {
                        &&& !(r.kind == EventKind::BasicBlockAnalysis && r.entry == old(
                            self,
                        ).spec_analysis_entry())
                        &&& !(r.kind == EventKind::BasicBlockInstrumentation && r.entry == old(
                            self,
                        ).spec_instrumentation_entry())
                    } ==> (final(host).is_registered(r) <==> old(host).is_registered(r))
                &&& final(host).slots == old(host).slots
                &&& !final(alloc).has_addr(a_block.addr)
                &&& !final(alloc).has_addr(i_block.addr)
                &&& final(alloc).live_blocks().len() == old(alloc).live_blocks().len() - 2
                &&& forall|b: Block|
                    b.addr != a_block.addr && b.addr != i_block.addr
                        ==> (final(alloc).is_live(b) <==> old(alloc).is_live(b))
            },
    {
        let mut steps: Vec<TeardownStep> = Vec::new();
        if !self.active {
            return steps;
        }
        self.active = false;
        let a_entry = self.analysis_closure.code();
        let i_entry = self.instrumentation_closure.code();
        host.unregister(EventKind::BasicBlockAnalysis, a_entry);
        steps.push(
            TeardownStep::Unregister { kind: EventKind::BasicBlockAnalysis, entry: a_entry },
        );
        let ghost host1 = *host;
        host.unregister(EventKind::BasicBlockInstrumentation, i_entry);
        steps.push(
            TeardownStep::Unregister {
                kind: EventKind::BasicBlockInstrumentation,
                entry: i_entry,
            },
        );
        proof {
            lemma_absence_preserved(
                host1,
                *host,
                EventKind::BasicBlockAnalysis,
                a_entry,
                EventKind::BasicBlockInstrumentation,
                i_entry,
            );
        }
        let a_block = self.analysis_closure.block();
        let i_block = self.instrumentation_closure.block();
        proof {
            crate::exec_memory::lemma_live_has_addr(*alloc, a_block);
        }
        let released_a = alloc.release(a_block.addr, a_block.size);
        proof {
            assert(released_a is Ok);
        }
        steps.push(TeardownStep::Free { addr: a_block.addr, size: a_block.size });
        let ghost alloc1 = *alloc;
        proof {
            assert(alloc.is_live(i_block));
            crate::exec_memory::lemma_live_has_addr(*alloc, i_block);
        }
        let released_i = alloc.release(i_block.addr, i_block.size);
        proof {
            assert(released_i is Ok);
            crate::exec_memory::lemma_addr_absence_preserved(
                alloc1,
                *alloc,
                a_block.addr,
                i_block.addr,
            );
        }
        steps.push(TeardownStep::Free { addr: i_block.addr, size: i_block.size });
        proof {
            assert(steps@ =~= seq![
                (TeardownStep::Unregister {
                    kind: EventKind::BasicBlockAnalysis,
                    entry: a_entry,
                }),
                (TeardownStep::Unregister {
                    kind: EventKind::BasicBlockInstrumentation,
                    entry: i_entry,
                }),
                (TeardownStep::Free { addr: a_block.addr, size: a_block.size }),
                (TeardownStep::Free { addr: i_block.addr, size: i_block.size }),
            ]);
        }
        steps
    }
}

impl Manager {
    /// Registers a handler for per-handler code-region instrumentation:
    /// builds the arity-6 analysis trampoline and the arity-7
    /// instrumentation trampoline, both capturing `handler_addr`, and
    /// records the pair with the host.  On a fatal allocation failure
    /// nothing is registered, no partially built state escapes, and no
    /// block stays allocated.
    pub fn instrument_basic_block(
        host: &mut HostModel,
        alloc: &mut ExecAllocator,
        handler_addr: u64,
        analysis_dispatcher: u64,
        instrumentation_dispatcher: u64,
    ) -> (r: Result<RegisteredBasicBlockHandler, FatalError>)
        requires
            old(alloc).wf(),
        ensures
            final(alloc).wf(),
            r is Ok <==> (CODE_OFFSET + spec_code_len(6)) + (CODE_OFFSET + spec_code_len(7))
                <= old(alloc).spec_free_space(),
            match r {
                Ok(token) => {
                    &&& token.wf()
                    &&& token.is_active()
                    &&& token.spec_analysis_closure().spec_context() == handler_addr
                    &&& token.spec_analysis_closure().spec_dispatcher() == analysis_dispatcher
                    &&& token.spec_instrumentation_closure().spec_context() == handler_addr
                    &&& token.spec_instrumentation_closure().spec_dispatcher()
                        == instrumentation_dispatcher
                    &&& final(host).registrations() == old(host).registrations()
                        .push(
                            (Registration {
                                kind: EventKind::BasicBlockAnalysis,
                                entry: token.spec_analysis_entry(),
                                user_data: 0,
                            }),
                        )
                        .push(
                            (Registration {
                                kind: EventKind::BasicBlockInstrumentation,
                                entry: token.spec_instrumentation_entry(),
                                user_data: 0,
                            }),
                        )
                    &&& final(host).slots == old(host).slots
                    &&& final(alloc).live_blocks() == old(alloc).live_blocks()
                        .push(token.spec_analysis_closure().spec_block())
                        .push(token.spec_instrumentation_closure().spec_block())
                    &&& final(alloc).is_live(token.spec_analysis_closure().spec_block())
                    &&& final(alloc).is_live(token.spec_instrumentation_closure().spec_block())
                },
                Err(e) => {
                    &&& e == FatalError::OutOfExecutableMemory
                    &&& *final(host) == *old(host)
                    &&& final(alloc).live_blocks() == old(alloc).live_blocks()
                },
            },
    {
        let analysis_closure = match Closure::new(alloc, 6, analysis_dispatcher, handler_addr) {
            Ok(closure) => closure,
            Err(e) => {
                return Err(e);
            },
        };
        let ghost alloc1 = *alloc;
        let a_block = analysis_closure.block();
        let instrumentation_closure = match Closure::new(
            alloc,
            7,
            instrumentation_dispatcher,
            handler_addr,
        ) {
            Ok(closure) => closure,
            Err(e) => {
                // Roll the analysis block back so that no partial state
                // escapes a fatal failure.
                proof {
                    assert(alloc.live_blocks().last() == a_block);
                    assert(alloc.live_blocks().contains(a_block));
                }
                let rolled_back = alloc.release(a_block.addr, a_block.size);
                proof {
                    assert(rolled_back is Ok);
                    let orig = old(alloc).live_blocks();
                    let i = choose|i: int|
                        0 <= i < alloc1.live_blocks().len()
                            && alloc1.live_blocks()[i] == a_block
                            && alloc.live_blocks() == alloc1.live_blocks().remove(i);
                    if i < orig.len() {
                        assert(orig[i] == a_block);
                        assert(old(alloc).has_addr(a_block.addr));
                    }
                    assert(i == orig.len());
                    assert(alloc.live_blocks() =~= orig);
                }
                return Err(e);
            },
        };
        let a_entry = analysis_closure.code();
        let i_entry = instrumentation_closure.code();
        host.register(EventKind::BasicBlockAnalysis, a_entry, 0);
        host.register(EventKind::BasicBlockInstrumentation, i_entry, 0);
        let token = RegisteredBasicBlockHandler {
            analysis_closure,
            instrumentation_closure,
            active: true,
        };
        proof {
            let a = token.spec_analysis_closure().spec_block();
            let b = token.spec_instrumentation_closure().spec_block();
            assert(alloc1.live_blocks().last() == a);
            assert(alloc1.live_blocks().contains(a));
            assert(alloc.live_blocks().last() == b);
            assert(alloc.live_blocks().contains(b));
            assert(alloc.is_live(a)) by {
                assert(alloc1.is_live(a));
                crate::exec_memory::lemma_live_has_addr(alloc1, a);
                assert(a.addr != b.addr);
                assert(alloc.live_blocks()[alloc1.live_blocks().len() - 1] == a);
            }
            assert(a.addr != b.addr) by {
                crate::exec_memory::lemma_live_has_addr(alloc1, a);
            }
        }
        Ok(token)
    }
}

} // verus!
