//! The managed event layer: syscall, module, thread and code-region
//! events, their dispatch adapters, and the registration tokens that own
//! the resources a registration acquires.
//!
//! Every adapter follows one discipline: reconstruct the borrowed facades
//! from the raw handles the host delivered, acquire the shared handler's
//! lock, forward to the handler's trait method, release the lock, and
//! convert the result for the host.  The facades are never retained beyond
//! the call.  Every token follows one teardown: unregister each host
//! registration it made, then release any trampoline block it owns, in
//! that order, exactly once.

use crate::arity::{spec_code_len, CODE_OFFSET};
use crate::closure::{flag_word, spec_flag_word, Closure, DispatchCall};
use crate::context::{AfterSyscallContext, BeforeSyscallContext, Context};
use crate::error::FatalError;
use crate::exec_memory::{Block, ExecAllocator};
use crate::handlers::{EmitFlags, ModuleHandler, SyscallHandler, ThreadHandler};
use crate::host::{
    lemma_absence_preserved, EventKind, HostModel, Registration, SlotKind, TeardownStep,
};
use crate::module::ModuleData;
use crate::sync::Mutex;
use vstd::prelude::*;

verus! {

/// Capability for the managed event layer; constructing it stands for the
/// layer's one-time initialization in the embedding program.
pub struct Manager;

/// Adapter for the syscall filter: forwards the context and syscall number
/// to the handler under the lock and reports its decision to the host as 1
/// (deliver before/after events) or 0.
pub fn filter_syscall_event<T: SyscallHandler>(
    context: u64,
    sysnum: i32,
    handler: &mut Mutex<T>,
) -> (r: i8)
    requires
        !old(handler).locked,
    ensures
        !final(handler).locked,
        final(handler).value@ == T::filter_spec(
            old(handler).value@,
            (Context { handle: context }),
            sysnum,
        ).0,
        r == (if T::filter_spec(old(handler).value@, (Context { handle: context }), sysnum).1 {
            1i8
        } else {
            0i8
        }),
{
    let mut ctx = Context::from_raw(context);
    handler.lock();
    let keep = handler.value.filter_syscall(&mut ctx, sysnum);
    handler.unlock();
    if keep {
        1
    } else {
        0
    }
}

/// Adapter for the before-syscall event: forwards under the lock and
/// reports the handler's veto decision as 1 (let the syscall proceed) or 0
/// (suppress it).
pub fn before_syscall_event<T: SyscallHandler>(
    context: u64,
    sysnum: i32,
    handler: &mut Mutex<T>,
) -> (r: i8)
    requires
        !old(handler).locked,
    ensures
        !final(handler).locked,
        final(handler).value@ == T::before_spec(
            old(handler).value@,
            (Context { handle: context }),
            sysnum,
        ).0,
        r == (if T::before_spec(old(handler).value@, (Context { handle: context }), sysnum).1 {
            1i8
        } else {
            0i8
        }),
{
    let mut ctx = BeforeSyscallContext::from_raw(context);
    handler.lock();
    let keep = handler.value.before_syscall(&mut ctx, sysnum);
    handler.unlock();
    if keep {
        1
    } else {
        0
    }
}

/// Adapter for the after-syscall event: forwards under the lock; the
/// context exposes the syscall's result to the handler.
pub fn after_syscall_event<T: SyscallHandler>(context: u64, sysnum: i32, handler: &mut Mutex<T>)
    requires
        !old(handler).locked,
    ensures
        !final(handler).locked,
        final(handler).value@ == T::after_spec(
            old(handler).value@,
            (Context { handle: context }),
            sysnum,
        ),
{
    let mut ctx = AfterSyscallContext::from_raw(context);
    handler.lock();
    handler.value.after_syscall(&mut ctx, sysnum);
    handler.unlock();
}

/// Adapter for the module-load event: reconstructs the context facade and
/// delivers the borrowed descriptor and loaded flag to the handler,
/// unchanged, under the lock.
pub fn module_load_event<T: ModuleHandler>(
    context: u64,
    module: &ModuleData,
    loaded: bool,
    handler: &mut Mutex<T>,
)
    requires
        !old(handler).locked,
    ensures
        !final(handler).locked,
        final(handler).value@ == T::load_spec(
            old(handler).value@,
            (Context { handle: context }),
            *module,
            loaded,
        ),
{
    let mut ctx = Context::from_raw(context);
    handler.lock();
    handler.value.load_module(&mut ctx, module, loaded);
    handler.unlock();
}

/// Adapter for the module-unload event.
pub fn module_unload_event<T: ModuleHandler>(
    context: u64,
    module: &ModuleData,
    handler: &mut Mutex<T>,
)
    requires
        !old(handler).locked,
    ensures
        !final(handler).locked,
        final(handler).value@ == T::unload_spec(
            old(handler).value@,
            (Context { handle: context }),
            *module,
        ),
{
    let mut ctx = Context::from_raw(context);
    handler.lock();
    handler.value.unload_module(&mut ctx, module);
    handler.unlock();
}

/// Adapter for the thread-creation event.
pub fn thread_init_event<T: ThreadHandler>(context: u64, handler: &mut Mutex<T>)
    requires
        !old(handler).locked,
    ensures
        !final(handler).locked,
        final(handler).value@ == T::create_thread_spec(
            old(handler).value@,
            (Context { handle: context }),
        ),
{
    let mut ctx = Context::from_raw(context);
    handler.lock();
    handler.value.create_thread(&mut ctx);
    handler.unlock();
}

/// Adapter for the thread-exit event.
pub fn thread_exit_event<T: ThreadHandler>(context: u64, handler: &mut Mutex<T>)
    requires
        !old(handler).locked,
    ensures
        !final(handler).locked,
        final(handler).value@ == T::exit_thread_spec(
            old(handler).value@,
            (Context { handle: context }),
        ),
{
    let mut ctx = Context::from_raw(context);
    handler.lock();
    handler.value.exit_thread(&mut ctx);
    handler.unlock();
}

/// The process-wide code-region analysis adapter: recovers the installed
/// analysis handler from its singleton slot and forwards the execution
/// context, the code-region handle and the two flags to it; the facades
/// the handler receives are borrowed for the call only.  With no handler
/// installed nothing is dispatched and the event reports the default emit
/// flags; with one installed, the embedding layer performs the returned
/// call and reports the flags the handler gives back.
pub fn bb_analysis_event(
    host: &HostModel,
    context: u64,
    bb: u64,
    for_trace: bool,
    translating: bool,
) -> (r: (Option<DispatchCall>, EmitFlags))
    ensures
        r.0 is Some <==> host.spec_slot(SlotKind::BbAnalysis) is Some,
        r.0 matches Some(call) ==> {
            &&& host.spec_slot(SlotKind::BbAnalysis) == Some(call.target)
            &&& call.args@ == seq![
                context,
                bb,
                spec_flag_word(for_trace),
                spec_flag_word(translating),
            ]
        },
        r.1.bits == 0,
{
    let default = EmitFlags { bits: 0 };
    match host.get_slot(SlotKind::BbAnalysis) {
        Some(func) => {
            let mut args: Vec<u64> = Vec::new();
            args.push(context);
            args.push(bb);
            args.push(flag_word(for_trace));
            args.push(flag_word(translating));
            proof {
                assert(args@ =~= seq![
                    context,
                    bb,
                    spec_flag_word(for_trace),
                    spec_flag_word(translating),
                ]);
            }
            (Some(DispatchCall { target: func, args }), default)
        },
        None => (None, default),
    }
}

/// The process-wide code-region instrumentation adapter: recovers the
/// installed instrumentation handler from its singleton slot and forwards
/// the execution context, the code-region and instruction handles and the
/// two flags to it.  With no handler installed nothing is dispatched and
/// the event reports the default emit flags.
pub fn bb_instrumentation_event(
    host: &HostModel,
    context: u64,
    bb: u64,
    instruction: u64,
    for_trace: bool,
    translating: bool,
) -> (r: (Option<DispatchCall>, EmitFlags))
    ensures
        r.0 is Some <==> host.spec_slot(SlotKind::BbInstrumentation) is Some,
        r.0 matches Some(call) ==> {
            &&& host.spec_slot(SlotKind::BbInstrumentation) == Some(call.target)
            &&& call.args@ == seq![
                context,
                bb,
                instruction,
                spec_flag_word(for_trace),
                spec_flag_word(translating),
            ]
        },
        r.1.bits == 0,
{
    let default = EmitFlags { bits: 0 };
    match host.get_slot(SlotKind::BbInstrumentation) {
        Some(func) => {
            let mut args: Vec<u64> = Vec::new();
            args.push(context);
            args.push(bb);
            args.push(instruction);
            args.push(flag_word(for_trace));
            args.push(flag_word(translating));
            proof {
                assert(args@ =~= seq![
                    context,
                    bb,
                    instruction,
                    spec_flag_word(for_trace),
                    spec_flag_word(translating),
                ]);
            }
            (Some(DispatchCall { target: func, args }), default)
        },
        None => (None, default),
    }
}

/// The two states a shared handler can end in when a before-syscall
/// dispatch (context `c1`, syscall `s1`) and an after-syscall dispatch
/// (context `c2`, syscall `s2`) run concurrently against it: each dispatch
/// applies its whole transition under the lock, so the outcome is always
/// one complete transition followed by the other, in one of the two
/// orders, and never an interleaving of partial updates.
pub open spec fn syscall_pair_outcomes<T: SyscallHandler>(
    v: T::V,
    c1: Context,
    s1: i32,
    c2: Context,
    s2: i32,
) -> Set<T::V> {
    set![
        T::after_spec(T::before_spec(v, c1, s1).0, c2, s2),
        T::before_spec(T::after_spec(v, c2, s2), c1, s1).0,
    ]
}

/// Serialization of concurrent dispatches: whichever of the two dispatches
/// is granted the lock first, the final handler state lies in
/// `syscall_pair_outcomes` — a serialized application of both complete
/// transitions in some order.
pub proof fn lemma_syscall_pair_serializes<T: SyscallHandler>(
    v: T::V,
    c1: Context,
    s1: i32,
    c2: Context,
    s2: i32,
)
    ensures
        syscall_pair_outcomes::<T>(v, c1, s1, c2, s2).contains(
            T::after_spec(T::before_spec(v, c1, s1).0, c2, s2),
        ),
        syscall_pair_outcomes::<T>(v, c1, s1, c2, s2).contains(
            T::before_spec(T::after_spec(v, c2, s2), c1, s1).0,
        ),
{
}

/// Host-stub harness for the concurrent-dispatch scenario: delivers a
/// before-syscall event and an after-syscall event to one shared handler in
/// the order the lock was granted here.  The result is a serialized
/// application of both transitions: one member of
/// `syscall_pair_outcomes`, with both entries complete and nothing
/// interleaved.
pub fn dispatch_syscall_pair<T: SyscallHandler>(
    handler: &mut Mutex<T>,
    c1: u64,
    s1: i32,
    c2: u64,
    s2: i32,
)
    requires
        !old(handler).locked,
    ensures
        !final(handler).locked,
        final(handler).value@ == T::after_spec(
            T::before_spec(old(handler).value@, (Context { handle: c1 }), s1).0,
            (Context { handle: c2 }),
            s2,
        ),
        syscall_pair_outcomes::<T>(
            old(handler).value@,
            (Context { handle: c1 }),
            s1,
            (Context { handle: c2 }),
            s2,
        ).contains(final(handler).value@),
{
    before_syscall_event(c1, s1, handler);
    after_syscall_event(c2, s2, handler);
}

/// Registration token for the syscall events.  Owns the arity-2 filter
/// trampoline and the three host registrations (filter, before, after);
/// destruction withdraws all three, then releases the trampoline block.
pub struct RegisteredSyscallHandler {
    closure: Closure,
    before_entry: u64,
    after_entry: u64,
    active: bool,
}

impl RegisteredSyscallHandler {
    /// The filter trampoline owned by this token.
    pub closed spec fn spec_closure(self) -> Closure {
        self.closure
    }

    /// The entry registered for the before-syscall event.
    pub closed spec fn spec_before_entry(self) -> u64 {
        self.before_entry
    }

    /// The entry registered for the after-syscall event.
    pub closed spec fn spec_after_entry(self) -> u64 {
        self.after_entry
    }

    /// Whether the registration has not been torn down yet.
    pub closed spec fn is_active(self) -> bool {
        self.active
    }

    /// Well-formedness: the filter trampoline is well formed, with the two
    /// parameters (context and syscall number) the filter callback takes.
    pub open spec fn wf(self) -> bool {
        &&& self.spec_closure().wf()
        &&& self.spec_closure().spec_arity() == 2
    }

    /// The bare filter pointer the host holds.
    pub open spec fn spec_entry(self) -> u64 {
        (self.spec_closure().spec_block().addr + CODE_OFFSET as u64) as u64
    }

    /// Tears the registration down: withdraw the filter, before and after
    /// registrations from the host, then release the trampoline block, in
    /// that order and exactly once.  Idempotent: a second destruction
    /// performs no step and touches nothing.
    pub fn destroy(
        &mut self,
        host: &mut HostModel,
        alloc: &mut ExecAllocator,
    ) -> (steps: Vec<TeardownStep>)
        requires
            old(self).wf(),
            old(alloc).wf(),
            old(self).is_active() ==> old(alloc).is_live(old(self).spec_closure().spec_block()),
        ensures
            final(self).wf(),
            final(alloc).wf(),
            !final(self).is_active(),
            final(self).spec_closure() == old(self).spec_closure(),
            !old(self).is_active() ==> {
                &&& steps@ == Seq::<TeardownStep>::empty()
                &&& *final(host) == *old(host)
                &&& *final(alloc) == *old(alloc)
            },
            old(self).is_active() ==> {
                let block = old(self).spec_closure().spec_block();
                &&& steps@ == seq![
                    (TeardownStep::Unregister {
                        kind: EventKind::FilterSyscall,
                        entry: old(self).spec_entry(),
                    }),
                    (TeardownStep::Unregister {
                        kind: EventKind::BeforeSyscall,
                        entry: old(self).spec_before_entry(),
                    }),
                    (TeardownStep::Unregister {
                        kind: EventKind::AfterSyscall,
                        entry: old(self).spec_after_entry(),
                    }),
                    (TeardownStep::Free { addr: block.addr, size: block.size }),
                ]
                &&& !final(host).has_kind_entry(EventKind::FilterSyscall, old(self).spec_entry())
                &&& !final(host).has_kind_entry(
                    EventKind::BeforeSyscall,
                    old(self).spec_before_entry(),
                )
                &&& !final(host).has_kind_entry(
                    EventKind::AfterSyscall,
                    old(self).spec_after_entry(),
                )
                &&& forall|r: Registration|
                    {
                        &&& !(r.kind == EventKind::FilterSyscall && r.entry == old(
                            self,
                        ).spec_entry())
                        &&& !(r.kind == EventKind::BeforeSyscall && r.entry == old(
                            self,
                        ).spec_before_entry())
                        &&& !(r.kind == EventKind::AfterSyscall && r.entry == old(
                            self,
                        ).spec_after_entry())
                    } ==> (final(host).is_registered(r) <==> old(host).is_registered(r))
                &&& final(host).slots == old(host).slots
                &&& !final(alloc).is_live(block)
                &&& !final(alloc).has_addr(block.addr)
                &&& final(alloc).live_blocks().len() == old(alloc).live_blocks().len() - 1
                &&& forall|b: Block|
                    b.addr != block.addr
                        ==> (final(alloc).is_live(b) <==> old(alloc).is_live(b))
            },
    {
        let mut steps: Vec<TeardownStep> = Vec::new();
        if !self.active {
            return steps;
        }
        self.active = false;
        let entry = self.closure.code();
        host.unregister(EventKind::FilterSyscall, entry);
        steps.push(TeardownStep::Unregister { kind: EventKind::FilterSyscall, entry });
        let ghost host1 = *host;
        host.unregister(EventKind::BeforeSyscall, self.before_entry);
        steps.push(
            TeardownStep::Unregister {
                kind: EventKind::BeforeSyscall,
                entry: self.before_entry,
            },
        );
        let ghost host2 = *host;
        host.unregister(EventKind::AfterSyscall, self.after_entry);
        steps.push(
            TeardownStep::Unregister { kind: EventKind::AfterSyscall, entry: self.after_entry },
        );
        proof {
            lemma_absence_preserved(
                host1,
                host2,
                EventKind::FilterSyscall,
                entry,
                EventKind::BeforeSyscall,
                self.before_entry,
            );
            lemma_absence_preserved(
                host2,
                *host,
                EventKind::FilterSyscall,
                entry,
                EventKind::AfterSyscall,
                self.after_entry,
            );
            lemma_absence_preserved(
                host2,
                *host,
                EventKind::BeforeSyscall,
                self.before_entry,
                EventKind::AfterSyscall,
                self.after_entry,
            );
        }
        let block = self.closure.block();
        proof {
            crate::exec_memory::lemma_live_has_addr(*alloc, block);
        }
        let released = alloc.release(block.addr, block.size);
        proof {
            assert(released is Ok);
        }
        steps.push(TeardownStep::Free { addr: block.addr, size: block.size });
        proof {
            assert(steps@ =~= seq![
                (TeardownStep::Unregister { kind: EventKind::FilterSyscall, entry }),
                (TeardownStep::Unregister {
                    kind: EventKind::BeforeSyscall,
                    entry: self.before_entry,
                }),
                (TeardownStep::Unregister {
                    kind: EventKind::AfterSyscall,
                    entry: self.after_entry,
                }),
                (TeardownStep::Free { addr: block.addr, size: block.size }),
            ]);
        }
        steps
    }
}

/// Registration token for the module load/unload events.  No trampoline is
/// involved: both registrations use the host's user-data mechanism.
pub struct RegisteredModuleHandler {
    load_entry: u64,
    unload_entry: u64,
    active: bool,
}

impl RegisteredModuleHandler {
    /// The entry registered for the module-load event.
    pub closed spec fn spec_load_entry(self) -> u64 {
        self.load_entry
    }

    /// The entry registered for the module-unload event.
    pub closed spec fn spec_unload_entry(self) -> u64 {
        self.unload_entry
    }

    /// Whether the registration has not been torn down yet.
    pub closed spec fn is_active(self) -> bool {
        self.active
    }

    /// Tears the registration down: withdraw the load and unload
    /// registrations from the host.  Idempotent; there is no block to
    /// release.
    pub fn destroy(&mut self, host: &mut HostModel) -> (steps: Vec<TeardownStep>)
        ensures
            !final(self).is_active(),
            final(self).spec_load_entry() == old(self).spec_load_entry(),
            final(self).spec_unload_entry() == old(self).spec_unload_entry(),
            !old(self).is_active() ==> {
                &&& steps@ == Seq::<TeardownStep>::empty()
                &&& *final(host) == *old(host)
            },
            old(self).is_active() ==> {
                &&& steps@ == seq![
                    (TeardownStep::Unregister {
                        kind: EventKind::ModuleLoad,
                        entry: old(self).spec_load_entry(),
                    }),
                    (TeardownStep::Unregister {
                        kind: EventKind::ModuleUnload,
                        entry: old(self).spec_unload_entry(),
                    }),
                ]
                &&& !final(host).has_kind_entry(
                    EventKind::ModuleLoad,
                    old(self).spec_load_entry(),
                )
                &&& !final(host).has_kind_entry(
                    EventKind::ModuleUnload,
                    old(self).spec_unload_entry(),
                )
                &&& forall|r: Registration|
                    {
                        &&& !(r.kind == EventKind::ModuleLoad && r.entry == old(
                            self,
                        ).spec_load_entry())
                        &&& !(r.kind == EventKind::ModuleUnload && r.entry == old(
                            self,
                        ).spec_unload_entry())
                    } ==> (final(host).is_registered(r) <==> old(host).is_registered(r))
                &&& final(host).slots == old(host).slots
            },
    {
        let mut steps: Vec<TeardownStep> = Vec::new();
        if !self.active {
            return steps;
        }
        self.active = false;
        host.unregister(EventKind::ModuleLoad, self.load_entry);
        steps.push(
            TeardownStep::Unregister { kind: EventKind::ModuleLoad, entry: self.load_entry },
        );
        let ghost host1 = *host;
        host.unregister(EventKind::ModuleUnload, self.unload_entry);
        steps.push(
            TeardownStep::Unregister { kind: EventKind::ModuleUnload, entry: self.unload_entry },
        );
        proof {
            lemma_absence_preserved(
                host1,
                *host,
                EventKind::ModuleLoad,
                self.load_entry,
                EventKind::ModuleUnload,
                self.unload_entry,
            );
            assert(steps@ =~= seq![
                (TeardownStep::Unregister {
                    kind: EventKind::ModuleLoad,
                    entry: self.load_entry,
                }),
                (TeardownStep::Unregister {
                    kind: EventKind::ModuleUnload,
                    entry: self.unload_entry,
                }),
            ]);
        }
        steps
    }
}

/// Registration token for the thread init/exit events; both use the host's
/// user-data mechanism, so no trampoline is involved.
pub struct RegisteredThreadHandler {
    init_entry: u64,
    exit_entry: u64,
    active: bool,
}

impl RegisteredThreadHandler {
    /// The entry registered for the thread-init event.
    pub closed spec fn spec_init_entry(self) -> u64 {
        self.init_entry
    }

    /// The entry registered for the thread-exit event.
    pub closed spec fn spec_exit_entry(self) -> u64 {
        self.exit_entry
    }

    /// Whether the registration has not been torn down yet.
    pub closed spec fn is_active(self) -> bool {
        self.active
    }

    /// Tears the registration down: withdraw the init and exit
    /// registrations from the host.  Idempotent.
    pub fn destroy(&mut self, host: &mut HostModel) -> (steps: Vec<TeardownStep>)
        ensures
            !final(self).is_active(),
            final(self).spec_init_entry() == old(self).spec_init_entry(),
            final(self).spec_exit_entry() == old(self).spec_exit_entry(),
            !old(self).is_active() ==> {
                &&& steps@ == Seq::<TeardownStep>::empty()
                &&& *final(host) == *old(host)
            },
            old(self).is_active() ==> {
                &&& steps@ == seq![
                    (TeardownStep::Unregister {
                        kind: EventKind::ThreadInit,
                        entry: old(self).spec_init_entry(),
                    }),
                    (TeardownStep::Unregister {
                        kind: EventKind::ThreadExit,
                        entry: old(self).spec_exit_entry(),
                    }),
                ]
                &&& !final(host).has_kind_entry(EventKind::ThreadInit, old(self).spec_init_entry())
                &&& !final(host).has_kind_entry(EventKind::ThreadExit, old(self).spec_exit_entry())
                &&& forall|r: Registration|
                    {
                        &&& !(r.kind == EventKind::ThreadInit && r.entry == old(
                            self,
                        ).spec_init_entry())
                        &&& !(r.kind == EventKind::ThreadExit && r.entry == old(
                            self,
                        ).spec_exit_entry())
                    } ==> (final(host).is_registered(r) <==> old(host).is_registered(r))
                &&& final(host).slots == old(host).slots
            },
    {
        let mut steps: Vec<TeardownStep> = Vec::new();
        if !self.active {
            return steps;
        }
        self.active = false;
        host.unregister(EventKind::ThreadInit, self.init_entry);
        steps.push(
            TeardownStep::Unregister { kind: EventKind::ThreadInit, entry: self.init_entry },
        );
        let ghost host1 = *host;
        host.unregister(EventKind::ThreadExit, self.exit_entry);
        steps.push(
            TeardownStep::Unregister { kind: EventKind::ThreadExit, entry: self.exit_entry },
        );
        proof {
            lemma_absence_preserved(
                host1,
                *host,
                EventKind::ThreadInit,
                self.init_entry,
                EventKind::ThreadExit,
                self.exit_entry,
            );
            assert(steps@ =~= seq![
                (TeardownStep::Unregister {
                    kind: EventKind::ThreadInit,
                    entry: self.init_entry,
                }),
                (TeardownStep::Unregister {
                    kind: EventKind::ThreadExit,
                    entry: self.exit_entry,
                }),
            ]);
        }
        steps
    }
}

impl Manager {
    /// Initializes the managed-event layer.
    pub fn new() -> (r: Self) {
        Manager
    }

    /// Interprets the host's answer when asked to decode a syscall number
    /// from a wrapper's entry point: a negative answer means the number
    /// could not be decoded.
    pub fn decode_sysnum_from_wrapper(&self, raw: i32) -> (r: Option<u32>)
        ensures
            r is Some <==> raw >= 0,
            r matches Some(v) ==> v == raw as u32,
    {
        if raw < 0 {
            None
        } else {
            Some(raw as u32)
        }
    }

    /// Registers a handler for the syscall events: builds the arity-2
    /// filter trampoline capturing `handler_addr` and forwarding to
    /// `filter_dispatcher`, and records the filter plus the user-data-based
    /// before/after registrations with the host.  On a fatal allocation
    /// failure nothing is registered and no state changes.
    pub fn register_syscall_handler(
        &self,
        host: &mut HostModel,
        alloc: &mut ExecAllocator,
        handler_addr: u64,
        filter_dispatcher: u64,
        before_dispatcher: u64,
        after_dispatcher: u64,
    ) -> (r: Result<RegisteredSyscallHandler, FatalError>)
        requires
            old(alloc).wf(),
        ensures
            final(alloc).wf(),
            r is Ok <==> CODE_OFFSET + spec_code_len(2) <= old(alloc).spec_free_space(),
            match r {
                Ok(token) => {
                    &&& token.wf()
                    &&& token.is_active()
                    &&& token.spec_closure().spec_context() == handler_addr
                    &&& token.spec_closure().spec_dispatcher() == filter_dispatcher
                    &&& token.spec_before_entry() == before_dispatcher
                    &&& token.spec_after_entry() == after_dispatcher
                    &&& final(host).registrations() == old(host).registrations()
                        .push(
                            (Registration {
                                kind: EventKind::FilterSyscall,
                                entry: token.spec_entry(),
                                user_data: 0,
                            }),
                        )
                        .push(
                            (Registration {
                                kind: EventKind::BeforeSyscall,
                                entry: before_dispatcher,
                                user_data: handler_addr,
                            }),
                        )
                        .push(
                            (Registration {
                                kind: EventKind::AfterSyscall,
                                entry: after_dispatcher,
                                user_data: handler_addr,
                            }),
                        )
                    &&& final(host).slots == old(host).slots
                    &&& final(alloc).live_blocks() == old(alloc).live_blocks().push(
                        token.spec_closure().spec_block(),
                    )
                    &&& final(alloc).is_live(token.spec_closure().spec_block())
                },
                Err(e) => {
                    &&& e == FatalError::OutOfExecutableMemory
                    &&& *final(host) == *old(host)
                    &&& *final(alloc) == *old(alloc)
                },
            },
    {
        let closure = match Closure::new(alloc, 2, filter_dispatcher, handler_addr) {
            Ok(closure) => closure,
            Err(e) => {
                return Err(e);
            },
        };
        let entry = closure.code();
        host.register(EventKind::FilterSyscall, entry, 0);
        host.register(EventKind::BeforeSyscall, before_dispatcher, handler_addr);
        host.register(EventKind::AfterSyscall, after_dispatcher, handler_addr);
        let token = RegisteredSyscallHandler {
            closure,
            before_entry: before_dispatcher,
            after_entry: after_dispatcher,
            active: true,
        };
        proof {
            let b = token.spec_closure().spec_block();
            assert(alloc.live_blocks().last() == b);
            assert(alloc.live_blocks().contains(b));
        }
        Ok(token)
    }

    /// Registers a handler for the module load/unload events through the
    /// host's user-data mechanism: `load_dispatcher` and
    /// `unload_dispatcher` are the adapters' addresses, and `handler_addr`
    /// is handed back on every delivery.
    pub fn register_module_handler(
        &self,
        host: &mut HostModel,
        handler_addr: u64,
        load_dispatcher: u64,
        unload_dispatcher: u64,
    ) -> (token: RegisteredModuleHandler)
        ensures
            token.is_active(),
            token.spec_load_entry() == load_dispatcher,
            token.spec_unload_entry() == unload_dispatcher,
            final(host).registrations() == old(host).registrations()
                .push(
                    (Registration {
                        kind: EventKind::ModuleLoad,
                        entry: load_dispatcher,
                        user_data: handler_addr,
                    }),
                )
                .push(
                    (Registration {
                        kind: EventKind::ModuleUnload,
                        entry: unload_dispatcher,
                        user_data: handler_addr,
                    }),
                ),
            final(host).slots == old(host).slots,
    {
        host.register(EventKind::ModuleLoad, load_dispatcher, handler_addr);
        host.register(EventKind::ModuleUnload, unload_dispatcher, handler_addr);
        RegisteredModuleHandler {
            load_entry: load_dispatcher,
            unload_entry: unload_dispatcher,
            active: true,
        }
    }

    /// Registers a handler for the thread init/exit events through the
    /// host's user-data mechanism.
    pub fn register_thread_handler(
        &self,
        host: &mut HostModel,
        handler_addr: u64,
        init_dispatcher: u64,
        exit_dispatcher: u64,
    ) -> (token: RegisteredThreadHandler)
        ensures
            token.is_active(),
            token.spec_init_entry() == init_dispatcher,
            token.spec_exit_entry() == exit_dispatcher,
            final(host).registrations() == old(host).registrations()
                .push(
                    (Registration {
                        kind: EventKind::ThreadInit,
                        entry: init_dispatcher,
                        user_data: handler_addr,
                    }),
                )
                .push(
                    (Registration {
                        kind: EventKind::ThreadExit,
                        entry: exit_dispatcher,
                        user_data: handler_addr,
                    }),
                ),
            final(host).slots == old(host).slots,
    {
        host.register(EventKind::ThreadInit, init_dispatcher, handler_addr);
        host.register(EventKind::ThreadExit, exit_dispatcher, handler_addr);
        RegisteredThreadHandler {
            init_entry: init_dispatcher,
            exit_entry: exit_dispatcher,
            active: true,
        }
    }

    /// Installs a thread-init handler through the host's user-data
    /// mechanism, with no token and hence no teardown path: the
    /// registration lives until process exit.
    pub fn register_thread_init_event(&self, host: &mut HostModel, func: u64)
        ensures
            final(host).registrations() == old(host).registrations().push(
                (Registration { kind: EventKind::ThreadInit, entry: func, user_data: 0 }),
            ),
            final(host).slots == old(host).slots,
    {
        host.register(EventKind::ThreadInit, func, 0);
    }

    /// Installs a thread-exit handler through the host's user-data
    /// mechanism, with no token and hence no teardown path: the
    /// registration lives until process exit.
    pub fn register_thread_exit_event(&self, host: &mut HostModel, func: u64)
        ensures
            final(host).registrations() == old(host).registrations().push(
                (Registration { kind: EventKind::ThreadExit, entry: func, user_data: 0 }),
            ),
            final(host).slots == old(host).slots,
    {
        host.register(EventKind::ThreadExit, func, 0);
    }



    /// Installs the process-wide code-region analysis and instrumentation
    /// handlers in their singleton slots; `None` clears a slot.  The last
    /// writer wins.
    pub fn register_bb_instrumentation_event(
        &self,
        host: &mut HostModel,
        analysis_func: Option<u64>,
        instrumentation_func: Option<u64>,
    )
        ensures
            final(host).spec_slot(SlotKind::BbAnalysis) == analysis_func,
            final(host).spec_slot(SlotKind::BbInstrumentation) == instrumentation_func,
            forall|k: SlotKind|
                k != SlotKind::BbAnalysis && k != SlotKind::BbInstrumentation
                    ==> final(host).spec_slot(k) == old(host).spec_slot(k),
            final(host).registrations() == old(host).registrations(),
    {
        host.set_slot(SlotKind::BbAnalysis, analysis_func);
        host.set_slot(SlotKind::BbInstrumentation, instrumentation_func);
    }

}

} // verus!
