//! Process-exit registration and the fork/nudge singleton events.
//!
//! The exit event takes the full trampoline path: registration builds a
//! zero-arity trampoline capturing the shared handler's address, hands the
//! host the bare pointer, and returns a token.  The token's destruction is
//! the single point of teardown, strictly two-phase: unregister with the
//! host first (after which the host will not call the pointer again), then
//! release the executable block.  Fork and nudge are host singletons: a
//! process-wide slot holds the one installed handler, and the last writer
//! wins.
//!
//! The embedding layer supplies the two addresses a registration captures:
//! `dispatcher`, the address of the monomorphized dispatch function the
//! trampoline forwards to, and `handler_addr`, the address of the shared
//! handler container recovered as the dispatcher's trailing argument.

use crate::arity::{spec_code_len, CODE_OFFSET};
use crate::closure::{Closure, DispatchCall};
use crate::error::FatalError;
use crate::exec_memory::{Block, ExecAllocator};
use crate::handlers::ExitHandler;
use crate::host::{EventKind, HostModel, Registration, SlotKind, TeardownStep};
use crate::sync::Mutex;
use crate::ClientId;
use vstd::prelude::*;

verus! {

/// The dispatch the exit trampoline forwards to: acquire the shared
/// handler's lock, run the handler's exit callback, release the lock.  The
/// whole transition is applied under the lock, and the lock is free again
/// when control returns to the host.
pub fn exit_wrapper<T: ExitHandler>(handler: &mut Mutex<T>)
    requires
        !old(handler).locked,
    ensures
        !final(handler).locked,
        final(handler).value@ == T::exit_spec(old(handler).value@),
{
    handler.lock();
    handler.value.exit();
    handler.unlock();
}

/// Registration token for the process-exit event.  Owns the trampoline;
/// destruction unregisters with the host and then releases the block.
pub struct RegisteredExitHandler {
    closure: Closure,
    active: bool,
}

impl RegisteredExitHandler {
    /// The trampoline owned by this token.
    pub closed spec fn spec_closure(self) -> Closure {
        self.closure
    }

    /// Whether the registration has not been torn down yet.
    pub closed spec fn is_active(self) -> bool {
        self.active
    }

    /// Well-formedness: the trampoline is well formed and has arity zero.
    pub open spec fn wf(self) -> bool {
        &&& self.spec_closure().wf()
        &&& self.spec_closure().spec_arity() == 0
    }

    /// The bare pointer the host holds: the trampoline's code address.
    pub open spec fn spec_entry(self) -> u64 {
        (self.spec_closure().spec_block().addr + CODE_OFFSET as u64) as u64
    }

    /// The bare pointer the host holds.
    pub fn entry(&self) -> (r: u64)
        requires
            self.wf(),
        ensures
            r == self.spec_entry(),
    {
        self.closure.code()
    }

    /// Tears the registration down: unregister with the host, then release
    /// the executable block, in that order — the host may still invoke the
    /// bare pointer until the unregistration call drains in-flight calls,
    /// so the memory must not be released first.  Idempotent with respect
    /// to observable state: a second destruction performs no step, touches
    /// neither the host nor the allocator, and the block is released
    /// exactly once.  Returns the steps performed, in order.
    pub fn destroy(
        &mut self,
        host: &mut HostModel,
        alloc: &mut ExecAllocator,
    ) -> (steps: Vec<TeardownStep>)
        requires
            old(self).wf(),
            old(alloc).wf(),
            old(self).is_active() ==> old(alloc).is_live(old(self).spec_closure().spec_block()),
        ensures
            final(self).wf(),
            final(alloc).wf(),
            !final(self).is_active(),
            final(self).spec_closure() == old(self).spec_closure(),
            !old(self).is_active() ==> {
                &&& steps@ == Seq::<TeardownStep>::empty()
                &&& *final(host) == *old(host)
                &&& *final(alloc) == *old(alloc)
            },
            old(self).is_active() ==> {
                let block = old(self).spec_closure().spec_block();
                &&& steps@ == seq![
                    (TeardownStep::Unregister {
                        kind: EventKind::Exit,
                        entry: old(self).spec_entry(),
                    }),
                    (TeardownStep::Free { addr: block.addr, size: block.size }),
                ]
                &&& !final(host).has_kind_entry(EventKind::Exit, old(self).spec_entry())
                &&& forall|r: Registration|
                    !(r.kind == EventKind::Exit && r.entry == old(self).spec_entry())
                        ==> (final(host).is_registered(r) <==> old(host).is_registered(r))
                &&& final(host).slots == old(host).slots
                &&& !final(alloc).is_live(block)
                &&& !final(alloc).has_addr(block.addr)
                &&& final(alloc).live_blocks().len() == old(alloc).live_blocks().len() - 1
                &&& forall|b: Block|
                    b.addr != block.addr
                        ==> (final(alloc).is_live(b) <==> old(alloc).is_live(b))
            },
    {
        let mut steps: Vec<TeardownStep> = Vec::new();
        if !self.active {
            return steps;
        }
        self.active = false;
        let entry = self.closure.code();
        host.unregister(EventKind::Exit, entry);
        steps.push(TeardownStep::Unregister { kind: EventKind::Exit, entry });
        let block = self.closure.block();
        proof {
            crate::exec_memory::lemma_live_has_addr(*alloc, block);
        }
        let released = alloc.release(block.addr, block.size);
        proof {
            assert(released is Ok);
        }
        steps.push(TeardownStep::Free { addr: block.addr, size: block.size });
        proof {
            assert(steps@ =~= seq![
                (TeardownStep::Unregister { kind: EventKind::Exit, entry }),
                (TeardownStep::Free { addr: block.addr, size: block.size }),
            ]);
        }
        steps
    }
}

/// Registers a handler for the process-exit event: builds a zero-arity
/// trampoline that captures `handler_addr` and forwards to `dispatcher`,
/// hands the host the bare pointer, and returns the token owning the
/// trampoline.  On a fatal allocation failure nothing is registered and no
/// state changes.
pub fn register_exit_handler(
    host: &mut HostModel,
    alloc: &mut ExecAllocator,
    dispatcher: u64,
    handler_addr: u64,
) -> (r: Result<RegisteredExitHandler, FatalError>)
    requires
        old(alloc).wf(),
    ensures
        final(alloc).wf(),
        r is Ok <==> CODE_OFFSET + spec_code_len(0) <= old(alloc).spec_free_space(),
        match r {
            Ok(token) => {
                &&& token.wf()
                &&& token.is_active()
                &&& token.spec_closure().spec_context() == handler_addr
                &&& token.spec_closure().spec_dispatcher() == dispatcher
                &&& final(host).registrations() == old(host).registrations().push(
                    (Registration {
                        kind: EventKind::Exit,
                        entry: token.spec_entry(),
                        user_data: 0,
                    }),
                )
                &&& final(host).slots == old(host).slots
                &&& final(alloc).live_blocks() == old(alloc).live_blocks().push(
                    token.spec_closure().spec_block(),
                )
                &&& final(alloc).is_live(token.spec_closure().spec_block())
            },
            Err(e) => {
                &&& e == FatalError::OutOfExecutableMemory
                &&& *final(host) == *old(host)
                &&& *final(alloc) == *old(alloc)
            },
        },
{
    let closure = match Closure::new(alloc, 0, dispatcher, handler_addr) {
        Ok(closure) => closure,
        Err(e) => {
            return Err(e);
        },
    };
    let entry = closure.code();
    host.register(EventKind::Exit, entry, 0);
    let token = RegisteredExitHandler { closure, active: true };
    proof {
        let b = token.spec_closure().spec_block();
        assert(alloc.live_blocks().last() == b);
        assert(alloc.live_blocks().contains(b));
    }
    Ok(token)
}

/// Host-stub harness: the host attempts to call the bare exit pointer owned
/// by `token`.  The call goes through only while the registration is
/// present — after the token's teardown the pointer is stale and nothing is
/// dispatched, leaving the handler untouched.  When it fires, the
/// trampoline recovers the captured context and the dispatch applies the
/// handler's exit transition exactly once.
pub fn fire_exit<T: ExitHandler>(
    host: &HostModel,
    token: &RegisteredExitHandler,
    handler: &mut Mutex<T>,
) -> (fired: bool)
    requires
        token.wf(),
        !old(handler).locked,
    ensures
        !final(handler).locked,
        fired == host.has_kind_entry(EventKind::Exit, token.spec_entry()),
        fired ==> final(handler).value@ == T::exit_spec(old(handler).value@),
        !fired ==> final(handler).value == old(handler).value,
{
    let entry = token.entry();
    if host.is_registered_entry(EventKind::Exit, entry) {
        let args: Vec<u64> = Vec::new();
        let call: DispatchCall = token.closure.invoke(&args);
        proof {
            assert(call.args@ =~= seq![token.spec_closure().spec_context()]);
        }
        exit_wrapper(handler);
        true
    } else {
        false
    }
}

/// Installs `func` as the process-wide fork handler.  Unix-only in the
/// embedding layer; the slot semantics are the same everywhere: the last
/// writer wins, and a re-registration silently supersedes the previous
/// handler.
pub fn register_fork_event(host: &mut HostModel, func: u64)
    ensures
        final(host).spec_slot(SlotKind::Fork) == Some(func),
        forall|k: SlotKind| k != SlotKind::Fork ==> final(host).spec_slot(k) == old(
            host,
        ).spec_slot(k),
        final(host).registrations() == old(host).registrations(),
{
    host.set_slot(SlotKind::Fork, Some(func));
}

/// Installs `func` as the process-wide nudge handler; the host delivers
/// nudges for the client identified by `client_id`.  Last writer wins.
pub fn register_nudge_event(host: &mut HostModel, func: u64, client_id: ClientId)
    ensures
        final(host).spec_slot(SlotKind::Nudge) == Some(func),
        forall|k: SlotKind| k != SlotKind::Nudge ==> final(host).spec_slot(k) == old(
            host,
        ).spec_slot(k),
        final(host).registrations() == old(host).registrations(),
{
    let _ = client_id;
    host.set_slot(SlotKind::Nudge, Some(func));
}

/// The fork-event adapter: recovers the installed fork handler from the
/// process-wide slot and forwards the execution context to it; with no
/// handler installed nothing is dispatched.
pub fn fork_event(host: &HostModel, context: u64) -> (r: Option<DispatchCall>)
    ensures
        r is Some <==> host.spec_slot(SlotKind::Fork) is Some,
        r matches Some(call) ==> {
            &&& host.spec_slot(SlotKind::Fork) == Some(call.target)
            &&& call.args@ == seq![context]
        },
{
    match host.get_slot(SlotKind::Fork) {
        Some(func) => {
            let mut args: Vec<u64> = Vec::new();
            args.push(context);
            proof {
                assert(args@ =~= seq![context]);
            }
            Some(DispatchCall { target: func, args })
        },
        None => None,
    }
}

/// The nudge-event adapter: recovers the installed nudge handler from the
/// process-wide slot and forwards the execution context and the 64-bit
/// nudge argument to it; with no handler installed nothing is dispatched.
pub fn nudge_event(host: &HostModel, context: u64, argument: u64) -> (r: Option<DispatchCall>)
    ensures
        r is Some <==> host.spec_slot(SlotKind::Nudge) is Some,
        r matches Some(call) ==> {
            &&& host.spec_slot(SlotKind::Nudge) == Some(call.target)
            &&& call.args@ == seq![context, argument]
        },
{
    match host.get_slot(SlotKind::Nudge) {
        Some(func) => {
            let mut args: Vec<u64> = Vec::new();
            args.push(context);
            args.push(argument);
            proof {
                assert(args@ =~= seq![context, argument]);
            }
            Some(DispatchCall { target: func, args })
        },
        None => None,
    }
}

} // verus!
