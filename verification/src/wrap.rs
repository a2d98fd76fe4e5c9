//! Native-function replacement: a resolved symbol's entry point is handed
//! over to a replacement wrapper, with the shared handler's address stashed
//! in a host spill slot for the wrapper to recover.
//!
//! The host may decline a replacement (for instance when the symbol was
//! not found); that is a registration failure, surfaced as an absent
//! result rather than an error the caller could mistake for an active
//! token.  The token's destruction restores the original entry point.

use crate::handlers::FunctionHandler;
use crate::host::{EventKind, HostModel, Registration, TeardownStep};
use crate::module::ModuleData;
use crate::sync::Mutex;
use vstd::prelude::*;

verus! {

/// Capability for the function-wrapping layer; constructing it stands for
/// the layer's one-time initialization in the embedding program.
pub struct Wrapper;

/// Registration token for one replaced native function.
pub struct RegisteredFunctionHandler {
    original: u64,
    active: bool,
}

impl RegisteredFunctionHandler {
    /// The entry point of the function that was replaced.
    pub closed spec fn spec_original(self) -> u64 {
        self.original
    }

    /// Whether the replacement has not been torn down yet.
    pub closed spec fn is_active(self) -> bool {
        self.active
    }

    /// The entry point of the function that was replaced.
    pub fn original(&self) -> (r: u64)
        ensures
            r == self.spec_original(),
    {
        self.original
    }

    /// Tears the replacement down: the original entry point is restored
    /// with the host.  Idempotent; no executable memory is involved, since
    /// the replacement mechanism uses the host's spill slot rather than a
    /// trampoline.
    pub fn destroy(&mut self, host: &mut HostModel) -> (steps: Vec<TeardownStep>)
        ensures
            !final(self).is_active(),
            final(self).spec_original() == old(self).spec_original(),
            !old(self).is_active() ==> {
                &&& steps@ == Seq::<TeardownStep>::empty()
                &&& *final(host) == *old(host)
            },
            old(self).is_active() ==> {
                &&& steps@ == seq![
                    (TeardownStep::Unregister {
                        kind: EventKind::FunctionReplace,
                        entry: old(self).spec_original(),
                    }),
                ]
                &&& !final(host).has_kind_entry(
                    EventKind::FunctionReplace,
                    old(self).spec_original(),
                )
                &&& forall|r: Registration|
                    !(r.kind == EventKind::FunctionReplace && r.entry == old(
                        self,
                    ).spec_original())
                        ==> (final(host).is_registered(r) <==> old(host).is_registered(r))
                &&& final(host).slots == old(host).slots
            },
    {
        let mut steps: Vec<TeardownStep> = Vec::new();
        if !self.active {
            return steps;
        }
        self.active = false;
        host.unregister(EventKind::FunctionReplace, self.original);
        steps.push(
            TeardownStep::Unregister { kind: EventKind::FunctionReplace, entry: self.original },
        );
        proof {
            assert(steps@ =~= seq![
                (TeardownStep::Unregister {
                    kind: EventKind::FunctionReplace,
                    entry: self.original,
                }),
            ]);
        }
        steps
    }
}

impl Wrapper {
    /// Initializes the function-wrapping layer.
    pub fn new() -> (r: Self) {
        Wrapper
    }

    /// Asks the host to replace the native function at `original` with the
    /// replacement wrapper at `replacement`, stashing `handler_addr` for
    /// the wrapper to recover.  `host_accepts` carries the host's verdict,
    /// which depends on state outside this model: when the host declines,
    /// nothing is registered, nothing changes, and the absent result tells
    /// the caller no token ever became active.
    pub fn replace_native(
        &self,
        host: &mut HostModel,
        original: u64,
        replacement: u64,
        handler_addr: u64,
        host_accepts: bool,
    ) -> (r: Option<RegisteredFunctionHandler>)
        ensures
            r is Some <==> host_accepts,
            r matches Some(token) ==> {
                &&& token.is_active()
                &&& token.spec_original() == original
                &&& final(host).registrations() == old(host).registrations().push(
                    (Registration {
                        kind: EventKind::FunctionReplace,
                        entry: original,
                        user_data: handler_addr,
                    }),
                )
                &&& final(host).slots == old(host).slots
            },
            !host_accepts ==> *final(host) == *old(host),
    {
        let _ = replacement;
        if !host_accepts {
            return None;
        }
        host.register(EventKind::FunctionReplace, original, handler_addr);
        Some(RegisteredFunctionHandler { original, active: true })
    }

    /// Replaces a function of `module` found by symbol lookup: `symbol` is
    /// the lookup's outcome, absent when the module exports no such name —
    /// a registration failure the caller must check before assuming the
    /// token is active.
    pub fn replace_module_function(
        &self,
        host: &mut HostModel,
        module: &ModuleData,
        symbol: Option<u64>,
        replacement: u64,
        handler_addr: u64,
        host_accepts: bool,
    ) -> (r: Option<RegisteredFunctionHandler>)
        ensures
            r is Some <==> symbol is Some && host_accepts,
            r matches Some(token) ==> {
                &&& token.is_active()
                &&& Some(token.spec_original()) == symbol
                &&& final(host).registrations() == old(host).registrations().push(
                    (Registration {
                        kind: EventKind::FunctionReplace,
                        entry: token.spec_original(),
                        user_data: handler_addr,
                    }),
                )
                &&& final(host).slots == old(host).slots
            },
            !(symbol is Some && host_accepts) ==> *final(host) == *old(host),
    {
        let _ = module;
        match symbol {
            Some(address) => self.replace_native(
                host,
                address,
                replacement,
                handler_addr,
                host_accepts,
            ),
            None => None,
        }
    }
}

/// The dispatch a replacement wrapper performs: recover the shared handler
/// from the spill slot, acquire its lock, run the handler's `call` with
/// the original's argument vector, release the lock, and hand the result
/// back as the replaced function's return value.
pub fn call_wrapper<T: FunctionHandler>(args: &Vec<u64>, handler: &mut Mutex<T>) -> (r: u64)
    requires
        !old(handler).locked,
    ensures
        !final(handler).locked,
        (final(handler).value@, r) == T::call_spec(old(handler).value@, args@),
{
    handler.lock();
    let r = handler.value.call(args);
    handler.unlock();
    r
}

} // verus!
