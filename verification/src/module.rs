//! Loaded-module descriptors, as the dispatch layer sees them.
//!
//! The host's module descriptor is an opaque record whose fields are read
//! through host calls; what the logic here reads of it is the module's
//! address range.  Path and symbol lookups stay with the host; the range
//! arithmetic is the part stated and checked.

use crate::closure::{flag_word, spec_flag_word, DispatchCall};
use crate::host::{HostModel, SlotKind};
use crate::manager::Manager;
use vstd::prelude::*;

verus! {

/// A loaded-module descriptor: the address range the module occupies.
#[derive(Clone, Copy, Debug, Eq, PartialEq, Structural)]
pub struct ModuleData {
    pub start: usize,
    pub end: usize,
}

impl ModuleData {
    /// Well-formedness: the range is not inverted.
    pub open spec fn wf(self) -> bool {
        self.start <= self.end
    }

    /// A descriptor for the module spanning `[start, end)`.
    pub fn new(start: usize, end: usize) -> (r: Self)
        requires
            start <= end,
        ensures
            r.start == start,
            r.end == end,
            r.wf(),
    {
        ModuleData { start, end }
    }

    /// The base address of the module.
    pub fn start(&self) -> (r: usize)
        ensures
            r == self.start,
    {
        self.start
    }

    /// The first address past the module.
    pub fn end(&self) -> (r: usize)
        ensures
            r == self.end,
    {
        self.end
    }

    /// The module's address range as a `(start, end)` pair.
    pub fn range(&self) -> (r: (usize, usize))
        ensures
            r.0 == self.start,
            r.1 == self.end,
    {
        (self.start, self.end)
    }

    /// Whether `address` falls inside the module's range.
    pub fn contains(&self, address: usize) -> (r: bool)
        ensures
            r == (self.start <= address < self.end),
    {
        self.start <= address && address < self.end
    }
}

/// The process-wide module-load adapter: recovers the installed handler
/// from its singleton slot and forwards the execution context, the
/// descriptor's address range and the loaded flag to it, unchanged; the
/// descriptor is borrowed for the call only.  With no handler installed
/// nothing is dispatched.
pub fn module_load_event(
    host: &HostModel,
    context: u64,
    module: &ModuleData,
    loaded: bool,
) -> (r: Option<DispatchCall>)
    ensures
        r is Some <==> host.spec_slot(SlotKind::ModuleLoad) is Some,
        r matches Some(call) ==> {
            &&& host.spec_slot(SlotKind::ModuleLoad) == Some(call.target)
            &&& call.args@ == seq![
                context,
                module.start as u64,
                module.end as u64,
                spec_flag_word(loaded),
            ]
        },
{
    match host.get_slot(SlotKind::ModuleLoad) {
        Some(func) => {
            let mut args: Vec<u64> = Vec::new();
            args.push(context);
            args.push(module.start() as u64);
            args.push(module.end() as u64);
            args.push(flag_word(loaded));
            proof {
                assert(args@ =~= seq![
                    context,
                    module.start as u64,
                    module.end as u64,
                    spec_flag_word(loaded),
                ]);
            }
            Some(DispatchCall { target: func, args })
        },
        None => None,
    }
}

impl Manager {
    /// Installs `func` as the process-wide module-load handler in its
    /// singleton slot.  The last writer wins.
    pub fn register_module_load_event(&self, host: &mut HostModel, func: u64)
        ensures
            final(host).spec_slot(SlotKind::ModuleLoad) == Some(func),
            forall|k: SlotKind|
                k != SlotKind::ModuleLoad ==> final(host).spec_slot(k) == old(host).spec_slot(k),
            final(host).registrations() == old(host).registrations(),
    {
        host.set_slot(SlotKind::ModuleLoad, Some(func));
    }
}

} // verus!
