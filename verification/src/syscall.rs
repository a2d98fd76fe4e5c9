//! The process-wide syscall-filter singleton event.
//!
//! The host supports a single filter-syscall callback at a time, so the
//! registration stores the handler in a process-wide slot instead of
//! building a per-instance trampoline; the statically installed adapter
//! recovers it on every delivery.  The last writer wins.

use crate::closure::DispatchCall;
use crate::host::{HostModel, SlotKind};
use vstd::prelude::*;

verus! {

/// Installs `func` as the process-wide syscall-filter handler.  A
/// re-registration silently supersedes the previous handler.
pub fn register_filter_syscall_event(host: &mut HostModel, func: u64)
    ensures
        final(host).spec_slot(SlotKind::FilterSyscall) == Some(func),
        forall|k: SlotKind|
            k != SlotKind::FilterSyscall ==> final(host).spec_slot(k) == old(host).spec_slot(k),
        final(host).registrations() == old(host).registrations(),
{
    host.set_slot(SlotKind::FilterSyscall, Some(func));
}

/// The filter-syscall adapter: recovers the installed handler from the
/// process-wide slot and forwards the execution context and syscall number
/// to it.  With no handler installed nothing is dispatched and the filter
/// answers "do not intercept" (see `filter_syscall_default`).
pub fn filter_syscall_event(host: &HostModel, context: u64, sysnum: i32) -> (r: Option<
    DispatchCall,
>)
    ensures
        r is Some <==> host.spec_slot(SlotKind::FilterSyscall) is Some,
        r matches Some(call) ==> {
            &&& host.spec_slot(SlotKind::FilterSyscall) == Some(call.target)
            &&& call.args@ == seq![context, sysnum as u64]
        },
{
    match host.get_slot(SlotKind::FilterSyscall) {
        Some(func) => {
            let mut args: Vec<u64> = Vec::new();
            args.push(context);
            args.push(sysnum as u64);
            proof {
                assert(args@ =~= seq![context, sysnum as u64]);
            }
            Some(DispatchCall { target: func, args })
        },
        None => None,
    }
}

/// The decision reported when no filter handler is installed: the syscall
/// is not intercepted.  This default is a deliberate, explicit choice of
/// the crate — restrictive, so that an empty slot never turns on
/// interception.
pub fn filter_syscall_default() -> (r: i8)
    ensures
        r == 0,
{
    0
}

} // verus!
