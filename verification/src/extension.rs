//! The extension layer's soft-kills singleton event.
//!
//! A soft kill intercepts one process terminating another; the host
//! supports one such callback at a time, held in a process-wide slot with
//! last-writer-wins semantics.

use crate::closure::DispatchCall;
use crate::host::{HostModel, SlotKind};
use vstd::prelude::*;

verus! {

/// Capability for the extension layer; constructing it stands for the
/// layer's one-time initialization in the embedding program.
pub struct Extension;

impl Extension {
    /// Initializes the extension layer.
    pub fn new() -> (r: Self) {
        Extension
    }

    /// Installs `func` as the process-wide soft-kills handler.  A
    /// re-registration silently supersedes the previous handler.
    pub fn register_soft_kills(&self, host: &mut HostModel, func: u64)
        ensures
            final(host).spec_slot(SlotKind::SoftKills) == Some(func),
            forall|k: SlotKind|
                k != SlotKind::SoftKills ==> final(host).spec_slot(k) == old(host).spec_slot(k),
            final(host).registrations() == old(host).registrations(),
    {
        host.set_slot(SlotKind::SoftKills, Some(func));
    }
}

/// The soft-kills adapter: recovers the installed handler from the
/// process-wide slot and forwards the victim process id and exit code to
/// it.  With no handler installed nothing is dispatched and the kill
/// proceeds unfiltered.
pub fn soft_kills_event(host: &HostModel, pid: u64, exit_code: i32) -> (r: Option<DispatchCall>)
    ensures
        r is Some <==> host.spec_slot(SlotKind::SoftKills) is Some,
        r matches Some(call) ==> {
            &&& host.spec_slot(SlotKind::SoftKills) == Some(call.target)
            &&& call.args@ == seq![pid, exit_code as u64]
        },
{
    match host.get_slot(SlotKind::SoftKills) {
        Some(func) => {
            let mut args: Vec<u64> = Vec::new();
            args.push(pid);
            args.push(exit_code as u64);
            proof {
                assert(args@ =~= seq![pid, exit_code as u64]);
            }
            Some(DispatchCall { target: func, args })
        },
        None => None,
    }
}

} // verus!
