//! Model of the host engine's callback surface: the table of per-event
//! registrations and the process-wide singleton slots.
//!
//! The host itself is an external collaborator; what matters to this crate
//! is the state the registration layer drives it through: which bare entry
//! pointers are registered for which event kind, with which user-data word,
//! and which singleton handlers occupy the process-wide slots.  The model
//! doubles as the host-stub harness: tests make it "call" a registered
//! pointer and check that a stale pointer, left after a token's teardown,
//! is never dispatched again.

use vstd::prelude::*;

verus! {

/// The event kinds the host tracks per-registration callbacks for.
#[derive(Clone, Copy, Debug, Eq, PartialEq, Structural)]
pub enum EventKind {
    Exit,
    FilterSyscall,
    BeforeSyscall,
    AfterSyscall,
    ModuleLoad,
    ModuleUnload,
    BasicBlockAnalysis,
    BasicBlockInstrumentation,
    ThreadInit,
    ThreadExit,
    FunctionReplace,
}

/// One callback registration as the host records it: the entry address the
/// host will call and the user-data word handed back on each invocation
/// (zero where the event's API has no user-data slot).
#[derive(Clone, Copy, Debug, Eq, PartialEq, Structural)]
pub struct Registration {
    pub kind: EventKind,
    pub entry: u64,
    pub user_data: u64,
}

/// The process-wide singleton slots: for events the host supports only one
/// registration of at a time, an atomically swapped optional handler
/// address substitutes for a per-instance trampoline.  Invariant: at most
/// one active handler per slot; the last writer wins.
#[derive(Clone, Copy, Debug, Eq, PartialEq)]
pub struct Slots {
    pub fork: Option<u64>,
    pub nudge: Option<u64>,
    pub filter_syscall: Option<u64>,
    pub module_load: Option<u64>,
    pub bb_analysis: Option<u64>,
    pub bb_instrumentation: Option<u64>,
    pub soft_kills: Option<u64>,
}

/// Names one of the process-wide singleton slots.
#[derive(Clone, Copy, Debug, Eq, PartialEq, Structural)]
pub enum SlotKind {
    Fork,
    Nudge,
    FilterSyscall,
    ModuleLoad,
    BbAnalysis,
    BbInstrumentation,
    SoftKills,
}

/// One step of a token's two-phase teardown, in the order performed:
/// unregister with the host first, release executable memory second.
#[derive(Clone, Copy, Debug, Eq, PartialEq, Structural)]
pub enum TeardownStep {
    Unregister { kind: EventKind, entry: u64 },
    Free { addr: u64, size: usize },
}

/// The host model: the callback table plus the singleton slots.
pub struct HostModel {
    /// The registrations currently held, oldest first.
    pub registered: Vec<Registration>,
    /// The process-wide singleton slots.
    pub slots: Slots,
}

impl HostModel {
    /// The registrations the host currently holds, oldest first.
    pub open spec fn registrations(self) -> Seq<Registration> {
        self.registered@
    }

    /// Whether `r` is currently registered.
    pub open spec fn is_registered(self, r: Registration) -> bool {
        self.registrations().contains(r)
    }

    /// Whether some registration of kind `kind` with entry `entry` is
    /// currently held, whatever its user-data word.
    pub open spec fn has_kind_entry(self, kind: EventKind, entry: u64) -> bool {
        exists|i: int|
            0 <= i < self.registrations().len()
                && self.registrations()[i].kind == kind
                && self.registrations()[i].entry == entry
    }

    /// The value of the given singleton slot.
    pub open spec fn spec_slot(self, kind: SlotKind) -> Option<u64> {
        match kind {
            SlotKind::Fork => self.slots.fork,
            SlotKind::Nudge => self.slots.nudge,
            SlotKind::FilterSyscall => self.slots.filter_syscall,
            SlotKind::ModuleLoad => self.slots.module_load,
            SlotKind::BbAnalysis => self.slots.bb_analysis,
            SlotKind::BbInstrumentation => self.slots.bb_instrumentation,
            SlotKind::SoftKills => self.slots.soft_kills,
        }
    }

    /// A host with no registrations and every slot empty.
    pub fn new() -> (r: Self)
        ensures
            r.registrations() == Seq::<Registration>::empty(),
            forall|k: SlotKind| r.spec_slot(k) is None,
    {
        HostModel {
            registered: Vec::new(),
            slots: Slots {
                fork: None,
                nudge: None,
                filter_syscall: None,
                module_load: None,
                bb_analysis: None,
                bb_instrumentation: None,
                soft_kills: None,
            },
        }
    }

    /// Records one registration: the host will call `entry` for events of
    /// kind `kind`, handing back `user_data`.
    pub fn register(&mut self, kind: EventKind, entry: u64, user_data: u64)
        ensures
            final(self).registrations()
                == old(self).registrations().push((Registration { kind, entry, user_data })),
            final(self).slots == old(self).slots,
    {
        self.registered.push(Registration { kind, entry, user_data });
    }

    /// Withdraws every registration of kind `kind` with entry `entry`;
    /// afterwards the host holds no such registration and will not call the
    /// entry again.  Returns whether any was present.
    pub fn unregister(&mut self, kind: EventKind, entry: u64) -> (found: bool)
        ensures
            found == old(self).has_kind_entry(kind, entry),
            !final(self).has_kind_entry(kind, entry),
            forall|r: Registration|
                !(r.kind == kind && r.entry == entry)
                    ==> (final(self).is_registered(r) <==> old(self).is_registered(r)),
            final(self).registrations().len() <= old(self).registrations().len(),
            !found ==> final(self).registrations() == old(self).registrations(),
            found ==> final(self).registrations().len() < old(self).registrations().len(),
            final(self).slots == old(self).slots,
    {
        let n = self.registered.len();
        let ghost orig = self.registered@;
        let mut kept: Vec<Registration> = Vec::new();
        let mut found = false;
        let mut i: usize = 0;
        while i < n
            invariant
                n == orig.len(),
                self.registered@ == orig,
                self.slots == old(self).slots,
                0 <= i <= n,
                kept@.len() <= i,
                found == exists|j: int|
                    0 <= j < i && orig[j].kind == kind && orig[j].entry == entry,
                found ==> kept@.len() < i,
                !found ==> kept@ == orig.subrange(0, i as int),
                forall|k: int|
                    0 <= k < kept@.len()
                        ==> orig.contains(kept@[k])
                            && !(kept@[k].kind == kind && kept@[k].entry == entry),
                forall|j: int|
                    0 <= j < i && !(orig[j].kind == kind && orig[j].entry == entry)
                        ==> kept@.contains(orig[j]),
            decreases n - i,
        {
            let r = self.registered[i];
            if r.kind == kind && r.entry == entry {
                found = true;
            } else {
                let ghost kept_before = kept@;
                let ghost was_found = found;
                kept.push(r);
                proof {
                    assert(orig[i as int] == r);
                    assert(orig.contains(orig[i as int]));
                    assert forall|j: int|
                        0 <= j < i + 1 && !(orig[j].kind == kind && orig[j].entry == entry)
                        implies kept@.contains(orig[j]) by {
                        if j < i {
                            let k = choose|k: int|
                                0 <= k < kept_before.len() && kept_before[k] == orig[j];
                            assert(kept@[k] == orig[j]);
                        } else {
                            assert(kept@[kept@.len() - 1] == orig[j]);
                        }
                    }
                    if !was_found {
                        assert(kept@ =~= orig.subrange(0, i + 1));
                    }
                }
            }
            i = i + 1;
        }
        proof {
            assert forall|r: Registration|
                !(r.kind == kind && r.entry == entry)
                implies (kept@.contains(r) <==> orig.contains(r)) by {
                if orig.contains(r) {
                    let j = choose|j: int| 0 <= j < orig.len() && orig[j] == r;
                    assert(kept@.contains(orig[j]));
                }
                if kept@.contains(r) {
                    let k = choose|k: int| 0 <= k < kept@.len() && kept@[k] == r;
                    assert(orig.contains(kept@[k]));
                }
            }
            if !found {
                assert(kept@ =~= orig);
            }
        }
        self.registered = kept;
        found
    }

    /// Whether some registration of kind `kind` with entry `entry` is
    /// currently held.
    pub fn is_registered_entry(&self, kind: EventKind, entry: u64) -> (r: bool)
        ensures
            r == self.has_kind_entry(kind, entry),
    {
        let n = self.registered.len();
        let mut i: usize = 0;
        while i < n
            invariant
                n == self.registered@.len(),
                0 <= i <= n,
                forall|j: int|
                    0 <= j < i
                        ==> !(self.registered@[j].kind == kind
                            && self.registered@[j].entry == entry),
            decreases n - i,
        {
            let r = self.registered[i];
            if r.kind == kind && r.entry == entry {
                return true;
            }
            i = i + 1;
        }
        false
    }

    /// Number of registrations currently held.
    pub fn registration_count(&self) -> (r: usize)
        ensures
            r == self.registrations().len(),
    {
        self.registered.len()
    }

    /// Installs `func` in the given singleton slot, or clears it.  The last
    /// writer wins: a re-registration silently supersedes a prior one for
    /// that event kind.
    pub fn set_slot(&mut self, kind: SlotKind, func: Option<u64>)
        ensures
            final(self).spec_slot(kind) == func,
            forall|k: SlotKind| k != kind ==> final(self).spec_slot(k) == old(self).spec_slot(k),
            final(self).registrations() == old(self).registrations(),
    {
        match kind {
            SlotKind::Fork => {
                self.slots.fork = func;
            },
            SlotKind::Nudge => {
                self.slots.nudge = func;
            },
            SlotKind::FilterSyscall => {
                self.slots.filter_syscall = func;
            },
            SlotKind::ModuleLoad => {
                self.slots.module_load = func;
            },
            SlotKind::BbAnalysis => {
                self.slots.bb_analysis = func;
            },
            SlotKind::BbInstrumentation => {
                self.slots.bb_instrumentation = func;
            },
            SlotKind::SoftKills => {
                self.slots.soft_kills = func;
            },
        }
    }

    /// The value of the given singleton slot.
    pub fn get_slot(&self, kind: SlotKind) -> (r: Option<u64>)
        ensures
            r == self.spec_slot(kind),
    {
        match kind {
            SlotKind::Fork => self.slots.fork,
            SlotKind::Nudge => self.slots.nudge,
            SlotKind::FilterSyscall => self.slots.filter_syscall,
            SlotKind::ModuleLoad => self.slots.module_load,
            SlotKind::BbAnalysis => self.slots.bb_analysis,
            SlotKind::BbInstrumentation => self.slots.bb_instrumentation,
            SlotKind::SoftKills => self.slots.soft_kills,
        }
    }
}

/// A registered entry is accounted among the host's kind/entry pairs.
pub proof fn lemma_registered_has_kind_entry(h: HostModel, r: Registration)
    requires
        h.is_registered(r),
    ensures
        h.has_kind_entry(r.kind, r.entry),
{
    let i = choose|i: int| 0 <= i < h.registrations().len() && h.registrations()[i] == r;
    assert(h.registrations()[i].kind == r.kind && h.registrations()[i].entry == r.entry);
}

/// A held kind/entry pair is witnessed by some registered record.
pub proof fn lemma_has_kind_entry_witness(h: HostModel, kind: EventKind, entry: u64)
    requires
        h.has_kind_entry(kind, entry),
    ensures
        exists|r: Registration| h.is_registered(r) && r.kind == kind && r.entry == entry,
{
    let i = choose|i: int|
        0 <= i < h.registrations().len()
            && h.registrations()[i].kind == kind
            && h.registrations()[i].entry == entry;
    let r = h.registrations()[i];
    assert(h.registrations().contains(r));
    assert(h.is_registered(r) && r.kind == kind && r.entry == entry);
}

/// The absence of a kind/entry pair survives the withdrawal of a different
/// pair: `post` is `pre` after an unregistration of `(other_kind,
/// other_entry)`, described by the two facts the withdrawal guarantees.
pub proof fn lemma_absence_preserved(
    pre: HostModel,
    post: HostModel,
    kind: EventKind,
    entry: u64,
    other_kind: EventKind,
    other_entry: u64,
)
    requires
        !pre.has_kind_entry(kind, entry),
        !post.has_kind_entry(other_kind, other_entry),
        forall|r: Registration|
            !(r.kind == other_kind && r.entry == other_entry)
                ==> (post.is_registered(r) <==> pre.is_registered(r)),
    ensures
        !post.has_kind_entry(kind, entry),
{
    if post.has_kind_entry(kind, entry) {
        lemma_has_kind_entry_witness(post, kind, entry);
        let r = choose|r: Registration|
            post.is_registered(r) && r.kind == kind && r.entry == entry;
        if r.kind == other_kind && r.entry == other_entry {
            lemma_registered_has_kind_entry(post, r);
        } else {
            assert(pre.is_registered(r));
            lemma_registered_has_kind_entry(pre, r);
        }
    }
}

} // verus!
