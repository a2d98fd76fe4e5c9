//! The capability interfaces handlers implement, one per event family, and
//! a reference handler that records every callback it receives.
//!
//! A concrete handler implements the subset of interfaces it needs; each
//! registration call requires only the subset it uses.  Every interface
//! pairs its callback methods with spec transitions over the handler's
//! abstract view, so that the dispatch layer can state exactly what one
//! callback invocation does to the shared state: the whole transition is
//! applied while the lock is held, or nothing is.

use crate::context::Context;
use crate::instruction::{Instruction, InstructionList};
use crate::module::ModuleData;
use vstd::prelude::*;

verus! {

/// Host-defined return value from code-region analysis and instrumentation
/// callbacks, controlling how the host treats the region.
#[derive(Clone, Copy, Debug, Eq, PartialEq, Structural)]
pub struct EmitFlags {
    pub bits: u32,
}

impl Default for EmitFlags {
    /// The default treatment of the region.
    fn default() -> (r: Self)
        ensures
            r.bits == 0,
    {
        EmitFlags { bits: 0 }
    }
}

/// Capability interface for the process-exit event.
pub trait ExitHandler: View + Sized {
    /// The transition the handler state undergoes when the process exits.
    spec fn exit_spec(v: Self::V) -> Self::V;

    /// Called when the process exits.
    fn exit(&mut self)
        ensures
            final(self)@ == Self::exit_spec(old(self)@),
    ;
}

/// Capability interface for the syscall events: the filter decides whether
/// the before/after events fire, the before callback may veto the call, and
/// the after callback observes its result through the context.
pub trait SyscallHandler: View + Sized {
    /// The transition and decision of the filter callback.
    spec fn filter_spec(v: Self::V, context: Context, sysno: i32) -> (Self::V, bool);

    /// The transition and decision of the before-syscall callback.
    spec fn before_spec(v: Self::V, context: Context, sysno: i32) -> (Self::V, bool);

    /// The transition of the after-syscall callback.
    spec fn after_spec(v: Self::V, context: Context, sysno: i32) -> Self::V;

    /// Decides whether the before/after events fire for this syscall.
    fn filter_syscall(&mut self, context: &mut Context, sysno: i32) -> (keep: bool)
        ensures
            (final(self)@, keep) == Self::filter_spec(old(self)@, *old(context), sysno),
    ;

    /// Called before the syscall is performed; returning `false` suppresses
    /// the call.
    fn before_syscall(
        &mut self,
        context: &mut crate::context::BeforeSyscallContext,
        sysno: i32,
    ) -> (keep: bool)
        ensures
            (final(self)@, keep) == Self::before_spec(
                old(self)@,
                old(context).spec_context(),
                sysno,
            ),
    ;

    /// Called after the syscall returned.
    fn after_syscall(&mut self, context: &mut crate::context::AfterSyscallContext, sysno: i32)
        ensures
            final(self)@ == Self::after_spec(old(self)@, old(context).spec_context(), sysno),
    ;
}

/// Capability interface for module load and unload events.  The descriptor
/// is borrowed for the duration of the call only.
pub trait ModuleHandler: View + Sized {
    /// The transition of the module-load callback.
    spec fn load_spec(v: Self::V, context: Context, module: ModuleData, loaded: bool) -> Self::V;

    /// The transition of the module-unload callback.
    spec fn unload_spec(v: Self::V, context: Context, module: ModuleData) -> Self::V;

    /// Called when a module is loaded.
    fn load_module(&mut self, context: &mut Context, module: &ModuleData, loaded: bool)
        ensures
            final(self)@ == Self::load_spec(old(self)@, *old(context), *module, loaded),
    ;

    /// Called when a module is unloaded.
    fn unload_module(&mut self, context: &mut Context, module: &ModuleData)
        ensures
            final(self)@ == Self::unload_spec(old(self)@, *old(context), *module),
    ;
}

/// Capability interface for code-region analysis and instrumentation.  The
/// host runs analysis once per region and instrumentation once per
/// instruction in the region.
pub trait BasicBlockHandler: View + Sized {
    /// The transition and emit flags of the analysis callback.
    spec fn analyse_spec(
        v: Self::V,
        context: Context,
        bb: InstructionList,
        for_trace: bool,
        translating: bool,
    ) -> (Self::V, EmitFlags);

    /// The transition and emit flags of the instrumentation callback.
    spec fn instrument_spec(
        v: Self::V,
        context: Context,
        bb: InstructionList,
        instruction: Instruction,
        for_trace: bool,
        translating: bool,
    ) -> (Self::V, EmitFlags);

    /// Analyses a code region.
    fn analyse(
        &mut self,
        context: &mut Context,
        bb: &InstructionList,
        for_trace: bool,
        translating: bool,
    ) -> (flags: EmitFlags)
        ensures
            (final(self)@, flags) == Self::analyse_spec(
                old(self)@,
                *old(context),
                *bb,
                for_trace,
                translating,
            ),
    ;

    /// Instruments one instruction of a code region.
    fn instrument(
        &mut self,
        context: &mut Context,
        bb: &mut InstructionList,
        instruction: &Instruction,
        for_trace: bool,
        translating: bool,
    ) -> (flags: EmitFlags)
        ensures
            (final(self)@, flags) == Self::instrument_spec(
                old(self)@,
                *old(context),
                *old(bb),
                *instruction,
                for_trace,
                translating,
            ),
    ;
}

/// Capability interface for thread creation and teardown events.
pub trait ThreadHandler: View + Sized {
    /// The transition of the thread-creation callback.
    spec fn create_thread_spec(v: Self::V, context: Context) -> Self::V;

    /// The transition of the thread-exit callback.
    spec fn exit_thread_spec(v: Self::V, context: Context) -> Self::V;

    /// Called when a thread of the instrumented program starts.
    fn create_thread(&mut self, context: &mut Context)
        ensures
            final(self)@ == Self::create_thread_spec(old(self)@, *old(context)),
    ;

    /// Called when a thread of the instrumented program exits.
    fn exit_thread(&mut self, context: &mut Context)
        ensures
            final(self)@ == Self::exit_thread_spec(old(self)@, *old(context)),
    ;
}

/// Capability interface for native-function replacement: the handler's
/// `call` stands in for the replaced function, receiving its argument
/// vector with the captured context injected by the trampoline already
/// stripped off.
pub trait FunctionHandler: View + Sized {
    /// The transition and result of the replacement call.
    spec fn call_spec(v: Self::V, args: Seq<u64>) -> (Self::V, u64);

    /// Called in place of the replaced function.
    fn call(&mut self, args: &Vec<u64>) -> (r: u64)
        ensures
            (final(self)@, r) == Self::call_spec(old(self)@, args@),
    ;
}

/// One observed callback, as recorded by `RecordingHandler`.
#[derive(Clone, Copy, Debug, Eq, PartialEq, Structural)]
pub enum LogEntry {
    Exit,
    Filter { context: u64, sysno: i32 },
    Before { context: u64, sysno: i32 },
    After { context: u64, sysno: i32 },
    Load { context: u64, start: usize, end: usize, loaded: bool },
    Unload { context: u64, start: usize, end: usize },
    Analyse { for_trace: bool, translating: bool },
    Instrument { for_trace: bool, translating: bool },
    ThreadCreate { context: u64 },
    ThreadExit { context: u64 },
    Call { count: usize },
}

/// A reference handler implementing every capability interface: it appends
/// one complete entry to its log per callback received, so a test can check
/// both what was delivered and that concurrent deliveries serialized
/// without interleaving.  Filter and veto decisions are permissive, and
/// code-region callbacks request the default emit flags.
#[derive(Debug)]
pub struct RecordingHandler {
    pub log: Vec<LogEntry>,
}

impl RecordingHandler {
    /// A handler with an empty log.
    pub fn new() -> (r: Self)
        ensures
            r@ == Seq::<LogEntry>::empty(),
    {
        RecordingHandler { log: Vec::new() }
    }

    /// Number of callbacks recorded so far.
    pub fn count(&self) -> (r: usize)
        ensures
            r == self@.len(),
    {
        self.log.len()
    }
}

impl View for RecordingHandler {
    type V = Seq<LogEntry>;

    open spec fn view(&self) -> Seq<LogEntry> {
        self.log@
    }
}

impl ExitHandler for RecordingHandler {
    open spec fn exit_spec(v: Seq<LogEntry>) -> Seq<LogEntry> {
        v.push(LogEntry::Exit)
    }

    fn exit(&mut self) {
        self.log.push(LogEntry::Exit);
    }
}

impl SyscallHandler for RecordingHandler {
    open spec fn filter_spec(v: Seq<LogEntry>, context: Context, sysno: i32) -> (
        Seq<LogEntry>,
        bool,
    ) {
        (v.push(LogEntry::Filter { context: context.handle, sysno }), true)
    }

    open spec fn before_spec(v: Seq<LogEntry>, context: Context, sysno: i32) -> (
        Seq<LogEntry>,
        bool,
    ) {
        (v.push(LogEntry::Before { context: context.handle, sysno }), true)
    }

    open spec fn after_spec(v: Seq<LogEntry>, context: Context, sysno: i32) -> Seq<LogEntry> {
        v.push(LogEntry::After { context: context.handle, sysno })
    }

    fn filter_syscall(&mut self, context: &mut Context, sysno: i32) -> (keep: bool) {
        self.log.push(LogEntry::Filter { context: context.raw(), sysno });
        true
    }

    fn before_syscall(
        &mut self,
        context: &mut crate::context::BeforeSyscallContext,
        sysno: i32,
    ) -> (keep: bool) {
        self.log.push(LogEntry::Before { context: context.context().raw(), sysno });
        true
    }

    fn after_syscall(&mut self, context: &mut crate::context::AfterSyscallContext, sysno: i32) {
        self.log.push(LogEntry::After { context: context.context().raw(), sysno });
    }
}

impl ModuleHandler for RecordingHandler {
    open spec fn load_spec(
        v: Seq<LogEntry>,
        context: Context,
        module: ModuleData,
        loaded: bool,
    ) -> Seq<LogEntry> {
        v.push(
            LogEntry::Load {
                context: context.handle,
                start: module.start,
                end: module.end,
                loaded,
            },
        )
    }

    open spec fn unload_spec(v: Seq<LogEntry>, context: Context, module: ModuleData) -> Seq<
        LogEntry,
    > {
        v.push(LogEntry::Unload { context: context.handle, start: module.start, end: module.end })
    }

    fn load_module(&mut self, context: &mut Context, module: &ModuleData, loaded: bool) {
        self.log.push(
            LogEntry::Load {
                context: context.raw(),
                start: module.start(),
                end: module.end(),
                loaded,
            },
        );
    }

    fn unload_module(&mut self, context: &mut Context, module: &ModuleData) {
        self.log.push(
            LogEntry::Unload { context: context.raw(), start: module.start(), end: module.end() },
        );
    }
}

impl BasicBlockHandler for RecordingHandler {
    open spec fn analyse_spec(
        v: Seq<LogEntry>,
        context: Context,
        bb: InstructionList,
        for_trace: bool,
        translating: bool,
    ) -> (Seq<LogEntry>, EmitFlags) {
        (v.push(LogEntry::Analyse { for_trace, translating }), (EmitFlags { bits: 0 }))
    }

    open spec fn instrument_spec(
        v: Seq<LogEntry>,
        context: Context,
        bb: InstructionList,
        instruction: Instruction,
        for_trace: bool,
        translating: bool,
    ) -> (Seq<LogEntry>, EmitFlags) {
        (v.push(LogEntry::Instrument { for_trace, translating }), (EmitFlags { bits: 0 }))
    }

    fn analyse(
        &mut self,
        context: &mut Context,
        bb: &InstructionList,
        for_trace: bool,
        translating: bool,
    ) -> (flags: EmitFlags) {
        self.log.push(LogEntry::Analyse { for_trace, translating });
        EmitFlags { bits: 0 }
    }

    fn instrument(
        &mut self,
        context: &mut Context,
        bb: &mut InstructionList,
        instruction: &Instruction,
        for_trace: bool,
        translating: bool,
    ) -> (flags: EmitFlags) {
        self.log.push(LogEntry::Instrument { for_trace, translating });
        EmitFlags { bits: 0 }
    }
}

impl ThreadHandler for RecordingHandler {
    open spec fn create_thread_spec(v: Seq<LogEntry>, context: Context) -> Seq<LogEntry> {
        v.push(LogEntry::ThreadCreate { context: context.handle })
    }

    open spec fn exit_thread_spec(v: Seq<LogEntry>, context: Context) -> Seq<LogEntry> {
        v.push(LogEntry::ThreadExit { context: context.handle })
    }

    fn create_thread(&mut self, context: &mut Context) {
        self.log.push(LogEntry::ThreadCreate { context: context.raw() });
    }

    fn exit_thread(&mut self, context: &mut Context) {
        self.log.push(LogEntry::ThreadExit { context: context.raw() });
    }
}

impl FunctionHandler for RecordingHandler {
    open spec fn call_spec(v: Seq<LogEntry>, args: Seq<u64>) -> (Seq<LogEntry>, u64) {
        (v.push(LogEntry::Call { count: args.len() as usize }), args.len() as u64)
    }

    fn call(&mut self, args: &Vec<u64>) -> (r: u64) {
        self.log.push(LogEntry::Call { count: args.len() });
        args.len() as u64
    }
}

} // verus!
