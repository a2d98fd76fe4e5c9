//! Execution-context facades, as the dispatch layer sees them.
//!
//! The host hands every callback an opaque execution-context handle.  The
//! facades over that handle (saved-register access, state-domain switches,
//! machine-context snapshots) are collaborators outside this crate; here a
//! context is the plain handle value that the adapters reconstruct, pass to
//! the handler for the duration of the call, and must not retain beyond it.

use vstd::prelude::*;

verus! {

/// An execution-context view: the opaque handle the host passed in.
#[derive(Clone, Copy, Debug, Eq, PartialEq, Structural)]
pub struct Context {
    pub handle: u64,
}

impl Context {
    /// Reconstructs the view from the raw handle delivered by the host.
    pub fn from_raw(context: u64) -> (r: Self)
        ensures
            r.handle == context,
    {
        Context { handle: context }
    }

    /// The raw handle, as handed back to host calls.
    pub fn raw(&self) -> (r: u64)
        ensures
            r == self.handle,
    {
        self.handle
    }
}

/// The context of a syscall about to be performed; parameter access and
/// syscall-number rewriting go through the host.
#[derive(Clone, Copy, Debug, Eq, PartialEq, Structural)]
pub struct BeforeSyscallContext {
    context: Context,
}

impl BeforeSyscallContext {
    /// The underlying execution context.
    pub closed spec fn spec_context(self) -> Context {
        self.context
    }

    /// Reconstructs the view from the raw handle delivered by the host.
    pub fn from_raw(context: u64) -> (r: Self)
        ensures
            r.spec_context().handle == context,
    {
        BeforeSyscallContext { context: Context::from_raw(context) }
    }

    /// The underlying execution context.
    pub fn context(&self) -> (r: &Context)
        ensures
            *r == self.spec_context(),
    {
        &self.context
    }

    /// The underlying execution context, mutably.
    pub fn context_mut(&mut self) -> (r: &mut Context)
        ensures
            *r == old(self).spec_context(),
            final(self).spec_context() == *final(r),
    {
        &mut self.context
    }
}

/// The context of a syscall that just returned; the result value is exposed
/// through the host.
#[derive(Clone, Copy, Debug, Eq, PartialEq, Structural)]
pub struct AfterSyscallContext {
    context: Context,
}

impl AfterSyscallContext {
    /// The underlying execution context.
    pub closed spec fn spec_context(self) -> Context {
        self.context
    }

    /// Reconstructs the view from the raw handle delivered by the host.
    pub fn from_raw(context: u64) -> (r: Self)
        ensures
            r.spec_context().handle == context,
    {
        AfterSyscallContext { context: Context::from_raw(context) }
    }

    /// The underlying execution context.
    pub fn context(&self) -> (r: &Context)
        ensures
            *r == self.spec_context(),
    {
        &self.context
    }

    /// The underlying execution context, mutably.
    pub fn context_mut(&mut self) -> (r: &mut Context)
        ensures
            *r == old(self).spec_context(),
            final(self).spec_context() == *final(r),
    {
        &mut self.context
    }
}

} // verus!
