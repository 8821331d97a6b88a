use vstd::prelude::*;
use crate::constants::THREADS_MIN_STACK_SIZE;

verus! {

/// Lifecycle state of a process context.
///
/// Created -> Running on the first switch-in; Running <-> Suspended on
/// switch-out / switch-in; any non-Running state -> Stopped on an explicit
/// stop. Stopped is terminal.
#[derive(Clone, Copy, Debug, PartialEq, Eq, Structural)]
pub enum ContextState {
    Created,
    Running,
    Suspended,
    Stopped,
}

/// One process execution context: an entry point, its argument, a stack and a
/// lifecycle state.
///
/// The host owns the actual entry function and argument data; the kernel
/// identifies both by opaque tokens, so that no raw pointer crosses the
/// kernel boundary. The stack is owned by the context and released on stop.
pub struct ProcessContext {
    /// Opaque token naming the entry function the context starts at.
    pub entry_point: u64,
    /// Opaque token naming the caller-supplied argument data.
    pub args: u64,
    /// The context's stack; at least the minimum stack size while the context
    /// is live, released (emptied) once it is stopped.
    pub stack: Vec<u8>,
    /// Lifecycle state.
    pub state: ContextState,
}

impl ProcessContext {
    /// A live context owns a full-sized stack; a stopped one owns none.
    pub open spec fn wf(self) -> bool {
        match self.state {
            ContextState::Stopped => self.stack@.len() == 0,
            _ => self.stack@.len() >= THREADS_MIN_STACK_SIZE,
        }
    }
}

} // verus!
