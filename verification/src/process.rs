use vstd::prelude::*;
use vstd::pervasive::VecAdditionalExecFns;
use crate::constants::{MAX_PROCESSES, THREADS_MIN_STACK_SIZE};
use crate::context::{ContextState, ProcessContext};
use crate::errors::KernelError;
use crate::kernel::Kernel;
use crate::text::zeroed_vec;

verus! {

/// The stack size actually allocated for a request: undersized requests are
/// clamped up to the minimum, never rejected.
pub open spec fn clamped_stack_size(requested: u32) -> u32 {
    if requested < THREADS_MIN_STACK_SIZE {
        THREADS_MIN_STACK_SIZE
    } else {
        requested
    }
}

/// Every stack request below the minimum is clamped to exactly the minimum,
/// and every other request is honored as asked.
pub proof fn lemma_undersized_stack_clamped(requested: u32)
    ensures
        requested < THREADS_MIN_STACK_SIZE ==> clamped_stack_size(requested)
            == THREADS_MIN_STACK_SIZE,
        requested >= THREADS_MIN_STACK_SIZE ==> clamped_stack_size(requested) == requested,
{
}

/// Whether `handle` names a live (non-Stopped) context of `k`: the contexts
/// a switch may target.
pub open spec fn switch_target_ok(k: Kernel, handle: u32) -> bool {
    handle < k.contexts@.len() && k.contexts@[handle as int].state != ContextState::Stopped
}

/// The same context in another lifecycle state.
pub open spec fn context_with_state(c: ProcessContext, s: ContextState) -> ProcessContext {
    ProcessContext { state: s, ..c }
}

/// The process table after a switch to slot `h`: the previously running
/// context (if any) becomes Suspended, the target becomes Running, and no
/// other slot moves.
pub open spec fn contexts_after_switch(
    pre: Seq<ProcessContext>,
    cur: Option<usize>,
    h: int,
) -> Seq<ProcessContext> {
    let suspended = match cur {
        Some(c) => pre.update(
            c as int,
            context_with_state(pre[c as int], ContextState::Suspended),
        ),
        None => pre,
    };
    suspended.update(h, context_with_state(pre[h], ContextState::Running))
}

/// At most one context is ever Running, and the kernel's `running` field
/// names exactly it: the core invariant of the single-threaded cooperative
/// model, which every kernel operation preserves.
pub proof fn lemma_single_running(k: Kernel, i: int, j: int)
    requires
        k.wf(),
        0 <= i < k.contexts@.len(),
        0 <= j < k.contexts@.len(),
        k.contexts@[i].state == ContextState::Running,
        k.contexts@[j].state == ContextState::Running,
    ensures
        i == j,
        k.running == Some(i as usize),
{
}

/// Stopped is terminal under switching: a switch may only target a live
/// context and only suspends the previously running one — which is Running,
/// not Stopped — so every Stopped slot of the table comes out of a switch
/// exactly as it went in. Together with `context_stop` rejecting a second
/// stop and `context_initialize` only appending, no operation ever revives
/// a stopped context.
pub proof fn lemma_switch_preserves_stopped(pre: Seq<ProcessContext>, cur: Option<usize>, h: int)
    requires
        0 <= h < pre.len(),
        pre[h].state != ContextState::Stopped,
        match cur {
            Some(c) => c < pre.len() && pre[c as int].state == ContextState::Running,
            None => true,
        },
    ensures
        forall|i: int|
            0 <= i < pre.len() && (#[trigger] pre[i]).state == ContextState::Stopped
                ==> contexts_after_switch(pre, cur, h)[i] == pre[i],
{
}

impl Kernel {
    /// Create a new process context with the given entry point token,
    /// requested stack size and argument token.
    ///
    /// The stack allocated is `stack_size` clamped up to the minimum stack
    /// size; an undersized request is never rejected. The new context starts
    /// in the Created state and its handle is the next free slot of the
    /// arena. Fails with `OversizeRequest` once the process table is full,
    /// allocating nothing.
    pub fn context_initialize(&mut self, entry_point: u64, stack_size: u32, args: u64) -> (r:
        Result<u32, KernelError>)
        requires
            old(self).wf(),
        ensures
            final(self).wf(),
            old(self).contexts@.len() >= MAX_PROCESSES ==> r == Err::<u32, KernelError>(
                KernelError::OversizeRequest,
            ) && *final(self) == *old(self),
            old(self).contexts@.len() < MAX_PROCESSES ==> ({
                &&& r == Ok::<u32, KernelError>(old(self).contexts@.len() as u32)
                &&& *final(self) == (Kernel { contexts: final(self).contexts, ..*old(self) })
                &&& final(self).contexts@.len() == old(self).contexts@.len() + 1
                &&& final(self).contexts@.subrange(0, old(self).contexts@.len() as int) == old(
                    self,
                ).contexts@
                &&& final(self).contexts@.last().entry_point == entry_point
                &&& final(self).contexts@.last().args == args
                &&& final(self).contexts@.last().state == ContextState::Created
                &&& final(self).contexts@.last().stack@.len() == clamped_stack_size(stack_size)
            }),
    {
        if self.contexts.len() >= MAX_PROCESSES as usize {
            return Err(KernelError::OversizeRequest);
        }
        let size = if stack_size < THREADS_MIN_STACK_SIZE {
            THREADS_MIN_STACK_SIZE
        } else {
            stack_size
        };
        let handle = self.contexts.len() as u32;
        let stack = zeroed_vec(size as usize);
        self.contexts.push(
            ProcessContext { entry_point, args, stack, state: ContextState::Created },
        );
        proof {
            assert(final(self).contexts@.subrange(0, old(self).contexts@.len() as int) =~= old(
                self,
            ).contexts@);
        }
        Ok(handle)
    }

    /// Transfer control to the context named by `handle`.
    ///
    /// The previously running context (if any) becomes Suspended; the target
    /// becomes Running — on its first switch-in that is the Created→Running
    /// transition, and the host starts it at its entry point rather than at
    /// a resume point. Returns false, changing nothing, if the handle does
    /// not name a live (non-Stopped) context. Switching to the context that
    /// is already running is a no-op that succeeds.
    pub fn context_switch(&mut self, handle: u32) -> (r: bool)
        requires
            old(self).wf(),
        ensures
            final(self).wf(),
            r == switch_target_ok(*old(self), handle),
            !r ==> *final(self) == *old(self),
            r ==> *final(self) == (Kernel {
                contexts: final(self).contexts,
                running: Some(handle as usize),
                ..*old(self)
            }),
            r ==> final(self).contexts@ == contexts_after_switch(
                old(self).contexts@,
                old(self).running,
                handle as int,
            ),
            r ==> final(self).contexts@[handle as int].state == ContextState::Running,
    {
        let h = handle as usize;
        if h >= self.contexts.len() {
            return false;
        }
        let is_stopped = match self.contexts[h].state {
            ContextState::Stopped => true,
            _ => false,
        };
        if is_stopped {
            return false;
        }
        match self.running {
            Some(c) => {
                if c != h {
                    let mut prev = ProcessContext {
                        entry_point: 0,
                        args: 0,
                        stack: Vec::new(),
                        state: ContextState::Suspended,
                    };
                    self.contexts.set_and_swap(c, &mut prev);
                    prev.state = ContextState::Suspended;
                    self.contexts.set(c, prev);
                    let mut target = ProcessContext {
                        entry_point: 0,
                        args: 0,
                        stack: Vec::new(),
                        state: ContextState::Running,
                    };
                    self.contexts.set_and_swap(h, &mut target);
                    target.state = ContextState::Running;
                    self.contexts.set(h, target);
                    self.running = Some(h);
                } else {
                    proof {
                        assert(final(self).contexts@ =~= contexts_after_switch(
                            old(self).contexts@,
                            old(self).running,
                            handle as int,
                        ));
                    }
                }
            },
            None => {
                let mut target = ProcessContext {
                    entry_point: 0,
                    args: 0,
                    stack: Vec::new(),
                    state: ContextState::Running,
                };
                self.contexts.set_and_swap(h, &mut target);
                target.state = ContextState::Running;
                self.contexts.set(h, target);
                self.running = Some(h);
            },
        }
        true
    }

    /// Stop the context named by `handle`: it becomes Stopped — a terminal
    /// state — and its stack is released, never to be reused.
    ///
    /// Fails with `InvalidHandle` if the handle is unknown or names the
    /// currently running context (stopping the running context is a
    /// contradiction in a cooperative model, so it is never a valid target).
    /// Fails with `AlreadyStopped` on a second stop of the same context:
    /// silent double-stops would mask double-free-style bugs.
    pub fn context_stop(&mut self, handle: u32) -> (r: Result<(), KernelError>)
        requires
            old(self).wf(),
        ensures
            final(self).wf(),
            handle >= old(self).contexts@.len() ==> r == Err::<(), KernelError>(
                KernelError::InvalidHandle,
            ) && *final(self) == *old(self),
            handle < old(self).contexts@.len() && old(self).contexts@[handle as int].state
                == ContextState::Stopped ==> r == Err::<(), KernelError>(
                KernelError::AlreadyStopped,
            ) && *final(self) == *old(self),
            handle < old(self).contexts@.len() && old(self).contexts@[handle as int].state
                != ContextState::Stopped && old(self).running == Some(handle as usize) ==> r
                == Err::<(), KernelError>(KernelError::InvalidHandle) && *final(self) == *old(self),
            handle < old(self).contexts@.len() && old(self).contexts@[handle as int].state
                != ContextState::Stopped && old(self).running != Some(handle as usize) ==> ({
                &&& r == Ok::<(), KernelError>(())
                &&& *final(self) == (Kernel { contexts: final(self).contexts, ..*old(self) })
                &&& final(self).contexts@ == old(self).contexts@.update(
                    handle as int,
                    final(self).contexts@[handle as int],
                )
                &&& final(self).contexts@[handle as int].state == ContextState::Stopped
                &&& final(self).contexts@[handle as int].stack@.len() == 0
                &&& final(self).contexts@[handle as int].entry_point == old(
                    self,
                ).contexts@[handle as int].entry_point
                &&& final(self).contexts@[handle as int].args == old(
                    self,
                ).contexts@[handle as int].args
            }),
    {
        let h = handle as usize;
        if h >= self.contexts.len() {
            return Err(KernelError::InvalidHandle);
        }
        let is_stopped = match self.contexts[h].state {
            ContextState::Stopped => true,
            _ => false,
        };
        if is_stopped {
            return Err(KernelError::AlreadyStopped);
        }
        let is_running_target = match self.running {
            Some(c) => c == h,
            None => false,
        };
        if is_running_target {
            return Err(KernelError::InvalidHandle);
        }
        let mut stopped = ProcessContext {
            entry_point: 0,
            args: 0,
            stack: Vec::new(),
            state: ContextState::Stopped,
        };
        self.contexts.set_and_swap(h, &mut stopped);
        let released = ProcessContext {
            entry_point: stopped.entry_point,
            args: stopped.args,
            stack: Vec::new(),
            state: ContextState::Stopped,
        };
        self.contexts.set(h, released);
        Ok(())
    }
}

} // verus!
