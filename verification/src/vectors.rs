use vstd::prelude::*;
use crate::constants::{
    PSR_INTERRUPTS, PSR_IRQ_MODE, THREADS_INTERRUPT_HANDLER_COUNT, THREADS_MAX_SYSCALLS,
};
use crate::errors::KernelError;
use crate::kernel::{copy_slots, Kernel};

verus! {

/// Exit code the kernel halts with when a raised interrupt has no handler.
pub const UNHANDLED_INTERRUPT_EXIT_CODE: i32 = 1;

/// Everything an interrupt handler is invoked with, as handed back to the
/// host by `interrupt_dispatch`: the registered handler's token and the
/// raising device, command and status word.
#[derive(Clone, Copy, Debug, PartialEq, Eq, Structural)]
pub struct InterruptDelivery {
    pub handler: u64,
    pub device_id: u32,
    pub command: u8,
    pub status: u32,
}

/// The structured argument record a syscall handler is invoked with.
pub struct SystemCallArguments {
    pub call_id: u32,
    pub arg_dword: u32,
    pub arg_int: u32,
    pub arg_string: String,
}

/// The status register while an interrupt handler runs: interrupts masked,
/// IRQ mode set.
pub open spec fn irq_masked_psr(psr: u32) -> u32 {
    (psr & !PSR_INTERRUPTS) | PSR_IRQ_MODE
}

impl Kernel {
    /// Register `handler` for one of the four interrupt classes; an existing
    /// registration is replaced, last writer wins. Ids outside the vector are
    /// rejected with `OutOfRange`.
    pub fn interrupt_register(&mut self, interrupt_id: u32, handler: u64) -> (r: Result<
        (),
        KernelError,
    >)
        requires
            old(self).wf(),
        ensures
            final(self).wf(),
            interrupt_id >= THREADS_INTERRUPT_HANDLER_COUNT ==> r == Err::<(), KernelError>(
                KernelError::OutOfRange,
            ) && *final(self) == *old(self),
            interrupt_id < THREADS_INTERRUPT_HANDLER_COUNT ==> r == Ok::<(), KernelError>(())
                && *final(self) == (Kernel {
                interrupt_vector: final(self).interrupt_vector,
                ..*old(self)
            }) && final(self).interrupt_vector@ == old(self).interrupt_vector@.update(
                interrupt_id as int,
                Some(handler),
            ),
    {
        if interrupt_id >= THREADS_INTERRUPT_HANDLER_COUNT {
            Err(KernelError::OutOfRange)
        } else {
            self.interrupt_vector[interrupt_id as usize] = Some(handler);
            Ok(())
        }
    }

    /// Dispatch a raised interrupt to its registered handler.
    ///
    /// On success the kernel enters the handler's execution environment:
    /// the current status register is saved, interrupts are masked and IRQ
    /// mode is set for the handler's duration, and the host receives the
    /// delivery to run, followed by `interrupt_return`. Delivery while a
    /// handler is already running is undefined and excluded; the mask bit
    /// the dispatch path sets is what lets a conforming interrupt source
    /// avoid it.
    ///
    /// A raised interrupt with no registered handler is fatal: the kernel
    /// cannot re-query hardware state after the fact, so it halts through
    /// the ordinary halt path and reports `UnhandledInterrupt`.
    pub fn interrupt_dispatch(
        &mut self,
        interrupt_id: u32,
        device_id: u32,
        command: u8,
        status: u32,
    ) -> (r: Result<InterruptDelivery, KernelError>)
        requires
            old(self).wf(),
            old(self).saved_psr is None,
        ensures
            final(self).wf(),
            interrupt_id >= THREADS_INTERRUPT_HANDLER_COUNT ==> r == Err::<
                InterruptDelivery,
                KernelError,
            >(KernelError::OutOfRange) && *final(self) == *old(self),
            interrupt_id < THREADS_INTERRUPT_HANDLER_COUNT ==> match old(
                self
            ).interrupt_vector@[interrupt_id as int] {
                None => r == Err::<InterruptDelivery, KernelError>(KernelError::UnhandledInterrupt)
                    && *final(self) == (Kernel {
                    halted: Some(UNHANDLED_INTERRUPT_EXIT_CODE),
                    ..*old(self)
                }),
                Some(h) => r == Ok::<InterruptDelivery, KernelError>(InterruptDelivery {
                    handler: h,
                    device_id,
                    command,
                    status,
                }) && *final(self) == (Kernel {
                    psr: irq_masked_psr(old(self).psr),
                    saved_psr: Some(old(self).psr),
                    ..*old(self)
                }),
            },
    {
        if interrupt_id >= THREADS_INTERRUPT_HANDLER_COUNT {
            Err(KernelError::OutOfRange)
        } else {
            match self.interrupt_vector[interrupt_id as usize] {
                None => {
                    self.halted = Some(UNHANDLED_INTERRUPT_EXIT_CODE);
                    Err(KernelError::UnhandledInterrupt)
                },
                Some(h) => {
                    self.saved_psr = Some(self.psr);
                    self.psr = (self.psr & !PSR_INTERRUPTS) | PSR_IRQ_MODE;
                    Ok(InterruptDelivery { handler: h, device_id, command, status })
                },
            }
        }
    }

    /// Leave an interrupt handler: restore the status register saved by
    /// `interrupt_dispatch`, re-enabling whatever the interrupted code had.
    pub fn interrupt_return(&mut self)
        requires
            old(self).saved_psr is Some,
        ensures
            *final(self) == (Kernel {
                psr: old(self).saved_psr->0,
                saved_psr: None,
                ..*old(self)
            }),
    {
        match self.saved_psr {
            Some(p) => {
                self.psr = p;
                self.saved_psr = None;
            },
            None => {
                proof {
                    assert(false);
                }
            },
        }
    }

    /// The interrupt vector as the host sees it: always exactly four slots,
    /// timer, I/O, exception and syscall in that fixed order, each holding
    /// the registered handler token or nothing.
    pub fn get_interrupt_handlers(&self) -> (r: Vec<Option<u64>>)
        requires
            self.wf(),
        ensures
            r@ == self.interrupt_vector@,
            r@.len() == THREADS_INTERRUPT_HANDLER_COUNT,
    {
        copy_slots(&self.interrupt_vector)
    }

    /// Register `handler` for syscall id `call_id`; an existing registration
    /// is replaced. Ids at or beyond the vector's 32 slots are rejected with
    /// `OutOfRange`.
    pub fn syscall_register(&mut self, call_id: u32, handler: u64) -> (r: Result<(), KernelError>)
        requires
            old(self).wf(),
        ensures
            final(self).wf(),
            call_id >= THREADS_MAX_SYSCALLS ==> r == Err::<(), KernelError>(KernelError::OutOfRange)
                && *final(self) == *old(self),
            call_id < THREADS_MAX_SYSCALLS ==> r == Ok::<(), KernelError>(()) && *final(self) == (
            Kernel { syscall_vector: final(self).syscall_vector, ..*old(self) }) && final(
                self
            ).syscall_vector@ == old(self).syscall_vector@.update(call_id as int, Some(handler)),
    {
        if call_id >= THREADS_MAX_SYSCALLS {
            Err(KernelError::OutOfRange)
        } else {
            self.syscall_vector[call_id as usize] = Some(handler);
            Ok(())
        }
    }

    /// Dispatch a system call to its registered handler: the host receives
    /// the handler's token to invoke with `args`. An id outside the vector
    /// fails with `OutOfRange`; an unregistered id fails with
    /// `UnhandledSyscall` — a soft failure reported to the caller, unlike an
    /// unhandled interrupt, since software can retry where hardware state
    /// cannot be re-queried.
    pub fn syscall_invoke(&self, args: &SystemCallArguments) -> (r: Result<u64, KernelError>)
        requires
            self.wf(),
        ensures
            args.call_id >= THREADS_MAX_SYSCALLS ==> r == Err::<u64, KernelError>(
                KernelError::OutOfRange,
            ),
            args.call_id < THREADS_MAX_SYSCALLS ==> r == match self.syscall_vector@[args.call_id as int] {
                Some(h) => Ok::<u64, KernelError>(h),
                None => Err::<u64, KernelError>(KernelError::UnhandledSyscall),
            },
    {
        if args.call_id >= THREADS_MAX_SYSCALLS {
            Err(KernelError::OutOfRange)
        } else {
            match self.syscall_vector[args.call_id as usize] {
                Some(h) => Ok(h),
                None => Err(KernelError::UnhandledSyscall),
            }
        }
    }

    /// The system call vector as the host sees it: exactly 32 slots indexed
    /// by syscall id.
    pub fn get_system_call_vector(&self) -> (r: Vec<Option<u64>>)
        requires
            self.wf(),
        ensures
            r@ == self.syscall_vector@,
            r@.len() == THREADS_MAX_SYSCALLS,
    {
        copy_slots(&self.syscall_vector)
    }
}

} // verus!
