use vstd::prelude::*;
use crate::constants::{
    MAX_PROCESSES, THREADS_CLOCK_DEVICE_ID, THREADS_INTERRUPT_HANDLER_COUNT, THREADS_MAX_DEVICES,
    THREADS_MAX_SYSCALLS,
};
use crate::context::{ContextState, ProcessContext};
use crate::device::{device_name_matches, Device, DeviceBody};

verus! {

/// The whole kernel state: processor status and clock, the process table,
/// the two dispatch vectors, the device registry and the console log.
///
/// Every operation takes this value explicitly by reference; there is no
/// hidden global, so several isolated kernel instances can exist side by
/// side.
pub struct Kernel {
    /// Processor status register: a bitmask of interrupts-enabled,
    /// kernel-mode and IRQ-mode.
    pub psr: u32,
    /// Monotonic microsecond counter, zero at kernel initialization.
    pub clock_us: u64,
    /// Console verbosity: zero suppresses debug output.
    pub debug_level: i32,
    /// Set once the kernel has halted, with the exit code; no further work is
    /// meaningful after that.
    pub halted: Option<i32>,
    /// Processor status saved on interrupt entry, restored on return; `Some`
    /// exactly while an interrupt handler is running.
    pub saved_psr: Option<u32>,
    /// Arena of process contexts; a context handle is an index into it, and
    /// slots are never reused, so a stale handle can only name a stopped
    /// context, never a recycled one.
    pub contexts: Vec<ProcessContext>,
    /// Index of the running context, if any.
    pub running: Option<usize>,
    /// Fixed four-slot interrupt vector: timer, I/O, exception, syscall.
    pub interrupt_vector: Vec<Option<u64>>,
    /// Fixed 32-slot system call vector, indexed by syscall id.
    pub syscall_vector: Vec<Option<u64>>,
    /// Registered devices.
    pub devices: Vec<Device>,
    /// Next handle to hand to a non-clock device; the clock keeps its fixed
    /// handle.
    pub next_device_handle: u32,
    /// Text accepted by the console, in order of emission.
    pub console_log: Vec<String>,
}

impl Kernel {
    /// Well-formedness of the whole kernel state:
    /// the two dispatch vectors have their fixed sizes; the process table is
    /// bounded and exactly the context named by `running` (if any) is in the
    /// Running state; devices are bounded, well formed, unique in name and
    /// handle, their category matches their name (which also bounds each
    /// category, since only four disk names, four terminal names and one
    /// clock name exist), and the clock alone sits at its reserved handle.
    pub open spec fn wf(self) -> bool {
        &&& self.interrupt_vector@.len() == THREADS_INTERRUPT_HANDLER_COUNT
        &&& self.syscall_vector@.len() == THREADS_MAX_SYSCALLS
        &&& self.contexts@.len() <= MAX_PROCESSES
        &&& forall|i: int|
            0 <= i < self.contexts@.len() ==> (#[trigger] self.contexts@[i]).wf()
        &&& match self.running {
            Some(r) => {
                &&& r < self.contexts@.len()
                &&& self.contexts@[r as int].state == ContextState::Running
                &&& forall|i: int|
                    0 <= i < self.contexts@.len() && i != r ==> (#[trigger] self.contexts@[i]).state
                        != ContextState::Running
            },
            None => forall|i: int|
                0 <= i < self.contexts@.len() ==> (#[trigger] self.contexts@[i]).state
                    != ContextState::Running,
        }
        &&& self.devices@.len() <= THREADS_MAX_DEVICES
        &&& forall|i: int| 0 <= i < self.devices@.len() ==> (#[trigger] self.devices@[i]).wf()
        &&& forall|i: int, j: int|
            0 <= i < j < self.devices@.len() ==> (#[trigger] self.devices@[i]).name@ != (
            #[trigger] self.devices@[j]).name@
        &&& forall|i: int, j: int|
            0 <= i < j < self.devices@.len() ==> (#[trigger] self.devices@[i]).handle != (
            #[trigger] self.devices@[j]).handle
        &&& forall|i: int|
            0 <= i < self.devices@.len() ==> device_name_matches(#[trigger] self.devices@[i])
        &&& forall|i: int|
            0 <= i < self.devices@.len() ==> ((#[trigger] self.devices@[i]).body is Clock
                <==> self.devices@[i].handle == THREADS_CLOCK_DEVICE_ID)
        &&& forall|i: int|
            0 <= i < self.devices@.len() && !((#[trigger] self.devices@[i]).body is Clock) ==> 1
                <= self.devices@[i].handle < self.next_device_handle
        &&& 1 <= self.next_device_handle <= 1 + self.devices@.len()
    }

    /// A fresh kernel: clock at zero, status clear, no contexts, no devices,
    /// both dispatch vectors fully unregistered.
    pub fn new() -> (k: Kernel)
        ensures
            k.wf(),
            k.psr == 0,
            k.clock_us == 0,
            k.debug_level == 0,
            k.halted is None,
            k.saved_psr is None,
            k.contexts@.len() == 0,
            k.running is None,
            k.interrupt_vector@.len() == THREADS_INTERRUPT_HANDLER_COUNT,
            forall|i: int|
                0 <= i < k.interrupt_vector@.len() ==> k.interrupt_vector@[i] is None,
            k.syscall_vector@.len() == THREADS_MAX_SYSCALLS,
            forall|i: int| 0 <= i < k.syscall_vector@.len() ==> k.syscall_vector@[i] is None,
            k.devices@.len() == 0,
            k.next_device_handle == 1,
            k.console_log@.len() == 0,
    {
        Kernel {
            psr: 0,
            clock_us: 0,
            debug_level: 0,
            halted: None,
            saved_psr: None,
            contexts: Vec::new(),
            running: None,
            interrupt_vector: none_slots(THREADS_INTERRUPT_HANDLER_COUNT as usize),
            syscall_vector: none_slots(THREADS_MAX_SYSCALLS as usize),
            devices: Vec::new(),
            next_device_handle: 1,
            console_log: Vec::new(),
        }
    }

    /// Current value of the processor status register.
    pub fn get_psr(&self) -> (r: u32)
        ensures
            r == self.psr,
    {
        self.psr
    }

    /// Replace the processor status register with `psr`. Nothing else moves:
    /// the replacement is atomic with respect to interrupt delivery, which
    /// only ever happens between kernel operations.
    pub fn set_psr(&mut self, psr: u32)
        ensures
            *final(self) == with_psr(*old(self), psr),
    {
        self.psr = psr;
    }

    /// Microseconds since kernel initialization; monotonic.
    pub fn system_clock(&self) -> (r: u64)
        ensures
            r == self.clock_us,
    {
        self.clock_us
    }

    /// Let `delta_us` microseconds of time pass. The counter is wide enough
    /// that no realistic run reaches its limit; the caller keeps the sum
    /// representable.
    pub fn clock_advance(&mut self, delta_us: u64)
        requires
            old(self).clock_us + delta_us <= u64::MAX,
        ensures
            *final(self) == (Kernel { clock_us: (old(self).clock_us + delta_us) as u64, ..*old(self) }),
            final(self).clock_us >= old(self).clock_us,
    {
        self.clock_us = self.clock_us + delta_us;
    }

    /// Set the console debug verbosity; zero turns debug output off.
    pub fn set_debug_level(&mut self, level: i32)
        ensures
            *final(self) == (Kernel { debug_level: level, ..*old(self) }),
    {
        self.debug_level = level;
    }

    /// Hand a line of text to the console. Normal output is always accepted;
    /// debug output only while the debug level is positive. Returns whether
    /// the text was accepted into the console log, whose entries the host
    /// renders in order.
    pub fn console_output(&mut self, debug: bool, text: String) -> (emitted: bool)
        ensures
            emitted == (!debug || old(self).debug_level > 0),
            *final(self) == (Kernel { console_log: final(self).console_log, ..*old(self) }),
            emitted ==> final(self).console_log@ == old(self).console_log@.push(text),
            !emitted ==> final(self).console_log@ == old(self).console_log@,
    {
        if !debug || self.debug_level > 0 {
            self.console_log.push(text);
            true
        } else {
            false
        }
    }

    /// Halt kernel execution with `code`. The halt path bypasses ordinary
    /// cleanup: the state only records that the kernel is done, and the host
    /// must not drive it further.
    pub fn stop(&mut self, code: i32)
        ensures
            *final(self) == (Kernel { halted: Some(code), ..*old(self) }),
    {
        self.halted = Some(code);
    }
}

/// A name identifies at most one registered device, and so one handle: a
/// lookup after an initialization hands back exactly the handle the
/// initialization returned.
pub proof fn lemma_device_name_unique(k: Kernel, i: int, j: int)
    requires
        k.wf(),
        0 <= i < k.devices@.len(),
        0 <= j < k.devices@.len(),
        k.devices@[i].name@ == k.devices@[j].name@,
    ensures
        i == j,
        k.devices@[i].handle == k.devices@[j].handle,
{
}

/// The kernel with its status register replaced and everything else as it
/// was.
pub open spec fn with_psr(k: Kernel, x: u32) -> Kernel {
    Kernel { psr: x, ..k }
}

/// Writing the status register and reading it back yields exactly the value
/// written, for every bitmask value.
pub proof fn lemma_psr_round_trip(k: Kernel, x: u32)
    ensures
        with_psr(k, x).psr == x,
{
}

/// A vector of `n` empty handler slots.
pub fn none_slots(n: usize) -> (v: Vec<Option<u64>>)
    ensures
        v@.len() == n,
        forall|i: int| 0 <= i < n ==> v@[i] is None,
{
    let mut v: Vec<Option<u64>> = Vec::new();
    let mut i: usize = 0;
    while i < n
        invariant
            i <= n,
            v@.len() == i,
            forall|j: int| 0 <= j < i ==> v@[j] is None,
        decreases n - i,
    {
        v.push(None);
        i += 1;
    }
    v
}

/// An element-for-element copy of a handler vector.
pub fn copy_slots(v: &Vec<Option<u64>>) -> (r: Vec<Option<u64>>)
    ensures
        r@ == v@,
{
    let mut r: Vec<Option<u64>> = Vec::new();
    let mut i: usize = 0;
    while i < v.len()
        invariant
            i <= v@.len(),
            r@ =~= v@.subrange(0, i as int),
        decreases v@.len() - i,
    {
        r.push(v[i]);
        i += 1;
    }
    proof {
        assert(r@ =~= v@);
    }
    r
}

} // verus!
