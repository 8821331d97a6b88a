use vstd::prelude::*;
use vstd::pervasive::VecAdditionalExecFns;
use vstd::string::StringExecFns;
use crate::constants::{
    DISK_INFO, DISK_READ, DISK_SEEK, DISK_STORE_BYTES, DISK_WRITE, TERMINAL_READ_CHAR,
    TERMINAL_WRITE_CHAR, THREADS_CLOCK_DEVICE_ID, THREADS_DISK_MAX_PLATTERS,
    THREADS_DISK_SECTOR_COUNT, THREADS_DISK_SECTOR_SIZE, THREADS_MAX_DEVICES,
    THREADS_MAX_IO_BUFFER_SIZE,
};
use crate::device::{
    block_frame, clock_name, control_check, control_status, device_after_control,
    device_name_matches, disk_write_spec, known_device_name, lemma_device_name_categories,
    output_after_control, Device, DeviceBody, DeviceControlBlock,
};
use crate::errors::KernelError;
use crate::kernel::Kernel;
use crate::text::{str_eq, zeroed_vec};

verus! {

/// Validate a control block against a device, mirroring `control_check`
/// exactly.
fn check_block(d: &Device, b: &DeviceControlBlock) -> (r: Result<(), KernelError>)
    ensures
        r == control_check(*d, *b),
{
    match &d.body {
        DeviceBody::Disk { .. } => {
            let cmd = b.command;
            if !(cmd == DISK_INFO || cmd == DISK_READ || cmd == DISK_WRITE || cmd == DISK_SEEK) {
                Err(KernelError::CommandMismatch)
            } else if b.data_length > THREADS_MAX_IO_BUFFER_SIZE {
                Err(KernelError::OversizeRequest)
            } else if (cmd == DISK_READ || cmd == DISK_WRITE) && b.data_length
                > THREADS_DISK_SECTOR_SIZE {
                Err(KernelError::OversizeRequest)
            } else if cmd == DISK_WRITE && b.input_data.len() < b.data_length as usize {
                Err(KernelError::OversizeRequest)
            } else if (cmd == DISK_READ || cmd == DISK_WRITE || cmd == DISK_SEEK) && !(b.control1
                < THREADS_DISK_SECTOR_COUNT && b.control2 < THREADS_DISK_MAX_PLATTERS) {
                Err(KernelError::OutOfRange)
            } else {
                Ok(())
            }
        },
        DeviceBody::Terminal { .. } => {
            if !(b.command == TERMINAL_READ_CHAR || b.command == TERMINAL_WRITE_CHAR) {
                Err(KernelError::CommandMismatch)
            } else if b.data_length > THREADS_MAX_IO_BUFFER_SIZE {
                Err(KernelError::OversizeRequest)
            } else {
                Ok(())
            }
        },
        DeviceBody::Clock => {
            if !(b.command == DISK_INFO) {
                Err(KernelError::CommandMismatch)
            } else if b.data_length > THREADS_MAX_IO_BUFFER_SIZE {
                Err(KernelError::OversizeRequest)
            } else {
                Ok(())
            }
        },
    }
}

impl Kernel {
    /// Index of the registered device carrying `name`, if any.
    pub(crate) fn find_device(&self, name: &str) -> (r: Option<usize>)
        requires
            self.wf(),
        ensures
            match r {
                Some(i) => i < self.devices@.len() && self.devices@[i as int].name@ == name@,
                None => forall|j: int|
                    0 <= j < self.devices@.len() ==> (#[trigger] self.devices@[j]).name@ != name@,
            },
    {
        let mut i: usize = 0;
        while i < self.devices.len()
            invariant
                self.wf(),
                i <= self.devices@.len(),
                forall|j: int| 0 <= j < i ==> (#[trigger] self.devices@[j]).name@ != name@,
            decreases self.devices@.len() - i,
        {
            if str_eq(self.devices[i].name.as_str(), name) {
                return Some(i);
            }
            i += 1;
        }
        None
    }

    /// Handle of the device named `name`: a pure lookup that allocates
    /// nothing, and finds nothing unless the device was initialized first.
    pub fn device_handle(&self, name: &str) -> (r: Option<u32>)
        requires
            self.wf(),
        ensures
            match r {
                Some(h) => exists|i: int|
                    0 <= i < self.devices@.len() && (#[trigger] self.devices@[i]).name@ == name@
                        && self.devices@[i].handle == h,
                None => forall|i: int|
                    0 <= i < self.devices@.len() ==> (#[trigger] self.devices@[i]).name@ != name@,
            },
    {
        match self.find_device(name) {
            Some(i) => Some(self.devices[i].handle),
            None => None,
        }
    }

    /// Initialize the device named `name` and return its handle.
    ///
    /// Unknown names find nothing; a name already initialized hands back its
    /// existing handle unchanged; a full device table (at most eight devices,
    /// all categories together) rejects the request. A fresh disk starts with
    /// a zeroed backing store, a fresh terminal with empty queues; the clock
    /// takes its fixed reserved handle, every other device the next free one.
    pub fn device_initialize(&mut self, name: &str) -> (r: Option<u32>)
        requires
            old(self).wf(),
        ensures
            final(self).wf(),
            (exists|i: int|
                0 <= i < old(self).devices@.len() && (#[trigger] old(self).devices@[i]).name@
                    == name@) ==> ({
                &&& *final(self) == *old(self)
                &&& exists|i: int|
                    0 <= i < old(self).devices@.len() && (#[trigger] old(self).devices@[i]).name@
                        == name@ && r == Some(old(self).devices@[i].handle)
            }),
            !known_device_name(name@) ==> r is None && *final(self) == *old(self),
            (forall|i: int|
                0 <= i < old(self).devices@.len() ==> (#[trigger] old(self).devices@[i]).name@
                    != name@) && known_device_name(name@) && old(self).devices@.len()
                >= THREADS_MAX_DEVICES ==> r is None && *final(self) == *old(self),
            (forall|i: int|
                0 <= i < old(self).devices@.len() ==> (#[trigger] old(self).devices@[i]).name@
                    != name@) && known_device_name(name@) && old(self).devices@.len()
                < THREADS_MAX_DEVICES ==> ({
                &&& *final(self) == (Kernel {
                    devices: final(self).devices,
                    next_device_handle: final(self).next_device_handle,
                    ..*old(self)
                })
                &&& final(self).devices@.len() == old(self).devices@.len() + 1
                &&& final(self).devices@.subrange(0, old(self).devices@.len() as int) == old(self).devices@
                &&& final(self).devices@.last().name@ == name@
                &&& device_name_matches(final(self).devices@.last())
                &&& r == Some(final(self).devices@.last().handle)
                &&& (clock_name(name@) ==> r == Some(THREADS_CLOCK_DEVICE_ID) && final(self).next_device_handle == old(self).next_device_handle)
                &&& (!clock_name(name@) ==> r == Some(old(self).next_device_handle) && final(self).next_device_handle == old(self).next_device_handle + 1)
                &&& match final(self).devices@.last().body {
                    DeviceBody::Disk { store } => store@ == Seq::new(
                        DISK_STORE_BYTES as nat,
                        |i: int| 0u8,
                    ),
                    DeviceBody::Terminal { input, output } => input@.len() == 0 && output@.len()
                        == 0,
                    DeviceBody::Clock => true,
                }
            }),
    {
        match self.find_device(name) {
            Some(i) => {
                return Some(self.devices[i].handle);
            },
            None => {},
        }
        let is_disk = str_eq(name, "disk0") || str_eq(name, "disk1") || str_eq(name, "disk2")
            || str_eq(name, "disk3");
        let is_term = str_eq(name, "term0") || str_eq(name, "term1") || str_eq(name, "term2")
            || str_eq(name, "term3");
        let is_clock = str_eq(name, "clock");
        if !(is_disk || is_term || is_clock) {
            return None;
        }
        if self.devices.len() >= THREADS_MAX_DEVICES as usize {
            return None;
        }
        proof {
            lemma_device_name_categories(name@);
        }
        let handle: u32;
        let body: DeviceBody;
        if is_clock {
            handle = THREADS_CLOCK_DEVICE_ID;
            body = DeviceBody::Clock;
        } else if is_disk {
            handle = self.next_device_handle;
            self.next_device_handle = self.next_device_handle + 1;
            body = DeviceBody::Disk { store: zeroed_vec(DISK_STORE_BYTES as usize) };
        } else {
            handle = self.next_device_handle;
            self.next_device_handle = self.next_device_handle + 1;
            body = DeviceBody::Terminal { input: Vec::new(), output: Vec::new() };
        }
        let dev = Device { name: String::from_str(name), handle, body };
        self.devices.push(dev);
        proof {
            assert(final(self).devices@.subrange(0, old(self).devices@.len() as int) =~= old(self).devices@);
        }
        Some(handle)
    }

    /// Issue a control operation against the device named `name`, reporting
    /// each failure precisely.
    ///
    /// The checks run before anything touches the backing store, in this
    /// order: the device must exist (`UnknownDevice`); the command must be
    /// legal for the device's category (`CommandMismatch`); the declared
    /// length must fit the I/O buffer limit, a disk transfer must fit one
    /// sector and a disk write must be backed by enough input bytes
    /// (`OversizeRequest`); disk addressing must lie within the geometry
    /// (`OutOfRange`). On success the operation runs against the device's
    /// backing store and the status word comes back.
    pub fn device_control_result(&mut self, name: &str, block: &mut DeviceControlBlock) -> (r:
        Result<u32, KernelError>)
        requires
            old(self).wf(),
        ensures
            final(self).wf(),
            block_frame(*old(block), *final(block)),
            (forall|i: int|
                0 <= i < old(self).devices@.len() ==> (#[trigger] old(self).devices@[i]).name@
                    != name@) ==> r == Err::<u32, KernelError>(KernelError::UnknownDevice) && *final(self) == *old(self) && final(block).output_data@ == old(block).output_data@,
            forall|i: int|
                0 <= i < old(self).devices@.len() && (#[trigger] old(self).devices@[i]).name@
                    == name@ ==> ({
                    let d = old(self).devices@[i];
                    match control_check(d, *old(block)) {
                        Err(e) => r == Err::<u32, KernelError>(e) && *final(self) == *old(self)
                            && final(block).output_data@ == old(block).output_data@,
                        Ok(()) => {
                            &&& r == Ok::<u32, KernelError>(
                                control_status(d, *old(block), old(self).clock_us),
                            )
                            &&& *final(self) == (Kernel {
                                devices: final(self).devices,
                                ..*old(self)
                            })
                            &&& final(self).devices@.len() == old(self).devices@.len()
                            &&& device_after_control(d, *old(block), final(self).devices@[i])
                            &&& (forall|j: int|
                                0 <= j < old(self).devices@.len() && j != i ==> final(self).devices@[j] == old(self).devices@[j])
                            &&& final(block).output_data@ == output_after_control(
                                d,
                                *old(block),
                                old(block).output_data@,
                            )
                        },
                    }
                }),
    {
        let idx = match self.find_device(name) {
            None => {
                return Err(KernelError::UnknownDevice);
            },
            Some(i) => i,
        };
        proof {
            assert forall|i: int|
                0 <= i < self.devices@.len() && (#[trigger] self.devices@[i]).name@
                    == name@ implies i == idx as int by {
                if i < idx as int {
                    assert(self.devices@[i].name@ != self.devices@[idx as int].name@);
                } else if i > idx as int {
                    assert(self.devices@[idx as int].name@ != self.devices@[i].name@);
                }
            }
        }
        match check_block(&self.devices[idx], block) {
            Err(e) => {
                return Err(e);
            },
            Ok(()) => {},
        }
        let ghost d_spec = self.devices@[idx as int];
        let mut dev = Device { name: String::new(), handle: 0, body: DeviceBody::Clock };
        self.devices.set_and_swap(idx, &mut dev);
        let Device { name: dname, handle: dhandle, body } = dev;
        let cmd = block.command;
        let status: u32;
        let new_body: DeviceBody;
        match body {
            DeviceBody::Clock => {
                status = (self.clock_us % 0x1_0000_0000u64) as u32;
                new_body = DeviceBody::Clock;
            },
            DeviceBody::Disk { mut store } => {
                if cmd == DISK_INFO {
                    status = THREADS_DISK_SECTOR_SIZE;
                } else if cmd == DISK_SEEK {
                    status = 0;
                } else {
                    let sector = block.control1;
                    let platter = block.control2;
                    let addr = ((platter * THREADS_DISK_SECTOR_COUNT + sector)
                        * THREADS_DISK_SECTOR_SIZE) as usize;
                    let len = block.data_length as usize;
                    if cmd == DISK_READ {
                        let mut out: Vec<u8> = Vec::new();
                        let mut k: usize = 0;
                        while k < len
                            invariant
                                k <= len,
                                addr + len <= store@.len(),
                                addr + len <= DISK_STORE_BYTES,
                                out@.len() == k,
                                forall|j: int| 0 <= j < k ==> out@[j] == store@[addr + j],
                            decreases len - k,
                        {
                            let byte = store[addr + k];
                            out.push(byte);
                            k += 1;
                        }
                        block.output_data = out;
                        status = block.data_length;
                    } else {
                        let ghost store0 = store@;
                        let mut k: usize = 0;
                        while k < len
                            invariant
                                k <= len,
                                addr + len <= store@.len(),
                                addr + len <= DISK_STORE_BYTES,
                                len <= block.input_data@.len(),
                                store@.len() == store0.len(),
                                forall|j: int|
                                    addr <= j < addr + k ==> store@[j] == block.input_data@[j
                                        - addr],
                                forall|j: int|
                                    0 <= j < store0.len() && !(addr <= j < addr + k)
                                        ==> store@[j] == store0[j],
                                block.input_data@.len() >= len,
                            decreases len - k,
                        {
                            let byte = block.input_data[k];
                            store.set(addr + k, byte);
                            k += 1;
                        }
                        proof {
                            assert(store@ =~= disk_write_spec(
                                store0,
                                platter,
                                sector,
                                block.input_data@,
                                len as int,
                            ));
                        }
                        status = block.data_length;
                    }
                }
                new_body = DeviceBody::Disk { store };
            },
            DeviceBody::Terminal { mut input, mut output } => {
                if cmd == TERMINAL_READ_CHAR {
                    if input.len() > 0 {
                        let ch = input.remove(0);
                        let mut out: Vec<u8> = Vec::new();
                        out.push(ch);
                        block.output_data = out;
                        proof {
                            assert(input@ =~= d_spec.body->Terminal_input@.drop_first());
                        }
                        status = 1;
                    } else {
                        status = 0;
                    }
                } else {
                    if block.data_length >= 1 && block.input_data.len() >= 1 {
                        let byte = block.input_data[0];
                        output.push(byte);
                        status = 1;
                    } else {
                        status = 0;
                    }
                }
                new_body = DeviceBody::Terminal { input, output };
            },
        }
        let newdev = Device { name: dname, handle: dhandle, body: new_body };
        self.devices.set(idx, newdev);
        proof {
            assert(device_after_control(d_spec, *old(block), final(self).devices@[idx as int]));
        }
        Ok(status)
    }

    /// Issue a control operation against the device named `name`, collapsing
    /// every failure — unknown device, illegal command, oversize request,
    /// out-of-range addressing — into a single "operation failed" signal, as
    /// the protocol's compatibility surface demands. Callers that need the
    /// precise failure use `device_control_result`, whose checks and effects
    /// this operation shares exactly.
    pub fn device_control(&mut self, name: &str, block: &mut DeviceControlBlock) -> (r: Option<
        u32,
    >)
        requires
            old(self).wf(),
        ensures
            final(self).wf(),
            block_frame(*old(block), *final(block)),
            (forall|i: int|
                0 <= i < old(self).devices@.len() ==> (#[trigger] old(self).devices@[i]).name@
                    != name@) ==> r is None && *final(self) == *old(self) && final(block).output_data@ == old(block).output_data@,
            forall|i: int|
                0 <= i < old(self).devices@.len() && (#[trigger] old(self).devices@[i]).name@
                    == name@ ==> ({
                    let d = old(self).devices@[i];
                    match control_check(d, *old(block)) {
                        Err(e) => r is None && *final(self) == *old(self) && final(block).output_data@ == old(block).output_data@,
                        Ok(()) => {
                            &&& r == Some(control_status(d, *old(block), old(self).clock_us))
                            &&& *final(self) == (Kernel {
                                devices: final(self).devices,
                                ..*old(self)
                            })
                            &&& final(self).devices@.len() == old(self).devices@.len()
                            &&& device_after_control(d, *old(block), final(self).devices@[i])
                            &&& (forall|j: int|
                                0 <= j < old(self).devices@.len() && j != i ==> final(self).devices@[j] == old(self).devices@[j])
                            &&& final(block).output_data@ == output_after_control(
                                d,
                                *old(block),
                                old(block).output_data@,
                            )
                        },
                    }
                }),
    {
        match self.device_control_result(name, block) {
            Ok(status) => Some(status),
            Err(_) => None,
        }
    }

    /// Queue one byte of pending input on the terminal named `name`, as the
    /// emulated character hardware does when a key arrives. Finds nothing to
    /// feed unless a terminal of that name was initialized.
    pub fn terminal_feed(&mut self, name: &str, byte: u8) -> (r: bool)
        requires
            old(self).wf(),
        ensures
            final(self).wf(),
            (forall|i: int|
                0 <= i < old(self).devices@.len() ==> !((#[trigger] old(self).devices@[i]).name@
                    == name@ && old(self).devices@[i].body is Terminal)) ==> !r && *final(self)
                == *old(self),
            forall|i: int|
                0 <= i < old(self).devices@.len() && (#[trigger] old(self).devices@[i]).name@
                    == name@ && old(self).devices@[i].body is Terminal ==> ({
                    &&& r
                    &&& *final(self) == (Kernel { devices: final(self).devices, ..*old(self) })
                    &&& final(self).devices@.len() == old(self).devices@.len()
                    &&& (forall|j: int|
                        0 <= j < old(self).devices@.len() && j != i ==> final(self).devices@[j]
                            == old(self).devices@[j])
                    &&& final(self).devices@[i].name@ == old(self).devices@[i].name@
                    &&& final(self).devices@[i].handle == old(self).devices@[i].handle
                    &&& match final(self).devices@[i].body {
                        DeviceBody::Terminal { input, output } => input@ == old(self).devices@[i].body->Terminal_input@.push(byte) && output@ == old(self).devices@[i].body->Terminal_output@,
                        _ => false,
                    }
                }),
    {
        let idx = match self.find_device(name) {
            None => {
                return false;
            },
            Some(i) => i,
        };
        proof {
            assert forall|i: int|
                0 <= i < self.devices@.len() && (#[trigger] self.devices@[i]).name@
                    == name@ implies i == idx as int by {
                if i < idx as int {
                    assert(self.devices@[i].name@ != self.devices@[idx as int].name@);
                } else if i > idx as int {
                    assert(self.devices@[idx as int].name@ != self.devices@[i].name@);
                }
            }
        }
        let is_terminal = match &self.devices[idx].body {
            DeviceBody::Terminal { .. } => true,
            _ => false,
        };
        if !is_terminal {
            return false;
        }
        let mut dev = Device { name: String::new(), handle: 0, body: DeviceBody::Clock };
        self.devices.set_and_swap(idx, &mut dev);
        let Device { name: dname, handle: dhandle, body } = dev;
        match body {
            DeviceBody::Terminal { mut input, output } => {
                input.push(byte);
                let newdev = Device {
                    name: dname,
                    handle: dhandle,
                    body: DeviceBody::Terminal { input, output },
                };
                self.devices.set(idx, newdev);
            },
            _ => {
                proof {
                    assert(false);
                }
            },
        }
        true
    }
}

} // verus!
