use vstd::prelude::*;
use crate::constants::{
    DISK_INFO, DISK_READ, DISK_SEEK, DISK_STORE_BYTES, DISK_WRITE, TERMINAL_READ_CHAR,
    TERMINAL_WRITE_CHAR, THREADS_CLOCK_DEVICE_ID, THREADS_DISK_MAX_PLATTERS,
    THREADS_DISK_SECTOR_COUNT, THREADS_DISK_SECTOR_SIZE, THREADS_MAX_IO_BUFFER_SIZE,
};
use crate::errors::KernelError;

verus! {

/// Category-specific state of a device.
pub enum DeviceBody {
    /// A block device: a flat backing store of
    /// platters * sectors per track * sector size bytes.
    Disk { store: Vec<u8> },
    /// A character device: a queue of pending input bytes and a log of
    /// written output bytes.
    Terminal { input: Vec<u8>, output: Vec<u8> },
    /// The clock device; its state is the kernel's microsecond counter.
    Clock,
}

/// A named device registered with the kernel, identified by a handle.
pub struct Device {
    pub name: String,
    pub handle: u32,
    pub body: DeviceBody,
}

impl Device {
    /// A disk owns a full-sized backing store; the clock sits at its fixed
    /// handle.
    pub open spec fn wf(self) -> bool {
        match self.body {
            DeviceBody::Disk { store } => store@.len() == DISK_STORE_BYTES,
            DeviceBody::Terminal { .. } => true,
            DeviceBody::Clock => self.handle == THREADS_CLOCK_DEVICE_ID,
        }
    }
}

/// The uniform message structure for all device operations. Buffers are
/// borrowed from the caller: a control operation reads `input_data` and
/// replaces `output_data`, never keeping either.
pub struct DeviceControlBlock {
    /// Bitmask-tagged command byte.
    pub command: u8,
    /// First device-specific argument; for a disk, the sector.
    pub control1: u32,
    /// Second device-specific argument; for a disk, the platter.
    pub control2: u32,
    /// Bytes handed to the device (disk writes, terminal writes).
    pub input_data: Vec<u8>,
    /// Bytes handed back by the device (disk reads, terminal reads).
    pub output_data: Vec<u8>,
    /// Number of bytes the operation transfers.
    pub data_length: u32,
}

/// The four recognized disk names.
pub open spec fn disk_name(n: Seq<char>) -> bool {
    n == "disk0"@ || n == "disk1"@ || n == "disk2"@ || n == "disk3"@
}

/// The four recognized terminal names.
pub open spec fn terminal_name(n: Seq<char>) -> bool {
    n == "term0"@ || n == "term1"@ || n == "term2"@ || n == "term3"@
}

/// The clock device's one recognized name.
pub open spec fn clock_name(n: Seq<char>) -> bool {
    n == "clock"@
}

/// The names the device registry recognizes. Nothing else can ever be
/// initialized, which also caps each category: four disks, four terminals,
/// one clock.
pub open spec fn known_device_name(n: Seq<char>) -> bool {
    disk_name(n) || terminal_name(n) || clock_name(n)
}

/// A registered device carries a recognized name whose category agrees with
/// its body.
pub open spec fn device_name_matches(d: Device) -> bool {
    &&& known_device_name(d.name@)
    &&& (disk_name(d.name@) <==> d.body is Disk)
    &&& (terminal_name(d.name@) <==> d.body is Terminal)
    &&& (clock_name(d.name@) <==> d.body is Clock)
}

/// The three name categories never overlap: a name is a disk name, a
/// terminal name or the clock name, at most one of the three.
pub proof fn lemma_device_name_categories(n: Seq<char>)
    ensures
        disk_name(n) ==> !terminal_name(n) && !clock_name(n),
        terminal_name(n) ==> !disk_name(n) && !clock_name(n),
        clock_name(n) ==> !disk_name(n) && !terminal_name(n),
{
    reveal_strlit("disk0");
    reveal_strlit("disk1");
    reveal_strlit("disk2");
    reveal_strlit("disk3");
    reveal_strlit("term0");
    reveal_strlit("term1");
    reveal_strlit("term2");
    reveal_strlit("term3");
    reveal_strlit("clock");
    assert("disk0"@[0] == 'd' && "disk1"@[0] == 'd' && "disk2"@[0] == 'd' && "disk3"@[0] == 'd');
    assert("term0"@[0] == 't' && "term1"@[0] == 't' && "term2"@[0] == 't' && "term3"@[0] == 't');
    assert("clock"@[0] == 'c');
}

/// The commands a disk accepts.
pub open spec fn is_disk_command(c: u8) -> bool {
    c == DISK_INFO || c == DISK_READ || c == DISK_WRITE || c == DISK_SEEK
}

/// The commands a terminal accepts.
pub open spec fn is_terminal_command(c: u8) -> bool {
    c == TERMINAL_READ_CHAR || c == TERMINAL_WRITE_CHAR
}

/// The commands the clock device accepts: only the info query.
pub open spec fn is_clock_command(c: u8) -> bool {
    c == DISK_INFO
}

/// Byte offset of a sector's data inside a disk's backing store.
pub open spec fn disk_addr(platter: u32, sector: u32) -> int {
    (platter * THREADS_DISK_SECTOR_COUNT + sector) * THREADS_DISK_SECTOR_SIZE
}

/// The backing store after writing the first `len` bytes of `data` at the
/// given platter and sector.
pub open spec fn disk_write_spec(
    store: Seq<u8>,
    platter: u32,
    sector: u32,
    data: Seq<u8>,
    len: int,
) -> Seq<u8> {
    let addr = disk_addr(platter, sector);
    Seq::new(
        store.len(),
        |i: int| if addr <= i < addr + len { data[i - addr] } else { store[i] },
    )
}

/// The `len` bytes read from the given platter and sector of a backing
/// store.
pub open spec fn disk_read_spec(store: Seq<u8>, platter: u32, sector: u32, len: int) -> Seq<u8> {
    store.subrange(disk_addr(platter, sector), disk_addr(platter, sector) + len)
}

/// Validation a control block must pass before the operation touches the
/// backing store. Checks run in this order: command legal for the device's
/// category, declared length within the buffer limit, disk transfers within
/// one sector and backed by enough input bytes, and disk addressing within
/// the geometry.
pub open spec fn control_check(d: Device, b: DeviceControlBlock) -> Result<(), KernelError> {
    match d.body {
        DeviceBody::Disk { .. } => {
            if !is_disk_command(b.command) {
                Err(KernelError::CommandMismatch)
            } else if b.data_length > THREADS_MAX_IO_BUFFER_SIZE {
                Err(KernelError::OversizeRequest)
            } else if (b.command == DISK_READ || b.command == DISK_WRITE) && b.data_length
                > THREADS_DISK_SECTOR_SIZE {
                Err(KernelError::OversizeRequest)
            } else if b.command == DISK_WRITE && b.input_data@.len() < b.data_length {
                Err(KernelError::OversizeRequest)
            } else if (b.command == DISK_READ || b.command == DISK_WRITE || b.command == DISK_SEEK)
                && !(b.control1 < THREADS_DISK_SECTOR_COUNT && b.control2
                < THREADS_DISK_MAX_PLATTERS) {
                Err(KernelError::OutOfRange)
            } else {
                Ok(())
            }
        },
        DeviceBody::Terminal { .. } => {
            if !is_terminal_command(b.command) {
                Err(KernelError::CommandMismatch)
            } else if b.data_length > THREADS_MAX_IO_BUFFER_SIZE {
                Err(KernelError::OversizeRequest)
            } else {
                Ok(())
            }
        },
        DeviceBody::Clock => {
            if !is_clock_command(b.command) {
                Err(KernelError::CommandMismatch)
            } else if b.data_length > THREADS_MAX_IO_BUFFER_SIZE {
                Err(KernelError::OversizeRequest)
            } else {
                Ok(())
            }
        },
    }
}

/// How a successful operation changes the device itself: a disk write
/// updates the addressed sector, a terminal read consumes the front of the
/// input queue, a terminal write appends to the output log; everything else
/// leaves the device as it was.
pub open spec fn device_after_control(d: Device, b: DeviceControlBlock, post: Device) -> bool {
    match d.body {
        DeviceBody::Disk { store } => {
            if b.command == DISK_WRITE {
                &&& post.name@ == d.name@
                &&& post.handle == d.handle
                &&& match post.body {
                    DeviceBody::Disk { store: s2 } => s2@ == disk_write_spec(
                        store@,
                        b.control2,
                        b.control1,
                        b.input_data@,
                        b.data_length as int,
                    ),
                    _ => false,
                }
            } else {
                post == d
            }
        },
        DeviceBody::Terminal { input, output } => {
            if b.command == TERMINAL_READ_CHAR && input@.len() > 0 {
                &&& post.name@ == d.name@
                &&& post.handle == d.handle
                &&& match post.body {
                    DeviceBody::Terminal { input: i2, output: o2 } => i2@ == input@.drop_first()
                        && o2@ == output@,
                    _ => false,
                }
            } else if b.command == TERMINAL_WRITE_CHAR && b.data_length >= 1 && b.input_data@.len()
                >= 1 {
                &&& post.name@ == d.name@
                &&& post.handle == d.handle
                &&& match post.body {
                    DeviceBody::Terminal { input: i2, output: o2 } => i2@ == input@ && o2@
                        == output@.push(b.input_data@[0]),
                    _ => false,
                }
            } else {
                post == d
            }
        },
        DeviceBody::Clock => post == d,
    }
}

/// What a successful operation leaves in the control block's output buffer:
/// a disk read hands back the sector bytes, a terminal read the consumed
/// character; every other command leaves the buffer as the caller passed it.
pub open spec fn output_after_control(d: Device, b: DeviceControlBlock, out_pre: Seq<u8>) -> Seq<
    u8,
> {
    match d.body {
        DeviceBody::Disk { store } => {
            if b.command == DISK_READ {
                disk_read_spec(store@, b.control2, b.control1, b.data_length as int)
            } else {
                out_pre
            }
        },
        DeviceBody::Terminal { input, .. } => {
            if b.command == TERMINAL_READ_CHAR && input@.len() > 0 {
                seq![input@[0]]
            } else {
                out_pre
            }
        },
        DeviceBody::Clock => out_pre,
    }
}

/// The status word a successful operation returns: bytes transferred for
/// data commands, zero for a seek, the sector size for a disk info query,
/// and the low half of the microsecond clock for the clock device.
pub open spec fn control_status(d: Device, b: DeviceControlBlock, clock: u64) -> u32 {
    match d.body {
        DeviceBody::Disk { .. } => {
            if b.command == DISK_INFO {
                THREADS_DISK_SECTOR_SIZE
            } else if b.command == DISK_SEEK {
                0u32
            } else {
                b.data_length
            }
        },
        DeviceBody::Terminal { input, .. } => {
            if b.command == TERMINAL_READ_CHAR {
                if input@.len() > 0 {
                    1u32
                } else {
                    0u32
                }
            } else {
                if b.data_length >= 1 && b.input_data@.len() >= 1 {
                    1u32
                } else {
                    0u32
                }
            }
        },
        DeviceBody::Clock => (clock % 0x1_0000_0000) as u32,
    }
}

/// The fields of a control block the kernel never touches: everything but
/// the output buffer.
pub open spec fn block_frame(pre: DeviceControlBlock, post: DeviceControlBlock) -> bool {
    &&& post.command == pre.command
    &&& post.control1 == pre.control1
    &&& post.control2 == pre.control2
    &&& post.input_data@ == pre.input_data@
    &&& post.data_length == pre.data_length
}

/// A sector address within the geometry stays within the backing store.
pub proof fn lemma_disk_addr_bounds(platter: u32, sector: u32)
    requires
        platter < THREADS_DISK_MAX_PLATTERS,
        sector < THREADS_DISK_SECTOR_COUNT,
    ensures
        0 <= disk_addr(platter, sector),
        disk_addr(platter, sector) + THREADS_DISK_SECTOR_SIZE <= DISK_STORE_BYTES,
{
}

/// A read issued straight after a write, addressed at the same sector and
/// platter and sized to the same length, hands back exactly the bytes the
/// write carried: the end-to-end law of the disk protocol at the
/// control-block level.
pub proof fn lemma_control_round_trip(
    d0: Device,
    d1: Device,
    wb: DeviceControlBlock,
    rb: DeviceControlBlock,
    out0: Seq<u8>,
)
    requires
        d0.wf(),
        d0.body is Disk,
        wb.command == DISK_WRITE,
        control_check(d0, wb) is Ok,
        device_after_control(d0, wb, d1),
        rb.command == DISK_READ,
        rb.control1 == wb.control1,
        rb.control2 == wb.control2,
        rb.data_length == wb.data_length,
        wb.input_data@.len() == wb.data_length,
    ensures
        output_after_control(d1, rb, out0) == wb.input_data@,
{
    match d0.body {
        DeviceBody::Disk { store } => {
            lemma_disk_write_read_round_trip(store@, wb.control2, wb.control1, wb.input_data@);
        },
        _ => {},
    }
}

/// Reading a sector straight after writing it returns exactly the bytes
/// written: the disk protocol round-trips data through the backing store.
pub proof fn lemma_disk_write_read_round_trip(
    store: Seq<u8>,
    platter: u32,
    sector: u32,
    data: Seq<u8>,
)
    requires
        store.len() == DISK_STORE_BYTES,
        platter < THREADS_DISK_MAX_PLATTERS,
        sector < THREADS_DISK_SECTOR_COUNT,
        data.len() <= THREADS_DISK_SECTOR_SIZE,
    ensures
        disk_read_spec(
            disk_write_spec(store, platter, sector, data, data.len() as int),
            platter,
            sector,
            data.len() as int,
        ) == data,
{
    lemma_disk_addr_bounds(platter, sector);
    assert(disk_read_spec(
        disk_write_spec(store, platter, sector, data, data.len() as int),
        platter,
        sector,
        data.len() as int,
    ) =~= data);
}

} // verus!
