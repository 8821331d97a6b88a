use rusty_threads::constants::{
    DISK_INFO, DISK_READ, DISK_SEEK, DISK_WRITE, PSR_INTERRUPTS, PSR_IRQ_MODE, PSR_KERNEL_MODE,
    TERMINAL_READ_CHAR, TERMINAL_WRITE_CHAR, THREADS_IO_INTERRUPT, THREADS_TIMER_INTERRUPT,
};
use rusty_threads::context::ContextState;
use rusty_threads::device::{DeviceBody, DeviceControlBlock};
use rusty_threads::errors::KernelError;
use rusty_threads::kernel::Kernel;
use rusty_threads::vectors::{SystemCallArguments, UNHANDLED_INTERRUPT_EXIT_CODE};

fn block(command: u8, control1: u32, control2: u32, input: Vec<u8>, len: u32) -> DeviceControlBlock {
    DeviceControlBlock {
        command,
        control1,
        control2,
        input_data: input,
        output_data: Vec::new(),
        data_length: len,
    }
}

#[test]
fn test_psr_round_trip() {
    let mut k = Kernel::new();
    for x in 0u32..8u32 {
        k.set_psr(x);
        assert_eq!(k.get_psr(), x);
    }
    k.set_psr(PSR_INTERRUPTS | PSR_KERNEL_MODE);
    assert_eq!(k.get_psr(), 3);
}

#[test]
fn test_clock_starts_at_zero_and_advances() {
    let mut k = Kernel::new();
    assert_eq!(k.system_clock(), 0);
    k.clock_advance(1500);
    assert_eq!(k.system_clock(), 1500);
    k.clock_advance(1);
    assert_eq!(k.system_clock(), 1501);
}

#[test]
fn test_stack_clamped_below_minimum() {
    let mut k = Kernel::new();
    let h = k.context_initialize(7, 4096, 0).unwrap();
    assert_eq!(k.contexts[h as usize].stack.len(), 8192);
    let h2 = k.context_initialize(7, 0, 0).unwrap();
    assert_eq!(k.contexts[h2 as usize].stack.len(), 8192);
}

#[test]
fn test_stack_honored_at_and_above_minimum() {
    let mut k = Kernel::new();
    let h = k.context_initialize(7, 8192, 0).unwrap();
    assert_eq!(k.contexts[h as usize].stack.len(), 8192);
    let h2 = k.context_initialize(7, 10000, 0).unwrap();
    assert_eq!(k.contexts[h2 as usize].stack.len(), 10000);
}

#[test]
fn test_context_lifecycle() {
    let mut k = Kernel::new();
    let a = k.context_initialize(1, 8192, 100).unwrap();
    assert_eq!(k.contexts[a as usize].state, ContextState::Created);
    assert!(k.context_switch(a));
    assert_eq!(k.contexts[a as usize].state, ContextState::Running);
    let b = k.context_initialize(2, 8192, 200).unwrap();
    assert_eq!(k.contexts[b as usize].state, ContextState::Created);
    assert!(k.context_switch(b));
    assert_eq!(k.contexts[a as usize].state, ContextState::Suspended);
    assert_eq!(k.contexts[b as usize].state, ContextState::Running);
    // stop a non-Running context: terminal, stack released
    assert_eq!(k.context_stop(a), Ok(()));
    assert_eq!(k.contexts[a as usize].state, ContextState::Stopped);
    assert_eq!(k.contexts[a as usize].stack.len(), 0);
    // irreversible: a second stop fails, and a switch to it fails
    assert_eq!(k.context_stop(a), Err(KernelError::AlreadyStopped));
    assert!(!k.context_switch(a));
    assert_eq!(k.contexts[a as usize].state, ContextState::Stopped);
}

#[test]
fn test_stop_running_context_rejected() {
    let mut k = Kernel::new();
    let a = k.context_initialize(1, 8192, 0).unwrap();
    assert!(k.context_switch(a));
    assert_eq!(k.context_stop(a), Err(KernelError::InvalidHandle));
    assert_eq!(k.contexts[a as usize].state, ContextState::Running);
}

#[test]
fn test_context_invalid_handles() {
    let mut k = Kernel::new();
    assert!(!k.context_switch(99));
    assert_eq!(k.context_stop(99), Err(KernelError::InvalidHandle));
}

#[test]
fn test_context_table_full() {
    let mut k = Kernel::new();
    for i in 0u32..50u32 {
        assert_eq!(k.context_initialize(1, 8192, 0), Ok(i));
    }
    assert_eq!(
        k.context_initialize(1, 8192, 0),
        Err(KernelError::OversizeRequest)
    );
}

#[test]
fn test_device_unknown_name() {
    let mut k = Kernel::new();
    assert_eq!(k.device_initialize("unknown-device"), None);
    assert_eq!(k.device_handle("unknown-device"), None);
}

#[test]
fn test_device_initialize_then_handle() {
    let mut k = Kernel::new();
    let h = k.device_initialize("disk0");
    assert!(h.is_some());
    assert_eq!(k.device_handle("disk0"), h);
    // initializing again hands back the same handle
    assert_eq!(k.device_initialize("disk0"), h);
    // a different device gets a different handle
    let h2 = k.device_initialize("term0");
    assert!(h2.is_some());
    assert_ne!(h, h2);
    // but one never initialized is not found
    assert_eq!(k.device_handle("disk1"), None);
}

#[test]
fn test_device_table_full() {
    let mut k = Kernel::new();
    assert!(k.device_initialize("disk0").is_some());
    assert!(k.device_initialize("disk1").is_some());
    assert!(k.device_initialize("disk2").is_some());
    assert!(k.device_initialize("disk3").is_some());
    assert!(k.device_initialize("term0").is_some());
    assert!(k.device_initialize("term1").is_some());
    assert!(k.device_initialize("term2").is_some());
    assert!(k.device_initialize("term3").is_some());
    // all eight slots taken: the ninth recognized name finds no room
    assert_eq!(k.device_initialize("clock"), None);
}

#[test]
fn test_disk_read_sector_out_of_range() {
    let mut k = Kernel::new();
    k.device_initialize("disk0").unwrap();
    let mut b = block(DISK_READ, 16, 0, Vec::new(), 512);
    assert_eq!(
        k.device_control_result("disk0", &mut b),
        Err(KernelError::OutOfRange)
    );
    assert_eq!(k.device_control("disk0", &mut b), None);
    let mut ok = block(DISK_READ, 0, 0, Vec::new(), 512);
    assert_eq!(k.device_control("disk0", &mut ok), Some(512));
    assert_eq!(ok.output_data.len(), 512);
}

#[test]
fn test_disk_platter_out_of_range() {
    let mut k = Kernel::new();
    k.device_initialize("disk0").unwrap();
    let mut b = block(DISK_SEEK, 0, 3, Vec::new(), 0);
    assert_eq!(
        k.device_control_result("disk0", &mut b),
        Err(KernelError::OutOfRange)
    );
    let mut ok = block(DISK_SEEK, 15, 2, Vec::new(), 0);
    assert_eq!(k.device_control_result("disk0", &mut ok), Ok(0));
}

#[test]
fn test_disk_info_status() {
    let mut k = Kernel::new();
    k.device_initialize("disk0").unwrap();
    let mut b = block(DISK_INFO, 0, 0, Vec::new(), 0);
    assert_eq!(k.device_control("disk0", &mut b), Some(512));
}

#[test]
fn test_disk_write_then_read_round_trip() {
    let mut k = Kernel::new();
    k.device_initialize("disk0").unwrap();
    let data: Vec<u8> = (0..512u32).map(|i| (i % 251) as u8).collect();
    let mut w = block(DISK_WRITE, 0, 0, data.clone(), 512);
    assert_eq!(k.device_control("disk0", &mut w), Some(512));
    let mut r = block(DISK_READ, 0, 0, Vec::new(), 512);
    assert_eq!(k.device_control("disk0", &mut r), Some(512));
    assert_eq!(r.output_data, data);
}

#[test]
fn test_disk_sectors_are_independent() {
    let mut k = Kernel::new();
    k.device_initialize("disk0").unwrap();
    let ones: Vec<u8> = vec![1u8; 512];
    let twos: Vec<u8> = vec![2u8; 512];
    let mut w1 = block(DISK_WRITE, 3, 1, ones.clone(), 512);
    assert_eq!(k.device_control("disk0", &mut w1), Some(512));
    let mut w2 = block(DISK_WRITE, 4, 1, twos, 512);
    assert_eq!(k.device_control("disk0", &mut w2), Some(512));
    let mut r1 = block(DISK_READ, 3, 1, Vec::new(), 512);
    assert_eq!(k.device_control("disk0", &mut r1), Some(512));
    assert_eq!(r1.output_data, ones);
    // an untouched sector still reads as zeroes
    let mut r0 = block(DISK_READ, 0, 0, Vec::new(), 512);
    assert_eq!(k.device_control("disk0", &mut r0), Some(512));
    assert_eq!(r0.output_data, vec![0u8; 512]);
}

#[test]
fn test_command_mismatch() {
    let mut k = Kernel::new();
    k.device_initialize("disk0").unwrap();
    k.device_initialize("term0").unwrap();
    let mut on_disk = block(TERMINAL_WRITE_CHAR, 0, 0, vec![b'x'], 1);
    assert_eq!(
        k.device_control_result("disk0", &mut on_disk),
        Err(KernelError::CommandMismatch)
    );
    let mut on_term = block(DISK_READ, 0, 0, Vec::new(), 512);
    assert_eq!(
        k.device_control_result("term0", &mut on_term),
        Err(KernelError::CommandMismatch)
    );
}

#[test]
fn test_oversize_requests() {
    let mut k = Kernel::new();
    k.device_initialize("disk0").unwrap();
    // over the global buffer limit
    let mut b = block(DISK_READ, 0, 0, Vec::new(), 2000);
    assert_eq!(
        k.device_control_result("disk0", &mut b),
        Err(KernelError::OversizeRequest)
    );
    // over one sector
    let mut b2 = block(DISK_READ, 0, 0, Vec::new(), 600);
    assert_eq!(
        k.device_control_result("disk0", &mut b2),
        Err(KernelError::OversizeRequest)
    );
    // write not backed by enough input bytes
    let mut b3 = block(DISK_WRITE, 0, 0, vec![0u8; 50], 100);
    assert_eq!(
        k.device_control_result("disk0", &mut b3),
        Err(KernelError::OversizeRequest)
    );
}

#[test]
fn test_unknown_device_control() {
    let mut k = Kernel::new();
    let mut b = block(DISK_READ, 0, 0, Vec::new(), 512);
    assert_eq!(
        k.device_control_result("disk0", &mut b),
        Err(KernelError::UnknownDevice)
    );
    assert_eq!(k.device_control("disk0", &mut b), None);
}

#[test]
fn test_terminal_write_and_read() {
    let mut k = Kernel::new();
    k.device_initialize("term0").unwrap();
    // write a character to the output log
    let mut w = block(TERMINAL_WRITE_CHAR, 0, 0, vec![b'A'], 1);
    assert_eq!(k.device_control("term0", &mut w), Some(1));
    match &k.devices[0].body {
        DeviceBody::Terminal { output, .. } => assert_eq!(output, &vec![b'A']),
        _ => panic!("term0 is a terminal"),
    }
    // nothing pending: a read transfers zero bytes
    let mut r_empty = block(TERMINAL_READ_CHAR, 0, 0, Vec::new(), 1);
    assert_eq!(k.device_control("term0", &mut r_empty), Some(0));
    // feed input, then read it back in arrival order
    assert!(k.terminal_feed("term0", b'h'));
    assert!(k.terminal_feed("term0", b'i'));
    let mut r1 = block(TERMINAL_READ_CHAR, 0, 0, Vec::new(), 1);
    assert_eq!(k.device_control("term0", &mut r1), Some(1));
    assert_eq!(r1.output_data, vec![b'h']);
    let mut r2 = block(TERMINAL_READ_CHAR, 0, 0, Vec::new(), 1);
    assert_eq!(k.device_control("term0", &mut r2), Some(1));
    assert_eq!(r2.output_data, vec![b'i']);
    // feeding anything but a terminal finds nothing
    k.device_initialize("disk0").unwrap();
    assert!(!k.terminal_feed("disk0", b'x'));
}

#[test]
fn test_clock_device() {
    let mut k = Kernel::new();
    assert_eq!(k.device_initialize("clock"), Some(0));
    k.clock_advance(1234);
    let mut b = block(DISK_INFO, 0, 0, Vec::new(), 0);
    assert_eq!(k.device_control("clock", &mut b), Some(1234));
    // the clock accepts nothing but the info query
    let mut r = block(DISK_READ, 0, 0, Vec::new(), 0);
    assert_eq!(
        k.device_control_result("clock", &mut r),
        Err(KernelError::CommandMismatch)
    );
}

#[test]
fn test_syscall_register_bounds() {
    let mut k = Kernel::new();
    assert_eq!(k.syscall_register(32, 77), Err(KernelError::OutOfRange));
    assert_eq!(k.syscall_register(31, 77), Ok(()));
    let v = k.get_system_call_vector();
    assert_eq!(v.len(), 32);
    assert_eq!(v[31], Some(77));
}

#[test]
fn test_syscall_invoke() {
    let mut k = Kernel::new();
    let args = SystemCallArguments {
        call_id: 5,
        arg_dword: 1,
        arg_int: 2,
        arg_string: String::from("hello"),
    };
    // unregistered: a soft failure, not a crash
    assert_eq!(k.syscall_invoke(&args), Err(KernelError::UnhandledSyscall));
    assert_eq!(k.syscall_register(5, 900), Ok(()));
    assert_eq!(k.syscall_invoke(&args), Ok(900));
    let wild = SystemCallArguments {
        call_id: 40,
        arg_dword: 0,
        arg_int: 0,
        arg_string: String::new(),
    };
    assert_eq!(k.syscall_invoke(&wild), Err(KernelError::OutOfRange));
}

#[test]
fn test_interrupt_vector_shape() {
    let mut k = Kernel::new();
    let v1 = k.get_interrupt_handlers();
    assert_eq!(v1.len(), 4);
    assert!(v1.iter().all(|s| s.is_none()));
    let v2 = k.get_interrupt_handlers();
    assert_eq!(v1, v2);
    // timer, I/O, exception, syscall sit at fixed indices
    assert_eq!(k.interrupt_register(THREADS_TIMER_INTERRUPT, 10), Ok(()));
    assert_eq!(k.interrupt_register(THREADS_IO_INTERRUPT, 11), Ok(()));
    let v3 = k.get_interrupt_handlers();
    assert_eq!(v3.len(), 4);
    assert_eq!(v3[0], Some(10));
    assert_eq!(v3[1], Some(11));
    assert_eq!(v3[2], None);
    assert_eq!(v3[3], None);
    // last writer wins
    assert_eq!(k.interrupt_register(THREADS_TIMER_INTERRUPT, 20), Ok(()));
    assert_eq!(k.get_interrupt_handlers()[0], Some(20));
    // beyond the four classes: rejected
    assert_eq!(k.interrupt_register(4, 1), Err(KernelError::OutOfRange));
}

#[test]
fn test_interrupt_dispatch_and_return() {
    let mut k = Kernel::new();
    assert_eq!(k.interrupt_register(THREADS_IO_INTERRUPT, 42), Ok(()));
    k.set_psr(PSR_INTERRUPTS | PSR_KERNEL_MODE);
    let d = k.interrupt_dispatch(THREADS_IO_INTERRUPT, 7, DISK_READ, 512).unwrap();
    assert_eq!(d.handler, 42);
    assert_eq!(d.device_id, 7);
    assert_eq!(d.command, DISK_READ);
    assert_eq!(d.status, 512);
    // interrupts masked and IRQ mode set for the handler's duration
    assert_eq!(k.get_psr(), PSR_KERNEL_MODE | PSR_IRQ_MODE);
    k.interrupt_return();
    assert_eq!(k.get_psr(), PSR_INTERRUPTS | PSR_KERNEL_MODE);
}

#[test]
fn test_unhandled_interrupt_is_fatal() {
    let mut k = Kernel::new();
    let r = k.interrupt_dispatch(THREADS_TIMER_INTERRUPT, 0, 0, 0);
    assert_eq!(r, Err(KernelError::UnhandledInterrupt));
    assert_eq!(k.halted, Some(UNHANDLED_INTERRUPT_EXIT_CODE));
}

#[test]
fn test_console_output_levels() {
    let mut k = Kernel::new();
    // debug output is off by default
    assert!(!k.console_output(true, String::from("hidden")));
    assert!(k.console_output(false, String::from("always")));
    k.set_debug_level(1);
    assert!(k.console_output(true, String::from("shown")));
    assert_eq!(k.console_log, vec![String::from("always"), String::from("shown")]);
}

#[test]
fn test_stop_records_exit_code() {
    let mut k = Kernel::new();
    k.stop(3);
    assert_eq!(k.halted, Some(3));
}
