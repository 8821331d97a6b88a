use rusty_threads::context::{ContextState, ProcessContext};
use rusty_threads::device::{Device, DeviceBody, DeviceControlBlock};
use rusty_threads::errors::KernelError;
use rusty_threads::kernel::Kernel;
use rusty_threads::vectors::{InterruptDelivery, SystemCallArguments};

#[test]
fn test_bindings_linkage() {
    // Function pointers: check that they exist and are not null
    assert!((Kernel::console_output as usize) != 0);
    assert!((Kernel::context_initialize as usize) != 0);
    assert!((Kernel::context_stop as usize) != 0);
    assert!((Kernel::context_switch as usize) != 0);
    assert!((Kernel::device_control as usize) != 0);
    assert!((Kernel::device_handle as usize) != 0);
    assert!((Kernel::device_initialize as usize) != 0);
    assert!((Kernel::get_interrupt_handlers as usize) != 0);
    assert!((Kernel::get_psr as usize) != 0);
    assert!((Kernel::get_system_call_vector as usize) != 0);
    assert!((Kernel::set_debug_level as usize) != 0);
    assert!((Kernel::set_psr as usize) != 0);
    assert!((Kernel::stop as usize) != 0);
    assert!((Kernel::system_clock as usize) != 0);

    // Type sizes: check that they are not zero
    assert!(core::mem::size_of::<Kernel>() > 0);
    assert!(core::mem::size_of::<ProcessContext>() > 0);
    assert!(core::mem::size_of::<ContextState>() > 0);
    assert!(core::mem::size_of::<Device>() > 0);
    assert!(core::mem::size_of::<DeviceBody>() > 0);
    assert!(core::mem::size_of::<DeviceControlBlock>() > 0);
    assert!(core::mem::size_of::<SystemCallArguments>() > 0);
    assert!(core::mem::size_of::<InterruptDelivery>() > 0);
    assert!(core::mem::size_of::<KernelError>() > 0);

    // Type alignments: check that they are not zero
    assert!(core::mem::align_of::<Kernel>() > 0);
    assert!(core::mem::align_of::<ProcessContext>() > 0);
    assert!(core::mem::align_of::<ContextState>() > 0);
    assert!(core::mem::align_of::<Device>() > 0);
    assert!(core::mem::align_of::<DeviceBody>() > 0);
    assert!(core::mem::align_of::<DeviceControlBlock>() > 0);
    assert!(core::mem::align_of::<SystemCallArguments>() > 0);
    assert!(core::mem::align_of::<InterruptDelivery>() > 0);
    assert!(core::mem::align_of::<KernelError>() > 0);
}
