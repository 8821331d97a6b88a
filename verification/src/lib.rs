//! Execution substrate of a small cooperative, interrupt-driven kernel:
//! process contexts with an arena of integer handles, a processor status
//! register and microsecond clock, fixed-size interrupt and syscall dispatch
//! vectors, and a registry of block and character devices driven through a
//! uniform control-block protocol.
//!
//! All kernel state lives in one explicit [`kernel::Kernel`] value passed by
//! reference to every operation, so isolated instances can exist side by
//! side. Handlers and entry points are opaque integer tokens: the host owns
//! the functions behind them, runs whatever a dispatch hands back, and
//! renders the console log.

pub mod constants;
pub mod context;
pub mod devctl;
pub mod device;
pub mod errors;
pub mod kernel;
pub mod process;
pub mod text;
pub mod vectors;
