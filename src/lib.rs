//! Guest-memory access, software breakpoints, and the balloon device registry
//! of a virtual machine monitor.

pub mod memory;
pub mod breakpoint;
pub mod balloon;
pub mod device;
