//! Userspace capability and IPC primitives for a microkernel.
//!
//! The library is the part of a service that decides: which request goes to
//! the kernel, and what the kernel's reply means. It never traps itself. A
//! caller takes a [`Request`], performs the trap, and hands the
//! [`SysReturn`] back to the function that interprets it. Every function
//! here is therefore a total function of plain values, and its contract
//! says exactly what it returns.

pub mod abi;
pub mod channel;
pub mod handle;
pub mod lifecycle;
pub mod pollset;
pub mod signal;
pub mod status;
pub mod time;

pub use crate::abi::{abort, klog_print, Request, SysCall, SysCallMethod, SysReturn, ABI_VERSION};
pub use crate::channel::{register_channel_listener, request_channel, Channel, ChannelListener};
pub use crate::handle::{Fatal, Handle, Waitable};
pub use crate::pollset::{Member, PollSet};
pub use crate::signal::{SignalMask, CLOSED, READABLE, WRITABLE};
pub use crate::status::{translate, HandleError, KernelStatus, WaitError};
pub use crate::time::{get_time, Time};
