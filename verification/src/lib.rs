//! Receiver-side logic of a Nintendo DS gamepad bridge: the UDP packet
//! format, the mapping onto an Xbox-style pad, the packet filter of the
//! receiver, the runtime status model and the update session state machine.

pub mod text;
pub mod protocol;
pub mod mapping;
pub mod labels;
pub mod receiver;
pub mod backend;
pub mod settings;
pub mod runtime;
pub mod worker;
pub mod dto;
pub mod log_event;
pub mod updater;
pub mod linux_pad;
