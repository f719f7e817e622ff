//! Frame transfer core: the shared video control ring, session bookkeeping,
//! native frame leases and the attach handshake, with their contracts.

pub mod control_page;
pub mod daemon;
pub mod error;
pub mod fdpass;
pub mod ffi;
pub mod ffi_native;
pub mod model;
pub mod native;
pub mod shm;
pub mod state;
pub mod text;
pub mod transfer_channel;
pub mod worker;
