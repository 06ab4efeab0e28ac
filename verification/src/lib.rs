//! Chunked file transfer between devices on a local network: the rules a
//! sender and a receiver follow, separated from the sockets and files they
//! follow them on.
use vstd::prelude::*;

pub mod clock;
pub mod digest;
pub mod error;
pub mod event;
pub mod ident;
pub mod paths;
pub mod receiver;
pub mod peer;
pub mod platform;
pub mod registry;
pub mod sender;
pub mod table;
pub mod task;
pub mod text;
pub mod wide;

verus! {

/// Largest number of bytes carried by one chunk (960 KiB).
pub const CHUNK_SIZE: usize = 983040;

/// Virtual target that stands for this device's own mobile inbox.
pub const MOBILE_INBOX_DEVICE_ID: &'static str = "cc-partner-mobile-inbox";

/// Whether `device_id` names the mobile inbox rather than a peer.
pub fn is_mobile_inbox_device_id(device_id: &str) -> (inbox: bool)
    ensures
        inbox <==> device_id@ == MOBILE_INBOX_DEVICE_ID@,
{
    text::same(device_id, MOBILE_INBOX_DEVICE_ID)
}

} // verus!
