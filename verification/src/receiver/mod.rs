//! The receiving side: what is answered to `init`, `chunk`, `complete` and
//! `status`, and how a received file is put in place.
//!
//! A request is served in steps. Each step looks at the registry and at the
//! outcome of the last outside action, and names the next one: a file to read,
//! a row to look up, a lock already held, an answer to give. The steps hold no
//! file and no connection themselves.
use vstd::prelude::*;

use crate::task::Progress;
use crate::CHUNK_SIZE;

pub mod certify;
pub mod chunk;
pub mod effects;
pub mod endings;
pub mod files;
pub mod finalize;
pub mod init;
pub mod intent;
pub mod laws;
pub mod names;
pub mod placement;
pub mod resume;
pub mod status;
pub mod validation;

verus! {

broadcast use vstd::string::group_string_axioms;

/// What a peer says of the file it is about to send.
#[derive(Debug)]
pub struct InitMeta {
    pub transfer_id: Option<String>,
    pub filename: String,
    pub size: u64,
    pub sha256: String,
    pub chunk_size: u64,
}

/// The chunk size of a peer that does not name one.
pub fn default_chunk_size() -> (size: u64)
    ensures
        size == CHUNK_SIZE,
{
    CHUNK_SIZE as u64
}

/// The answer to `init`.
#[derive(Debug)]
pub struct InitResp {
    pub transfer_id: String,
    pub accepted: bool,
    /// Where the peer is to go on from.
    pub resume_offset: u64,
}

/// What an [`InitResp`] says.
pub struct InitRespView {
    pub transfer_id: Seq<char>,
    pub accepted: bool,
    pub resume_offset: u64,
}

impl View for InitResp {
    type V = InitRespView;

    open spec fn view(&self) -> InitRespView {
        InitRespView {
            transfer_id: self.transfer_id@,
            accepted: self.accepted,
            resume_offset: self.resume_offset,
        }
    }
}

/// The answer to `chunk` and to `complete`.
#[derive(Clone, Copy, Debug, PartialEq, Eq, Structural)]
pub struct ChunkResp {
    pub success: bool,
    pub received_bytes: u64,
}

/// The answer to `status`.
#[derive(Debug)]
pub struct StatusResp {
    pub transfer_id: String,
    pub status: String,
    pub progress: Progress,
    pub transferred_bytes: u64,
    pub size: u64,
    pub filename: String,
}

/// What a [`StatusResp`] says.
pub struct StatusRespView {
    pub transfer_id: Seq<char>,
    pub status: Seq<char>,
    pub progress: Progress,
    pub transferred_bytes: u64,
    pub size: u64,
    pub filename: Seq<char>,
}

impl View for StatusResp {
    type V = StatusRespView;

    open spec fn view(&self) -> StatusRespView {
        StatusRespView {
            transfer_id: self.transfer_id@,
            status: self.status@,
            progress: self.progress,
            transferred_bytes: self.transferred_bytes,
            size: self.size,
            filename: self.filename@,
        }
    }
}

} // verus!
