//! What a peer says, and how a call to it can fail.
use vstd::prelude::*;

use crate::paths::texts;
use crate::text::{decimal, decimal_of, join2, join4, join5, same};

verus! {

broadcast use vstd::string::group_string_axioms;

/// The first protocol version that names capabilities.
pub const PROTOCOL_VERSION_V1: u32 = 1;

/// The peer takes part in an explicit completion.
pub const CAPABILITY_TRANSFER_COMPLETE_V1: &'static str = "transfer.complete.v1";

/// The peer goes on with a transfer under the protocol id it had.
pub const CAPABILITY_TRANSFER_RESUME_V1: &'static str = "transfer.resume.v1";

/// The protocol that a peer speaks.
#[derive(Debug)]
pub struct PeerProtocolInfo {
    pub protocol_version: u32,
    pub capabilities: Vec<String>,
}

/// Whether `info` names `capability`, in a protocol that has capabilities.
pub open spec fn supported(info: PeerProtocolInfo, capability: Seq<char>) -> bool {
    info.protocol_version >= PROTOCOL_VERSION_V1 && texts(info.capabilities@).contains(capability)
}

impl PeerProtocolInfo {
    /// Whether the peer has `capability`.
    pub fn supports(&self, capability: &str) -> (yes: bool)
        ensures
            yes == supported(*self, capability@),
    {
        if self.protocol_version < PROTOCOL_VERSION_V1 {
            return false;
        }
        let mut i: usize = 0;
        while i < self.capabilities.len()
            invariant
                i <= self.capabilities@.len(),
                self.protocol_version >= PROTOCOL_VERSION_V1,
                forall|j: int| 0 <= j < i ==> (#[trigger] self.capabilities@[j])@ != capability@,
            decreases self.capabilities@.len() - i,
        {
            if same(self.capabilities[i].as_str(), capability) {
                assert(texts(self.capabilities@)[i as int] == capability@);
                return true;
            }
            i += 1;
        }
        assert forall|j: int| 0 <= j < texts(self.capabilities@).len() implies texts(
            self.capabilities@,
        )[j] != capability@ by {
            assert(self.capabilities@[j]@ != capability@);
        }
        false
    }
}

/// How a call to a peer failed.
#[derive(Debug)]
pub enum PeerCallError {
    /// The peer could not be reached, or did not answer.
    Network { source: String },
    /// The peer answered with an error.
    Remote { status: u16, code: String, retryable: bool },
    /// The peer does not have a capability.
    Unsupported { capability: String },
    /// The answer could not be understood.
    InvalidResponse { reason: String },
}

/// The text shown for a completion that failed.
pub open spec fn complete_error_text(e: PeerCallError) -> Seq<char> {
    match e {
        PeerCallError::Remote { status, code, .. } => "对端 complete 握手失败: HTTP "@ + decimal(
            status as nat,
        ) + " ["@ + code@ + "]"@,
        PeerCallError::Network { source } => "对端 complete 握手网络失败: "@ + source@,
        PeerCallError::Unsupported { capability } => "对端不支持能力 "@ + capability@,
        PeerCallError::InvalidResponse { reason } => "对端 complete 响应无法解析: "@ + reason@,
    }
}

/// The text shown for a completion that failed.
pub fn format_complete_error_ref(error: &PeerCallError) -> (text: String)
    ensures
        text@ == complete_error_text(*error),
{
    match error {
        PeerCallError::Remote { status, code, .. } => {
            let number = decimal_of(*status as u64);
            join5("对端 complete 握手失败: HTTP ", number.as_str(), " [", code.as_str(), "]")
        },
        PeerCallError::Network { source } => join2("对端 complete 握手网络失败: ", source.as_str()),
        PeerCallError::Unsupported { capability } => join2("对端不支持能力 ", capability.as_str()),
        PeerCallError::InvalidResponse { reason } => join2(
            "对端 complete 响应无法解析: ",
            reason.as_str(),
        ),
    }
}

/// Where a peer is.
#[derive(Debug)]
pub struct PeerAddress {
    pub host: String,
    pub port: u16,
}

/// The address under which a peer is called.
pub open spec fn url_of(address: PeerAddress) -> Seq<char> {
    "http://"@ + address.host@ + ":"@ + decimal(address.port as nat)
}

impl PeerAddress {
    /// The address under which the peer is called.
    pub fn base_url(&self) -> (url: String)
        ensures
            url@ == url_of(*self),
    {
        let port = decimal_of(self.port as u64);
        join4("http://", self.host.as_str(), ":", port.as_str())
    }
}

/// What a peer answers to `init`, as far as it can be read.
#[derive(Debug)]
pub struct InitReply {
    pub accepted: Option<bool>,
    pub error: Option<String>,
    pub resume_offset: Option<u64>,
}

/// What a peer answers to `status`, as far as it can be read.
#[derive(Debug)]
pub struct StatusReply {
    pub status: Option<String>,
}

/// Whether a peer says that it has the whole file.
pub fn peer_status_is_completed(reply: &StatusReply) -> (yes: bool)
    ensures
        yes <==> reply.status is Some && reply.status->0@ == "completed"@,
{
    match &reply.status {
        Some(s) => same(s.as_str(), "completed"),
        None => false,
    }
}

} // verus!
