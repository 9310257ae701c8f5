//! ICE candidate pairs (`RTCIceCandidatePair`): a local and a remote
//! candidate, and the identifier of the pair's statistics.
use vstd::prelude::*;
use vstd::string::StringExecFns;

verus! {

/// The transport protocol of an ICE candidate.
#[derive(Debug, Clone, Copy, PartialEq, Eq, Structural, Default)]
pub enum RTCIceProtocol {
    #[default]
    Unspecified,
    Udp,
    Tcp,
}

/// The type of an ICE candidate.
#[derive(Debug, Clone, Copy, PartialEq, Eq, Structural, Default)]
pub enum RTCIceCandidateType {
    #[default]
    Unspecified,
    Host,
    Srflx,
    Prflx,
    Relay,
}

/// An ICE candidate.
#[derive(Debug, Clone, Default, PartialEq, Eq)]
pub struct RTCIceCandidate {
    pub stats_id: String,
    pub foundation: String,
    pub priority: u32,
    pub address: String,
    pub protocol: RTCIceProtocol,
    pub port: u16,
    pub typ: RTCIceCandidateType,
    pub component: u16,
    pub related_address: String,
    pub related_port: u16,
    pub tcp_type: String,
}

/// A pair of a local and a remote ICE candidate.
#[derive(Debug, Clone, Default, PartialEq, Eq)]
pub struct RTCIceCandidatePair {
    stats_id: String,
    pub local: RTCIceCandidate,
    pub remote: RTCIceCandidate,
}

/// The statistics identifier of a pair: the local candidate's, a dash, and
/// the remote candidate's.
pub open spec fn spec_pair_stats_id(local_id: Seq<char>, remote_id: Seq<char>) -> Seq<char> {
    local_id + "-"@ + remote_id
}

impl RTCIceCandidatePair {
    /// The pair's statistics identifier.
    pub closed spec fn spec_stats_id(&self) -> Seq<char> {
        self.stats_id@
    }

    /// The pair's local candidate.
    pub closed spec fn spec_local(&self) -> RTCIceCandidate {
        self.local
    }

    /// The pair's remote candidate.
    pub closed spec fn spec_remote(&self) -> RTCIceCandidate {
        self.remote
    }

    /// The statistics identifier of the pair of candidates with these
    /// identifiers.
    fn stats_id(local_id: &str, remote_id: &str) -> (r: String)
        ensures
            r@ == spec_pair_stats_id(local_id@, remote_id@),
    {
        let mut id = local_id.to_owned();
        id.append("-");
        id.append(remote_id);
        id
    }

    /// The pair of `local` and `remote`.
    pub fn new(local: RTCIceCandidate, remote: RTCIceCandidate) -> (r: RTCIceCandidatePair)
        ensures
            r.spec_stats_id() == spec_pair_stats_id(local.stats_id@, remote.stats_id@),
            r.spec_local() == local,
            r.spec_remote() == remote,
    {
        let stats_id = Self::stats_id(local.stats_id.as_str(), remote.stats_id.as_str());
        RTCIceCandidatePair { stats_id, local, remote }
    }
}

} // verus!
