//! The type codes of SCTP parameters.
use vstd::prelude::*;

verus! {

/// The type of an SCTP parameter; a code this stack does not know is kept as
/// it came.
#[derive(Debug, Clone, Copy, PartialEq, Eq, Structural)]
pub enum ParamType {
    /// Heartbeat information (1).
    HeartbeatInfo,
    /// IPv4 address (5).
    Ipv4Addr,
    /// IPv6 address (6).
    Ipv6Addr,
    /// State cookie (7).
    StateCookie,
    /// Unrecognized parameter (8).
    UnrecognizedParam,
    /// Cookie preservative (9).
    CookiePreservative,
    /// Host name address (11).
    HostNameAddr,
    /// Supported address types (12).
    SupportedAddrTypes,
    /// Outgoing SSN reset request (13).
    OutSsnResetReq,
    /// Incoming SSN reset request (14).
    IncSsnResetReq,
    /// SSN/TSN reset request (15).
    SsnTsnResetReq,
    /// Re-configuration response (16).
    ReconfigResp,
    /// Add outgoing streams request (17).
    AddOutStreamsReq,
    /// Add incoming streams request (18).
    AddIncStreamsReq,
    /// ECN capable (32768).
    EcnCapable,
    /// Random (32770).
    Random,
    /// Chunk list (32771).
    ChunkList,
    /// Requested HMAC algorithm list (32772).
    ReqHmacAlgo,
    /// Padding (32773).
    Padding,
    /// Supported extensions (32776).
    SupportedExt,
    /// Forward TSN supported (49152).
    ForwardTsnSupp,
    /// Add IP address (49153).
    AddIpAddr,
    /// Delete IP address (49154).
    DelIpAddr,
    /// Error cause indication (49155).
    ErrClauseInd,
    /// Set primary address (49156).
    SetPriAddr,
    /// Success indication (49157).
    SuccessInd,
    /// Adaptation layer indication (49158).
    AdaptLayerInd,
    /// A code that none of the above has.
    Unknown { param_type: u16 },
}

/// The parameter type that a code on the wire stands for.
pub open spec fn spec_param_type_from_code(v: u16) -> ParamType {
    match v {
        1 => ParamType::HeartbeatInfo,
        5 => ParamType::Ipv4Addr,
        6 => ParamType::Ipv6Addr,
        7 => ParamType::StateCookie,
        8 => ParamType::UnrecognizedParam,
        9 => ParamType::CookiePreservative,
        11 => ParamType::HostNameAddr,
        12 => ParamType::SupportedAddrTypes,
        13 => ParamType::OutSsnResetReq,
        14 => ParamType::IncSsnResetReq,
        15 => ParamType::SsnTsnResetReq,
        16 => ParamType::ReconfigResp,
        17 => ParamType::AddOutStreamsReq,
        18 => ParamType::AddIncStreamsReq,
        32768 => ParamType::EcnCapable,
        32770 => ParamType::Random,
        32771 => ParamType::ChunkList,
        32772 => ParamType::ReqHmacAlgo,
        32773 => ParamType::Padding,
        32776 => ParamType::SupportedExt,
        49152 => ParamType::ForwardTsnSupp,
        49153 => ParamType::AddIpAddr,
        49154 => ParamType::DelIpAddr,
        49155 => ParamType::ErrClauseInd,
        49156 => ParamType::SetPriAddr,
        49157 => ParamType::SuccessInd,
        49158 => ParamType::AdaptLayerInd,
        _ => ParamType::Unknown { param_type: v },
    }
}

/// The code on the wire of a parameter type.
pub open spec fn spec_param_type_code(t: ParamType) -> u16 {
    match t {
        ParamType::HeartbeatInfo => 1,
        ParamType::Ipv4Addr => 5,
        ParamType::Ipv6Addr => 6,
        ParamType::StateCookie => 7,
        ParamType::UnrecognizedParam => 8,
        ParamType::CookiePreservative => 9,
        ParamType::HostNameAddr => 11,
        ParamType::SupportedAddrTypes => 12,
        ParamType::OutSsnResetReq => 13,
        ParamType::IncSsnResetReq => 14,
        ParamType::SsnTsnResetReq => 15,
        ParamType::ReconfigResp => 16,
        ParamType::AddOutStreamsReq => 17,
        ParamType::AddIncStreamsReq => 18,
        ParamType::EcnCapable => 32768,
        ParamType::Random => 32770,
        ParamType::ChunkList => 32771,
        ParamType::ReqHmacAlgo => 32772,
        ParamType::Padding => 32773,
        ParamType::SupportedExt => 32776,
        ParamType::ForwardTsnSupp => 49152,
        ParamType::AddIpAddr => 49153,
        ParamType::DelIpAddr => 49154,
        ParamType::ErrClauseInd => 49155,
        ParamType::SetPriAddr => 49156,
        ParamType::SuccessInd => 49157,
        ParamType::AdaptLayerInd => 49158,
        ParamType::Unknown { param_type } => param_type,
    }
}

impl From<u16> for ParamType {
    fn from(v: u16) -> (r: ParamType) {
        match v {
            1 => ParamType::HeartbeatInfo,
            5 => ParamType::Ipv4Addr,
            6 => ParamType::Ipv6Addr,
            7 => ParamType::StateCookie,
            8 => ParamType::UnrecognizedParam,
            9 => ParamType::CookiePreservative,
            11 => ParamType::HostNameAddr,
            12 => ParamType::SupportedAddrTypes,
            13 => ParamType::OutSsnResetReq,
            14 => ParamType::IncSsnResetReq,
            15 => ParamType::SsnTsnResetReq,
            16 => ParamType::ReconfigResp,
            17 => ParamType::AddOutStreamsReq,
            18 => ParamType::AddIncStreamsReq,
            32768 => ParamType::EcnCapable,
            32770 => ParamType::Random,
            32771 => ParamType::ChunkList,
            32772 => ParamType::ReqHmacAlgo,
            32773 => ParamType::Padding,
            32776 => ParamType::SupportedExt,
            49152 => ParamType::ForwardTsnSupp,
            49153 => ParamType::AddIpAddr,
            49154 => ParamType::DelIpAddr,
            49155 => ParamType::ErrClauseInd,
            49156 => ParamType::SetPriAddr,
            49157 => ParamType::SuccessInd,
            49158 => ParamType::AdaptLayerInd,
            _ => ParamType::Unknown { param_type: v },
        }
    }
}

impl vstd::std_specs::convert::FromSpecImpl<u16> for ParamType {
    open spec fn obeys_from_spec() -> bool {
        true
    }

    open spec fn from_spec(v: u16) -> ParamType {
        spec_param_type_from_code(v)
    }
}

impl From<ParamType> for u16 {
    fn from(t: ParamType) -> (r: u16) {
        match t {
            ParamType::HeartbeatInfo => 1,
            ParamType::Ipv4Addr => 5,
            ParamType::Ipv6Addr => 6,
            ParamType::StateCookie => 7,
            ParamType::UnrecognizedParam => 8,
            ParamType::CookiePreservative => 9,
            ParamType::HostNameAddr => 11,
            ParamType::SupportedAddrTypes => 12,
            ParamType::OutSsnResetReq => 13,
            ParamType::IncSsnResetReq => 14,
            ParamType::SsnTsnResetReq => 15,
            ParamType::ReconfigResp => 16,
            ParamType::AddOutStreamsReq => 17,
            ParamType::AddIncStreamsReq => 18,
            ParamType::EcnCapable => 32768,
            ParamType::Random => 32770,
            ParamType::ChunkList => 32771,
            ParamType::ReqHmacAlgo => 32772,
            ParamType::Padding => 32773,
            ParamType::SupportedExt => 32776,
            ParamType::ForwardTsnSupp => 49152,
            ParamType::AddIpAddr => 49153,
            ParamType::DelIpAddr => 49154,
            ParamType::ErrClauseInd => 49155,
            ParamType::SetPriAddr => 49156,
            ParamType::SuccessInd => 49157,
            ParamType::AdaptLayerInd => 49158,
            ParamType::Unknown { param_type } => param_type,
        }
    }
}

impl vstd::std_specs::convert::FromSpecImpl<ParamType> for u16 {
    open spec fn obeys_from_spec() -> bool {
        true
    }

    open spec fn from_spec(t: ParamType) -> u16 {
        spec_param_type_code(t)
    }
}

/// Reading a code and writing it back gives the same code, for every code.
pub proof fn lemma_param_type_code_roundtrip(v: u16)
    ensures
        spec_param_type_code(spec_param_type_from_code(v)) == v,
{
}

/// Writing a known parameter type and reading it back gives the same type;
/// so does an unknown one whose code no known type has.
pub proof fn lemma_param_type_roundtrip(t: ParamType)
    requires
        t matches ParamType::Unknown { param_type } ==> spec_param_type_from_code(param_type)
            is Unknown,
    ensures
        spec_param_type_from_code(spec_param_type_code(t)) == t,
{
}

} // verus!
