//! Wire formats and small pieces of protocol state of a WebRTC stack: DTLS
//! messages and cipher suite key setup, SCTP chunks and parameters, mDNS
//! resource record bodies and domain names, SRTP protection profiles, TURN
//! addresses, ICE candidate pairs, the statistics collector, test doubles for
//! interceptors, and small utilities, each with its contract and the laws
//! that tie encoding and decoding together.
pub mod buf;
pub mod dtls;
pub mod interceptor;
pub mod mdns;
pub mod sctp;
pub mod srtp;
pub mod text;
pub mod turn;
pub mod util;
pub mod webrtc;
