//! HTTP/2 frame codec and connection handshake for an RPC framework.
//!
//! The byte-level decisions (decoding frame headers, assembling received
//! frames, classifying frames, checking the connection preface and driving
//! both handshake roles) are verified here; reading and writing the byte
//! stream is left to the caller, which feeds the state machines events and
//! performs the actions they return.
pub mod error;
pub mod frame;
pub mod handshake;
pub mod rpc;
