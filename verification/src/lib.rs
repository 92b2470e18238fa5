//! Client-side engine for a length-delimited, encrypted, XML-framed
//! request/response/event protocol spoken by a game-distribution platform's
//! local IPC service.
//!
//! The crate covers the protocol engine proper: the legacy pseudo-random
//! generator used for key derivation, the session cipher, NUL-delimited
//! framing, the challenge/response handshake state machine, request/response
//! correlation, and the per-frame decode pipeline of the reader loop.
//! Socket I/O and XML (de)serialization live outside the library and hand it
//! plain values.

pub mod correlator;
pub mod crypto;
pub mod frame;
pub mod handshake;
pub mod hexcode;
pub mod protocol;
pub mod random;
pub mod session;
