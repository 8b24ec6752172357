//! A request/response proxy core for a third-party text-translation engine.
//!
//! The library holds the verified logic of the proxy: the escape codec that
//! shields characters the engine corrupts, the fixed-layout wire records of
//! the interprocess protocol, and the command dispatcher's state machine.
//! Channel I/O and the native engine itself live outside the library and talk
//! to it through plain values.

pub mod char_ranges;
pub mod codec;
pub mod encodings;
pub mod error;
pub mod ipc_protocol;
pub mod safe_chars_function;
pub mod session;
pub mod wide;

pub use error::EzTransError;
pub use error::TransErr;
