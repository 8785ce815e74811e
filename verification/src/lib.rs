//! Verified core of a daemon that tracks the status of wireless earbuds over
//! a short-range radio link: the textual address form, the binary status
//! codec, the status store with change coalescing, and the session and
//! reconnection decision logic. All I/O lives outside this crate; the
//! functions here are pure and carry contracts that pin their behaviour down.

pub mod address;
pub mod blconn;
pub mod packet;
pub mod publish;
pub mod session;
pub mod status;
pub mod supervisor;
