//! Authentication engine for SRUN captive portals: the payload cipher and
//! its codec, the request signatures, response unwrapping, the session's
//! login and logout decisions and the keep-alive loop.

pub mod xencode;
pub mod signature;
pub mod portal;
pub mod client;
pub mod daemon;
pub mod user;
pub mod config;
