//! The PRIORITY frame of HTTP/2, the stream identifier it carries, and the
//! agent profiles that pick pseudo-header order and default priorities.

pub mod frame;
pub mod impersonate;
pub mod profile;
pub mod wire;
