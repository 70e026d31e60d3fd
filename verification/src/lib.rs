//! Fixed-width byte buffers for field elements and curve points, as they are
//! exchanged with a native cryptography engine.

pub mod barretenberg_api;
