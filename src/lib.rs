//! Client endpoint core: dial-target validation, the transport upgrade plan,
//! identity checks on the identify exchange, and the connection event state
//! machine that a host event loop drives.
pub mod address;
pub mod peer;
pub mod pipeline;
pub mod manager;
