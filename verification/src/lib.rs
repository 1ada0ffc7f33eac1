//! Connection-management core for a network service: a coordinator that owns
//! bind addresses and a shared connection registry, listener and connection
//! actors modelled as verified step functions, and a bounded request/response
//! correlator. The asynchronous shell (sockets, channels, tasks) lives outside
//! the library and drives these functions with plain values.

pub mod accept_handler;
pub mod addr;
pub mod connect_handler;
pub mod correlator;
pub mod endpoint_handler;
pub mod registry;
