//! A minimal long-lived IPC service core: a typed wire codec, a stateless
//! method handler, an in-memory model of a session bus with registration and
//! name-claim rules, and the startup decision logic that drives a real bus
//! connection from the outside.

pub mod bus;
pub mod codec;
pub mod handler;
pub mod service;
