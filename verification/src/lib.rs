//! Verified decision logic of a client that carries UDP datagrams over fake
//! TCP connections: configuration, address choice, the connection table, the
//! listening loop, relay workers, and the packet-interception filter.

pub mod config;
pub mod settings;
pub mod address;
pub mod table;
pub mod dispatch;
pub mod worker;
pub mod divert;
