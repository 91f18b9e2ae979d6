//! A small actor runtime: the decisions of each actor's event loop, its
//! restart policies, its mailbox and the bookkeeping around addresses,
//! children, side tasks, services and topics, stated and proved with Verus.

pub mod addr;
pub mod broker;
pub mod builder;
pub mod channel;
pub mod context;
pub mod environment;
pub mod error;
pub mod payload;
pub mod restart_strategy;
pub mod service;
pub mod trace;
