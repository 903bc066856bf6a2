//! Core of a gateway that grants installations to decentralized identifiers
//! recorded in an on-chain registry.

pub mod address;
pub mod args;
pub mod did;
pub mod document;
pub mod error;
pub mod gateway;
pub mod guarantees;
pub mod hexbytes;
pub mod pipeline;
pub mod registry;
pub mod signature;
