//! Carrier pigeons for SSH connections: the decisions behind the `pigeons`
//! command, each stated as a contract and proved.

pub mod bridge;
pub mod cli;
pub mod config;
pub mod document;
pub mod endpoint;
pub mod hex;
pub mod ota;
pub mod plan;
pub mod report;
pub mod route;
pub mod text;
pub mod tunnel;
