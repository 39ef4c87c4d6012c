//! Lease acquisition and lease cache engine of a DHCP proxy for containers.
//!
//! The library holds the decisions; the program around it performs the
//! socket, netlink and file work and hands the results back.
pub mod cache;
pub mod commands;
pub mod dhcp_service;
pub mod lease;
pub mod mac;
pub mod netconf;
pub mod proxy;
pub mod status;
mod text;
pub mod types;
