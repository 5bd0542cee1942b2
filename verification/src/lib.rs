//! The decisions of a TCP port forwarder.
//!
//! Sockets, polling and threads belong to the program around this crate. It
//! performs one operation at a time, hands its outcome to a function here, and
//! is told what to do next.

pub mod addr;
pub mod cluster;
pub mod cluster_laws;
pub mod cmd_line;
pub mod cmd_line_laws;
pub mod error;
pub mod fidelity;
pub mod relay;
pub mod relay_laws;
pub mod socket_tun;
pub mod token;
pub mod tunnel;
pub mod tunnel_laws;
