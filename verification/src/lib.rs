//! A relay that bridges a connection-oriented anonymity overlay (reached
//! through a local SAM bridge) with a conventional TCP service.
//!
//! The verified core covers the configuration records, the delay-puzzle
//! captcha with its wire codec, the per-connection admission handshake, the
//! bidirectional splice rules, and the supervisor's accept loop, each as a
//! state machine over plain values.  The surrounding I/O (SAM sessions,
//! sockets, the async runtime) lives outside this crate.

pub mod captcha;
pub mod client;
pub mod config;
pub mod digits;
pub mod echo;
pub mod errors;
pub mod handshake;
pub mod rand_util;
pub mod reverse_proxy;
pub mod splice;
pub mod supervisor;
pub mod tunnels;
