//! The reverse proxy: terminate overlay streams onto a TCP backend.

pub mod ip;
