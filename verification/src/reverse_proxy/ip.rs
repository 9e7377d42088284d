//! The reverse proxy onto an IP backend.
//!
//! The server owns one overlay session and its listener, gates every
//! accepted stream through the admission handshake, and splices verified
//! streams onto the configured TCP backend.  The accept loop's decisions
//! are the supervisor machine, the per-connection protocol is the
//! admission machine, and the copying rules are the splice machine; the
//! process that owns the sockets walks those machines.  Here is the
//! server value they all start from.

use vstd::prelude::*;
use std::sync::Arc;
use crate::config::Configuration;
use crate::errors::RelayError;

pub use crate::captcha::VDFCaptcha;

verus! {

/// The reverse-proxy server: a configuration behind a shared handle.
pub struct Server {
    cfg: Configuration,
}

impl Server {
    /// The configuration the server was built over.
    pub closed spec fn config(&self) -> Configuration {
        self.cfg
    }

    /// Wrap a configuration as a shared reverse-proxy server.
    pub fn new(cfg: Configuration) -> (r: Result<Arc<Server>, RelayError>)
        ensures
            r is Ok,
            r matches Ok(s) ==> s.config() == cfg,
    {
        Ok(Arc::new(Server { cfg }))
    }

    /// Read access to the configuration.
    pub fn configuration(&self) -> (r: &Configuration)
        ensures
            *r == self.config(),
    {
        &self.cfg
    }
}

} // verus!
