//! The basic echo server: it registers a destination on the overlay and
//! logs every accepted connection.  The session, listener and logging
//! are I/O and live with the process that runs the loop; here is the
//! server value itself.

use vstd::prelude::*;
use std::sync::Arc;
use crate::config::Configuration;
use crate::errors::RelayError;

verus! {

/// The echo server: a configuration behind a shared handle.
pub struct Server {
    cfg: Configuration,
}

impl Server {
    /// The configuration the server was built over.
    pub closed spec fn config(&self) -> Configuration {
        self.cfg
    }

    /// Wrap a configuration as a shared echo server.
    pub fn new(cfg: Configuration) -> (r: Result<Arc<Server>, RelayError>)
        ensures
            r is Ok,
            r matches Ok(s) ==> s.config() == cfg,
    {
        Ok(Arc::new(Server { cfg }))
    }

    /// Read access to the configuration.
    pub fn configuration(&self) -> (r: &Configuration)
        ensures
            *r == self.config(),
    {
        &self.cfg
    }
}

} // verus!
