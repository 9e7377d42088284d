//! Typed configuration records: destinations, tunnels, the SAM endpoint,
//! and the server and proxy address blocks.
//!
//! Loading and saving the YAML file is I/O and lives outside this crate;
//! here are the records themselves and the verified name lookups.

use vstd::prelude::*;
use crate::errors::RelayError;
use crate::tunnels::Tunnel;

verus! {

/// A destination keypair registered on the overlay.  Keys are opaque
/// base64 strings; `name` exists only in the configuration file and is
/// never transmitted.
#[derive(Debug)]
pub struct Destination {
    pub public_key: String,
    pub secret_key: String,
    pub name: String,
}

impl Destination {
    /// Field-by-field equality of a destination's view.
    pub open spec fn eq_view(self, other: Destination) -> bool {
        self.public_key@ == other.public_key@ && self.secret_key@ == other.secret_key@
            && self.name@ == other.name@
    }
}

impl Clone for Destination {
    fn clone(&self) -> (r: Destination)
        ensures
            r.eq_view(*self),
    {
        Destination {
            public_key: self.public_key.clone(),
            secret_key: self.secret_key.clone(),
            name: self.name.clone(),
        }
    }
}

/// Addresses of a plain TCP proxy: where it listens and where it forwards.
#[derive(Debug)]
pub struct Proxy {
    pub listen_address: String,
    pub forward_address: String,
}

/// The server record: its addresses, active keys, and the tunnels it may
/// register on the overlay.
#[derive(Debug)]
pub struct Server {
    pub listen_address: String,
    pub forward_address: String,
    pub private_key: String,
    pub public_key: String,
    pub tunnels: Vec<Tunnel>,
}

/// Where the SAM bridge listens.
#[derive(Debug)]
pub struct SAM {
    pub endpoint: String,
}

/// The root configuration record.
#[derive(Debug)]
pub struct Configuration {
    pub destinations: Vec<Destination>,
    pub proxy: Proxy,
    pub sam: SAM,
    pub server: Server,
}

/// The default SAM bridge endpoint.
pub open spec fn default_sam_endpoint() -> Seq<char> {
    "127.0.0.1:7656"@
}

impl Configuration {
    /// An empty configuration: no destinations, no tunnels, empty
    /// addresses, and the default SAM endpoint.
    pub fn new() -> (r: Self)
        ensures
            r.destinations@.len() == 0,
            r.proxy.listen_address@.len() == 0,
            r.proxy.forward_address@.len() == 0,
            r.sam.endpoint@ == default_sam_endpoint(),
            r.server.listen_address@.len() == 0,
            r.server.forward_address@.len() == 0,
            r.server.private_key@.len() == 0,
            r.server.public_key@.len() == 0,
            r.server.tunnels@.len() == 0,
    {
        Configuration {
            destinations: Vec::new(),
            proxy: Proxy { listen_address: String::new(), forward_address: String::new() },
            sam: SAM::default(),
            server: Server {
                listen_address: String::new(),
                forward_address: String::new(),
                private_key: String::new(),
                public_key: String::new(),
                tunnels: Vec::new(),
            },
        }
    }

    /// Whether some destination in `ds` carries the name `n`.
    pub open spec fn has_destination(ds: Seq<Destination>, n: Seq<char>) -> bool {
        exists|i: int| 0 <= i < ds.len() && ds[i].name@ == n
    }

    /// Look a destination up by its local name; the first record with that
    /// name wins.  Fails with a configuration error when no record has it.
    pub fn destination_by_name(&self, name: &str) -> (r: Result<Destination, RelayError>)
        ensures
            r is Ok <==> Self::has_destination(self.destinations@, name@),
            r matches Ok(d) ==> exists|i: int|
                0 <= i < self.destinations@.len() && self.destinations@[i].name@ == name@
                    && d.eq_view(self.destinations@[i]) && forall|j: int|
                    0 <= j < i ==> self.destinations@[j].name@ != name@,
            r matches Err(e) ==> e == RelayError::Config,
    {
        let wanted: String = name.to_owned();
        let n = self.destinations.len();
        for k in 0..n
            invariant
                n == self.destinations@.len(),
                wanted@ == name@,
                forall|j: int| 0 <= j < k ==> self.destinations@[j].name@ != name@,
        {
            if self.destinations[k].name == wanted {
                return Ok(self.destinations[k].clone());
            }
        }
        Err(RelayError::Config)
    }

    /// Append a freshly generated destination record.  Fails with a
    /// configuration error, leaving the configuration unchanged, when a
    /// record already carries the name.
    pub fn add_destination(&mut self, destination: Destination) -> (r: Result<(), RelayError>)
        ensures
            r is Ok <==> !Self::has_destination(old(self).destinations@, destination.name@),
            r is Ok ==> final(self).destinations@ == old(self).destinations@.push(destination),
            r is Ok ==> final(self).proxy == old(self).proxy && final(self).sam == old(self).sam
                && final(self).server == old(self).server,
            r is Err ==> *final(self) == *old(self) && r == Err::<(), RelayError>(
                RelayError::Config,
            ),
    {
        match self.destination_by_name(destination.name.as_str()) {
            Ok(_) => Err(RelayError::Config),
            Err(_) => {
                self.destinations.push(destination);
                Ok(())
            },
        }
    }
}

impl Default for Configuration {
    fn default() -> (r: Self)
        ensures
            r.destinations@.len() == 0,
            r.sam.endpoint@ == default_sam_endpoint(),
    {
        Configuration::new()
    }
}

impl Server {
    /// Whether some tunnel in `ts` carries the name `n`.
    pub open spec fn has_tunnel(ts: Seq<Tunnel>, n: Seq<char>) -> bool {
        exists|i: int| 0 <= i < ts.len() && ts[i].name@ == n
    }

    /// Look a tunnel up by name; the first record with that name wins.
    /// Fails with a configuration error when no record has it.
    pub fn tunnel_by_name(&self, name: &str) -> (r: Result<Tunnel, RelayError>)
        ensures
            r is Ok <==> Self::has_tunnel(self.tunnels@, name@),
            r matches Ok(t) ==> exists|i: int|
                0 <= i < self.tunnels@.len() && self.tunnels@[i].name@ == name@ && t.eq_view(
                    self.tunnels@[i],
                ) && forall|j: int| 0 <= j < i ==> self.tunnels@[j].name@ != name@,
            r matches Err(e) ==> e == RelayError::Config,
    {
        let wanted: String = name.to_owned();
        let n = self.tunnels.len();
        for k in 0..n
            invariant
                n == self.tunnels@.len(),
                wanted@ == name@,
                forall|j: int| 0 <= j < k ==> self.tunnels@[j].name@ != name@,
        {
            if self.tunnels[k].name == wanted {
                return Ok(self.tunnels[k].clone());
            }
        }
        Err(RelayError::Config)
    }
}

impl Default for SAM {
    /// The SAM bridge's customary local endpoint.
    fn default() -> (r: Self)
        ensures
            r.endpoint@ == default_sam_endpoint(),
    {
        SAM { endpoint: "127.0.0.1:7656".to_owned() }
    }
}

} // verus!
