//! Tunnel records and the session options derived from them.
//!
//! A tunnel names the inbound/outbound length, quantity and backup
//! quantity knobs of one overlay tunnel.  `options` maps a record into the
//! plain session-option values handed to the SAM bridge when a session is
//! created; the process that speaks to the bridge turns them into SAM
//! protocol parameters.

use vstd::prelude::*;

verus! {

/// One configured tunnel.  All integer knobs are small.
#[derive(Debug)]
pub struct Tunnel {
    pub in_length: u8,
    pub in_quantity: u8,
    pub in_backup_quantity: u8,
    pub out_length: u8,
    pub out_quantity: u8,
    pub out_backup_quantity: u8,
    pub name: String,
    pub random_key: Option<String>,
}

/// The knobs of one direction of a session.
#[derive(Debug)]
pub struct DirectionOptions {
    pub length: u8,
    pub quantity: u8,
    pub backup_quantity: u8,
    pub random_key: Option<String>,
}

/// The plain session-creation options for the SAM bridge.
#[derive(Debug)]
pub struct SessionOptions {
    pub inbound: DirectionOptions,
    pub outbound: DirectionOptions,
    pub fast_receive: bool,
    pub should_bundle_reply_info: bool,
}

/// Equality of two optional strings by their views.
pub open spec fn opt_str_eq_view(a: Option<String>, b: Option<String>) -> bool {
    match (a, b) {
        (Option::None, Option::None) => true,
        (Option::Some(x), Option::Some(y)) => x@ == y@,
        _ => false,
    }
}

impl Tunnel {
    /// Field-by-field equality of a tunnel's view.
    pub open spec fn eq_view(self, other: Tunnel) -> bool {
        &&& self.in_length == other.in_length
        &&& self.in_quantity == other.in_quantity
        &&& self.in_backup_quantity == other.in_backup_quantity
        &&& self.out_length == other.out_length
        &&& self.out_quantity == other.out_quantity
        &&& self.out_backup_quantity == other.out_backup_quantity
        &&& self.name@ == other.name@
        &&& opt_str_eq_view(self.random_key, other.random_key)
    }

    /// The session options that this tunnel asks of the SAM bridge: each
    /// direction takes its own knobs, the session takes delivery eagerly
    /// and bundles no reply information.
    pub fn options(&self) -> (r: SessionOptions)
        ensures
            r.inbound.length == self.in_length,
            r.inbound.quantity == self.in_quantity,
            r.inbound.backup_quantity == self.in_backup_quantity,
            opt_str_eq_view(r.inbound.random_key, self.random_key),
            r.outbound.length == self.out_length,
            r.outbound.quantity == self.out_quantity,
            r.outbound.backup_quantity == self.out_backup_quantity,
            opt_str_eq_view(r.outbound.random_key, self.random_key),
            r.fast_receive,
            !r.should_bundle_reply_info,
    {
        SessionOptions {
            inbound: DirectionOptions {
                length: self.in_length,
                quantity: self.in_quantity,
                backup_quantity: self.in_backup_quantity,
                random_key: clone_opt_string(&self.random_key),
            },
            outbound: DirectionOptions {
                length: self.out_length,
                quantity: self.out_quantity,
                backup_quantity: self.out_backup_quantity,
                random_key: clone_opt_string(&self.random_key),
            },
            fast_receive: true,
            should_bundle_reply_info: false,
        }
    }
}

impl Clone for Tunnel {
    fn clone(&self) -> (r: Tunnel)
        ensures
            r.eq_view(*self),
    {
        Tunnel {
            in_length: self.in_length,
            in_quantity: self.in_quantity,
            in_backup_quantity: self.in_backup_quantity,
            out_length: self.out_length,
            out_quantity: self.out_quantity,
            out_backup_quantity: self.out_backup_quantity,
            name: self.name.clone(),
            random_key: clone_opt_string(&self.random_key),
        }
    }
}

/// Clone an optional string, keeping its view.
fn clone_opt_string(v: &Option<String>) -> (r: Option<String>)
    ensures
        opt_str_eq_view(r, *v),
{
    match v {
        Option::None => Option::None,
        Option::Some(s) => Option::Some(s.clone()),
    }
}

} // verus!
