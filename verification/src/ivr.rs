//! The moderators and VIPs of a channel, as api.ivr.fi lists them.

use vstd::prelude::*;

verus! {

/// A user on api.ivr.fi.
#[derive(Debug)]
pub struct User {
    pub id: String,
}

/// The VIPs of a channel (an absent list reads as empty).
#[derive(Debug)]
pub struct ModVips {
    pub vips: Vec<User>,
}

} // verus!
