//! The singleton configuration record.

use crate::identity::Identity;
use crate::identity::spec_zero_identity;
use vstd::prelude::*;

verus! {

/// The configuration record: the sole source of truth every later operation
/// consults.
///
/// One record exists per deployment, persisted by the storage collaborator at
/// a location derived from a fixed label. Once `is_configured` is true, `mint`
/// and `authority` never change; no operation of this core rewrites or deletes
/// an established record.
#[derive(Clone, Copy, Debug, PartialEq)]
pub struct Config {
    /// Identity of the token whose supply this configuration controls.
    pub mint: Identity,
    /// The one identity authorized to request supply changes.
    pub authority: Identity,
    /// True from the moment the record is created; distinguishes a freshly
    /// allocated, zeroed record from an established one.
    pub is_configured: bool,
}

impl Default for Config {
    /// The content of a freshly allocated, zeroed record: not yet configured.
    fn default() -> (r: Config)
        ensures
            r.mint@ == spec_zero_identity(),
            r.authority@ == spec_zero_identity(),
            !r.is_configured,
    {
        Config { mint: Identity::default(), authority: Identity::default(), is_configured: false }
    }
}

} // verus!
