//! Validation of D-Bus names, and the Unix socket transport of D-Bus addresses.
use vstd::prelude::*;

pub mod chars;
pub mod error;
pub mod fixtures;
pub mod interface_name;
pub mod laws;
pub mod member_name;
pub mod name_laws;
pub mod rules;
pub mod text;
pub mod transport_laws;
pub mod unique_name;
pub mod unix;
pub mod well_known_name;

verus! {

} // verus!
