//! Named redirects.

use vstd::prelude::*;

verus! {

/// A short name and the address it forwards to.
#[derive(Debug, PartialEq)]
pub struct Redirect {
    pub id: u32,
    pub name: String,
    pub target: String,
}

} // verus!
