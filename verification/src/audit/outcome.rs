//! The stable audit outcomes: `failure` marks a denied or unsuccessful
//! action, everything else is `success`.

use vstd::prelude::*;

verus! {

pub const SUCCESS: &'static str = "success";
pub const FAILURE: &'static str = "failure";

} // verus!
