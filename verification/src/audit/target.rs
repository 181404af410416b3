//! The stable audit target types.

use vstd::prelude::*;

verus! {

pub const INSTANCE: &'static str = "instance";
pub const TEMPLATE: &'static str = "template";
pub const GROUP: &'static str = "group";
pub const USER: &'static str = "user";
pub const REGISTRY: &'static str = "registry";
pub const SETTINGS: &'static str = "settings";
pub const NONE: &'static str = "none";

} // verus!
