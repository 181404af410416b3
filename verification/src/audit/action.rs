//! The stable audit action vocabulary.

use vstd::prelude::*;

verus! {

pub const LOGIN: &'static str = "auth.login";
pub const LOGOUT: &'static str = "auth.logout";
pub const LOGIN_FAILURE: &'static str = "auth.login_failure";
pub const FORBIDDEN: &'static str = "auth.forbidden";
pub const INSTANCE_CREATE: &'static str = "instance.create";
pub const INSTANCE_START: &'static str = "instance.start";
pub const INSTANCE_STOP: &'static str = "instance.stop";
pub const INSTANCE_DELETE: &'static str = "instance.delete";
pub const INSTANCE_RESTART: &'static str = "instance.restart";
pub const INSTANCE_PAUSE: &'static str = "instance.pause";
pub const INSTANCE_UNPAUSE: &'static str = "instance.unpause";
pub const INSTANCE_AUTO_SLEEP: &'static str = "instance.auto_sleep";
pub const TEMPLATE_CREATE: &'static str = "template.create";
pub const TEMPLATE_UPDATE: &'static str = "template.update";
pub const TEMPLATE_DELETE: &'static str = "template.delete";
pub const GROUP_CREATE: &'static str = "group.create";
pub const GROUP_UPDATE: &'static str = "group.update";
pub const GROUP_DELETE: &'static str = "group.delete";
pub const GROUP_MEMBERSHIP_CHANGE: &'static str = "group.membership_change";
pub const USER_CREATE: &'static str = "user.create";
pub const USER_UPDATE: &'static str = "user.update";
pub const USER_DELETE: &'static str = "user.delete";
pub const USER_PASSWORD_CHANGE: &'static str = "user.password_change";
pub const SETTINGS_UPDATE: &'static str = "settings.update";
pub const REGISTRY_UPDATE: &'static str = "registry.update";

} // verus!
