//! Record-level rules of the persistence layer: which instance statuses are
//! active, the registry status of a persistent volume, the tier and admin
//! status derived from a user's groups, and the generation of instance
//! access passwords.

use rand::Rng;
use vstd::prelude::*;

use crate::effective_context::{group_kind_tier, kind_tier, TIER_USER};
use crate::routes::{bcrypt_prefix, bcrypt_verdict, hash_password};
use crate::text::{is_ascii_alnum, str_eq};

verus! {

/// Instance statuses that count toward quota accounting (the active set);
/// anything else (`stopped`, `error`) is inactive.
pub const ACTIVE_STATUSES: [&'static str; 3] = ["running", "starting", "paused"];

/// Registry status of a persistent volume that an active instance
/// references.
pub const VOLUME_STATUS_ACTIVE: &'static str = "active";

/// Registry status of a persistent volume that nothing references.
pub const VOLUME_STATUS_ORPHANED: &'static str = "orphaned";

/// A status of the active set.
pub open spec fn is_active_status_spec(s: Seq<char>) -> bool {
    s == "running"@ || s == "starting"@ || s == "paused"@
}

/// Whether an instance status belongs to the active set.
pub fn is_active_status(status: &str) -> (r: bool)
    ensures
        r == is_active_status_spec(status@),
{
    str_eq(status, "running") || str_eq(status, "starting") || str_eq(status, "paused")
}

/// The registry status a persistent volume should have given how many
/// active instances reference its host path.
pub fn volume_status_for(referencing: u64) -> (r: &'static str)
    ensures
        referencing == 0 ==> r@ == VOLUME_STATUS_ORPHANED@,
        referencing > 0 ==> r@ == VOLUME_STATUS_ACTIVE@,
{
    if referencing == 0 {
        VOLUME_STATUS_ORPHANED
    } else {
        VOLUME_STATUS_ACTIVE
    }
}

/// The highest kind tier among `kinds`, `TIER_USER` when there is none.
pub open spec fn max_kind_tier(kinds: Seq<Option<String>>) -> i32
    decreases kinds.len(),
{
    if kinds.len() == 0 {
        TIER_USER
    } else {
        let rest = max_kind_tier(kinds.drop_last());
        let t = kind_tier(
            match kinds.last() {
                Some(k) => Some(k@),
                None => None,
            },
        );
        if t > rest {
            t
        } else {
            rest
        }
    }
}

/// The kind of the Admin group.
pub open spec fn is_admin_kind(kind: Option<String>) -> bool {
    match kind {
        Some(k) => k@ == "admin"@,
        None => false,
    }
}

/// Some group is the Admin group.
pub open spec fn has_admin_kind(kinds: Seq<Option<String>>) -> bool {
    exists|i: int| 0 <= i < kinds.len() && #[trigger] is_admin_kind(kinds[i])
}

/// The derived tier (highest kind tier across the member groups, `user`
/// when there is none) and admin status (membership of the Admin group) of
/// a user from the kinds of their groups.
pub fn derive_tier(kinds: &[Option<String>]) -> (r: (i32, bool))
    ensures
        r.0 == max_kind_tier(kinds@),
        r.1 == has_admin_kind(kinds@),
{
    let mut tier: i32 = TIER_USER;
    let mut admin = false;
    let mut i: usize = 0;
    while i < kinds.len()
        invariant
            i <= kinds@.len(),
            tier == max_kind_tier(kinds@.subrange(0, i as int)),
            admin == has_admin_kind(kinds@.subrange(0, i as int)),
        decreases kinds@.len() - i,
    {
        let ghost pre = kinds@.subrange(0, i + 1);
        assert(pre.drop_last() =~= kinds@.subrange(0, i as int));
        let t = match &kinds[i] {
            Some(k) => group_kind_tier(Some(k.as_str())),
            None => group_kind_tier(None),
        };
        if t > tier {
            tier = t;
        }
        let this_admin = match &kinds[i] {
            Some(k) => str_eq(k.as_str(), "admin"),
            None => false,
        };
        proof {
            if this_admin {
                assert(is_admin_kind(pre[i as int]));
            }
            if has_admin_kind(pre) {
                let j = choose|j: int| 0 <= j < pre.len() && #[trigger] is_admin_kind(pre[j]);
                if j < i {
                    assert(kinds@.subrange(0, i as int)[j] == pre[j]);
                }
            }
            if has_admin_kind(kinds@.subrange(0, i as int)) {
                let j = choose|j: int| 0 <= j < i && #[trigger] is_admin_kind(kinds@.subrange(0, i as int)[j]);
                assert(pre[j] == kinds@.subrange(0, i as int)[j]);
            }
        }
        admin = admin || this_admin;
        i = i + 1;
        assert(kinds@.subrange(0, i as int) == pre);
    }
    assert(kinds@.subrange(0, kinds@.len() as int) =~= kinds@);
    (tier, admin)
}

/// Length of a generated access password.
pub const ACCESS_PASSWORD_LEN: usize = 127;

/// The 62 characters an access password is drawn from: `a-z`, `A-Z`, `0-9`.
pub open spec fn password_char(i: nat) -> char {
    if i < 26 {
        ((i + 97) as u32) as char
    } else if i < 52 {
        ((i - 26 + 65) as u32) as char
    } else {
        ((i - 52 + 48) as u32) as char
    }
}

/// Trusted: `rand::thread_rng().gen_range(0..n)` returns an index below `n`
/// drawn by the thread-local generator; which one is left open.
#[verifier::external_body]
fn random_below(n: usize) -> (r: usize)
    requires
        n > 0,
    ensures
        r < n,
{
    rand::thread_rng().gen_range(0..n)
}

/// A fresh access password: 127 characters, each drawn uniformly from the
/// ASCII letters and digits.
pub fn generate_access_password() -> (r: String)
    ensures
        r@.len() == ACCESS_PASSWORD_LEN,
        forall|i: int| 0 <= i < r@.len() ==> is_ascii_alnum(#[trigger] r@[i]),
{
    let mut r = String::new();
    let mut k: usize = 0;
    while k < ACCESS_PASSWORD_LEN
        invariant
            k <= ACCESS_PASSWORD_LEN,
            r@.len() == k,
            forall|i: int| 0 <= i < r@.len() ==> is_ascii_alnum(#[trigger] r@[i]),
        decreases ACCESS_PASSWORD_LEN - k,
    {
        let idx = random_below(62);
        let code: u8 = if idx < 26 {
            idx as u8 + 97
        } else if idx < 52 {
            idx as u8 - 26 + 65
        } else {
            idx as u8 - 52 + 48
        };
        let c = code as char;
        assert(c == password_char(idx as nat));
        crate::text::push_char(&mut r, c);
        k = k + 1;
    }
    r
}

/// The bcrypt cost of the seeded admin account's password hash.
pub const ADMIN_SEED_HASH_COST: u32 = 10;

/// What seeding the initial admin does. Root is membership of the group of
/// kind `admin`.
#[derive(Debug, Clone, Copy, PartialEq, Eq, Structural)]
pub enum AdminSeed {
    /// Nothing: there is no admin group, or it already has a member.
    Nothing,
    /// Add the existing `admin` account to the admin group.
    AddMember { user_id: u128, group_id: u128 },
    /// Create the `admin` account with the configured password, then add it
    /// to the admin group.
    CreateAndAdd { group_id: u128 },
}

/// The seeding decision, given the admin group's id (`None` when no group
/// of kind `admin` exists), how many members it has, and the id of the
/// account named `admin` if there is one.
pub fn seed_admin_plan(admin_group: Option<u128>, admin_members: u64, existing_admin: Option<u128>) -> (r:
    AdminSeed)
    ensures
        admin_group is None ==> r == AdminSeed::Nothing,
        admin_members > 0 ==> r == AdminSeed::Nothing,
        admin_group matches Some(g) ==> (admin_members == 0 ==> (existing_admin matches Some(u) ==> r
            == (AdminSeed::AddMember { user_id: u, group_id: g }))),
        admin_group matches Some(g) ==> (admin_members == 0 ==> (existing_admin is None ==> r
            == (AdminSeed::CreateAndAdd { group_id: g }))),
{
    let g = match admin_group {
        Some(g) => g,
        None => return AdminSeed::Nothing,
    };
    if admin_members > 0 {
        return AdminSeed::Nothing;
    }
    match existing_admin {
        Some(u) => AdminSeed::AddMember { user_id: u, group_id: g },
        None => AdminSeed::CreateAndAdd { group_id: g },
    }
}

/// The password hash of a seeded admin account: bcrypt at cost 10 with a
/// random salt, against which `admin_password` verifies. `None` when the
/// hash cannot be made (the system's randomness failed); seeding cannot go
/// on then.
pub fn admin_password_hash(admin_password: &str) -> (r: Option<String>)
    ensures
        r matches Some(h) ==> bcrypt_verdict(admin_password@, h@) == Some(true) && h@.len() == 60
            && h@.subrange(0, 7) == bcrypt_prefix(ADMIN_SEED_HASH_COST as nat),
{
    hash_password(admin_password, ADMIN_SEED_HASH_COST)
}

} // verus!
