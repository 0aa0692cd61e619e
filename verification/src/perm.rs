//! The permission guard: the sole authorization mechanism of the bot.
//!
//! Every privileged command and every privileged modal submission re-checks
//! that the invoking member holds the configured administrative role. An
//! interaction that did not originate from a guild member (for example, one
//! sent through a direct message) carries no role set at all; the guard
//! treats that as a failure, never as a silent allow.

use vstd::prelude::*;

verus! {

/// What the guard decides: true iff a member context is present and its role
/// set contains the administrative role identifier.
pub open spec fn holds_admin_role(member_roles: Option<Seq<u64>>, admin_role_id: u64) -> bool {
    match member_roles {
        Some(roles) => roles.contains(admin_role_id),
        None => false,
    }
}

/// View of an optional role set as an optional sequence.
pub open spec fn roles_view(member_roles: Option<Vec<u64>>) -> Option<Seq<u64>> {
    match member_roles {
        Some(roles) => Some(roles@),
        None => None,
    }
}

/// Returns true iff the invoking member's role set contains the
/// administrative role identifier; false whenever the member context is
/// absent, whatever the configured identifier is.
pub fn has_admin_role(member_roles: &Option<Vec<u64>>, admin_role_id: u64) -> (r: bool)
    ensures
        r == holds_admin_role(roles_view(*member_roles), admin_role_id),
{
    match member_roles {
        Some(roles) => {
            let mut i: usize = 0;
            while i < roles.len()
                invariant
                    roles_view(*member_roles) == Some(roles@),
                    i <= roles.len(),
                    forall|j: int| 0 <= j < i ==> roles@[j] != admin_role_id,
                decreases roles.len() - i,
            {
                if roles[i] == admin_role_id {
                    assert(roles@.contains(admin_role_id)) by {
                        assert(roles@[i as int] == admin_role_id);
                    }
                    return true;
                }
                i = i + 1;
            }
            false
        },
        None => false,
    }
}

} // verus!
