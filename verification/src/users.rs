//! User and group membership checks over looked-up identity data.
use vstd::prelude::*;

use crate::os::unistd::{admin_group, user_in_admin_group};

pub use crate::os::unistd::user_in_group;

verus! {

/// Whether the user's primary group (when it resolved) is `gid`.
pub fn user_primary_group_is(primary_gid: Option<u32>, gid: u32) -> (b: bool)
    ensures
        b == (primary_gid == Some(gid)),
{
    match primary_gid {
        Some(p) => p == gid,
        None => false,
    }
}

/// Whether the user's groups include a common sudo group (`sudo`, `wheel`, `admin`).
pub fn user_in_sudo_group(groups: &[String]) -> (b: bool)
    ensures
        b == exists|k: int| 0 <= k < groups@.len() && admin_group(#[trigger] groups@[k]@),
{
    user_in_admin_group(groups)
}

} // verus!
