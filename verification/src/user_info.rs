//! The record of an account.

use vstd::prelude::*;

use crate::raw::{holds_roles, RawUserInfoView};
use crate::raw::RawUserInfo;

verus! {

/// The record of an account. No role stands twice among its roles.
#[derive(Clone, Debug, PartialEq, Eq)]
pub struct UserInfo {
    /// The description of the account.
    pub desc: String,
    /// The roles that the account has.
    pub roles: Vec<String>,
    /// Whether the account is disabled.
    pub disabled: bool,
    /// The memory quota of the account.
    pub memory_limit: usize,
}

impl UserInfo {
    /// Whether this record says what the engine's record `raw` says.
    pub open spec fn matches_raw(&self, raw: RawUserInfoView) -> bool {
        &&& self.desc@ == raw.desc
        &&& self.disabled == raw.disabled
        &&& self.memory_limit == raw.memory_limit
        &&& holds_roles(self.roles.deep_view(), raw.roles)
    }

    /// Whether the account has the role `role`.
    pub fn has_role(&self, role: &str) -> (has: bool)
        ensures
            has == self.roles.deep_view().contains(role@),
    {
        let mut i: usize = 0;
        while i < self.roles.len()
            invariant
                i <= self.roles.len(),
                forall|j: int| 0 <= j < i ==> self.roles.deep_view()[j] != role@,
            decreases self.roles.len() - i,
        {
            if crate::text::same_text(self.roles[i].as_str(), role) {
                assert(self.roles.deep_view()[i as int] == role@);
                return true;
            }
            i = i + 1;
        }
        false
    }

    /// The record that the engine's record `raw` stands for.
    pub fn from_raw(raw: &RawUserInfo) -> (info: UserInfo)
        ensures
            info.matches_raw(raw@),
    {
        UserInfo {
            desc: raw.desc(),
            roles: raw.roles(),
            disabled: raw.disabled(),
            memory_limit: raw.memory_limit(),
        }
    }
}

} // verus!
