//! The record of a role.

use vstd::prelude::*;

use crate::raw::{holds_access, level_codes_ok, RawRoleInfo, RawRoleInfoView};
use crate::types::AccessLevel;
use crate::Error;

verus! {

/// The record of a role. No graph stands twice in its list of access
/// levels.
#[derive(Debug, Clone)]
pub struct RoleInfo {
    /// The description of the role.
    pub desc: String,
    /// The access level that the role has on each graph that it names.
    pub graph_access: Vec<(String, AccessLevel)>,
    /// Whether the role is disabled.
    pub disabled: bool,
}

impl RoleInfo {
    /// Whether this record says what the engine's record `raw` says.
    pub open spec fn matches_raw(&self, raw: RawRoleInfoView) -> bool {
        &&& self.desc@ == raw.desc
        &&& self.disabled == raw.disabled
        &&& holds_access(self.graph_access@, raw.graph_names, raw.access_levels)
    }

    /// The access level that the role has on `graph`, if the record names
    /// that graph.
    pub fn access_on(&self, graph: &str) -> (level: Option<AccessLevel>)
        ensures
            match level {
                Some(l) => exists|i: int|
                    0 <= i < self.graph_access@.len() && (#[trigger] self.graph_access@[i]).0@
                        == graph@ && self.graph_access@[i].1 == l,
                None => forall|i: int|
                    0 <= i < self.graph_access@.len() ==> (#[trigger] self.graph_access@[i]).0@
                        != graph@,
            },
    {
        let mut i: usize = 0;
        while i < self.graph_access.len()
            invariant
                i <= self.graph_access.len(),
                forall|j: int| 0 <= j < i ==> (#[trigger] self.graph_access@[j]).0@ != graph@,
            decreases self.graph_access.len() - i,
        {
            if crate::text::same_text(self.graph_access[i].0.as_str(), graph) {
                return Some(self.graph_access[i].1);
            }
            i = i + 1;
        }
        None
    }

    /// The record that the engine's record `raw` stands for.
    pub fn from_raw(raw: &RawRoleInfo) -> (info: RoleInfo)
        requires
            level_codes_ok(raw.access_levels@),
        ensures
            info.matches_raw(raw@),
    {
        RoleInfo { desc: raw.desc(), graph_access: raw.graph_access(), disabled: raw.disabled() }
    }

    /// The record that `raw` stands for, or an invalid parameter where one of
    /// its access levels is none of the engine's.
    pub fn try_from_raw(raw: &RawRoleInfo) -> (r: core::result::Result<RoleInfo, Error>)
        ensures
            level_codes_ok(raw.access_levels@) ==> r is Ok && r->Ok_0.matches_raw(raw@),
            !level_codes_ok(raw.access_levels@) ==> r is Err && r->Err_0@ == "Invalid parameter."@,
    {
        if raw.has_level_codes_ok() {
            Ok(RoleInfo::from_raw(raw))
        } else {
            Err(Error::new("Invalid parameter.".to_owned()))
        }
    }
}

} // verus!
