use vstd::prelude::*;

use crate::keyed::{last_occurrences, selects, shorter};
use crate::raw::types::ACCESS_LEVEL_FULL;
use crate::types::AccessLevel;

verus! {

/// The engine's record of an account.
#[derive(Debug, PartialEq, Eq)]
pub struct RawUserInfo {
    pub desc: String,
    pub roles: Vec<String>,
    pub disabled: bool,
    pub memory_limit: usize,
}

/// What a [`RawUserInfo`] holds.
pub struct RawUserInfoView {
    pub desc: Seq<char>,
    pub roles: Seq<Seq<char>>,
    pub disabled: bool,
    pub memory_limit: usize,
}

impl View for RawUserInfo {
    type V = RawUserInfoView;

    open spec fn view(&self) -> RawUserInfoView {
        RawUserInfoView {
            desc: self.desc@,
            roles: self.roles.deep_view(),
            disabled: self.disabled,
            memory_limit: self.memory_limit,
        }
    }
}

impl RawUserInfo {
    /// The description of the account.
    pub fn desc(&self) -> (desc: String)
        ensures
            desc@ == self.desc@,
    {
        self.desc.clone()
    }

    /// The roles of the account, each once.
    pub fn roles(&self) -> (roles: Vec<String>)
        ensures
            holds_roles(roles.deep_view(), self@.roles),
    {
        let rows = last_occurrences(&self.roles, self.roles.len());
        let mut roles: Vec<String> = Vec::new();
        let mut k: usize = 0;
        while k < rows.len()
            invariant
                k <= rows.len(),
                roles@.len() == k,
                forall|m: int| 0 <= m < rows@.len() ==> #[trigger] rows@[m] < self.roles.len(),
                forall|m: int| 0 <= m < k ==> roles@[m]@ == self.roles@[rows@[m] as int]@,
            decreases rows.len() - k,
        {
            roles.push(self.roles[rows[k]].clone());
            k = k + 1;
        }
        proof {
            let names = self@.roles;
            assert(selects(rows@, names, names.len() as int));
            assert(roles.deep_view().len() == rows@.len());
            assert forall|m: int| 0 <= m < rows@.len() implies #[trigger] roles.deep_view()[m]
                == names[rows@[m] as int] by {}
        }
        roles
    }

    /// Whether the account is disabled.
    pub fn disabled(&self) -> (disabled: bool)
        ensures
            disabled == self.disabled,
    {
        self.disabled
    }

    /// The memory quota of the account.
    pub fn memory_limit(&self) -> (limit: usize)
        ensures
            limit == self.memory_limit,
    {
        self.memory_limit
    }
}

/// The engine's record of a role: the graphs that it names and the code of
/// the access level on each stand in two parallel columns.
#[derive(Debug, PartialEq, Eq)]
pub struct RawRoleInfo {
    pub desc: String,
    pub graph_names: Vec<String>,
    pub access_levels: Vec<u32>,
    pub disabled: bool,
}

/// What a [`RawRoleInfo`] holds.
pub struct RawRoleInfoView {
    pub desc: Seq<char>,
    pub graph_names: Seq<Seq<char>>,
    pub access_levels: Seq<u32>,
    pub disabled: bool,
}

impl View for RawRoleInfo {
    type V = RawRoleInfoView;

    open spec fn view(&self) -> RawRoleInfoView {
        RawRoleInfoView {
            desc: self.desc@,
            graph_names: self.graph_names.deep_view(),
            access_levels: self.access_levels@,
            disabled: self.disabled,
        }
    }
}

/// Whether `roles` holds the roles of the column `names`, each once: the
/// rows that count, in order.
pub open spec fn holds_roles(roles: Seq<Seq<char>>, names: Seq<Seq<char>>) -> bool {
    exists|rows: Seq<usize>|
        {
            &&& #[trigger] selects(rows, names, names.len() as int)
            &&& roles.len() == rows.len()
            &&& forall|k: int| 0 <= k < rows.len() ==> #[trigger] roles[k] == names[rows[k] as int]
        }
}

/// Whether `access` holds what the columns `names` and `codes` say: the rows
/// that count, in order, each with the level that its code stands for.
pub open spec fn holds_access(
    access: Seq<(String, AccessLevel)>,
    names: Seq<Seq<char>>,
    codes: Seq<u32>,
) -> bool {
    exists|rows: Seq<usize>|
        {
            &&& #[trigger] selects(rows, names, shorter(names.len() as int, codes.len() as int))
            &&& access.len() == rows.len()
            &&& forall|k: int|
                0 <= k < rows.len() ==> {
                    &&& (#[trigger] access[k]).0@ == names[rows[k] as int]
                    &&& access[k].1.code_spec() == codes[rows[k] as int]
                }
        }
}

/// Whether every code of `codes` is the code of an access level.
pub open spec fn level_codes_ok(codes: Seq<u32>) -> bool {
    forall|i: int| 0 <= i < codes.len() ==> #[trigger] codes[i] <= ACCESS_LEVEL_FULL
}

impl RawRoleInfo {
    /// The description of the role.
    pub fn desc(&self) -> (desc: String)
        ensures
            desc@ == self.desc@,
    {
        self.desc.clone()
    }

    /// Whether every access level of the record is one of the engine's.
    pub fn has_level_codes_ok(&self) -> (ok: bool)
        ensures
            ok == level_codes_ok(self.access_levels@),
    {
        let mut i: usize = 0;
        while i < self.access_levels.len()
            invariant
                i <= self.access_levels.len(),
                forall|j: int| 0 <= j < i ==> #[
                    trigger
                ] self.access_levels@[j] <= ACCESS_LEVEL_FULL,
            decreases self.access_levels.len() - i,
        {
            if self.access_levels[i] > ACCESS_LEVEL_FULL {
                return false;
            }
            i = i + 1;
        }
        true
    }

    /// The access level on each graph that the record names: one row for
    /// each graph, the later of two entries for one graph standing for it.
    pub fn graph_access(&self) -> (access: Vec<(String, AccessLevel)>)
        requires
            level_codes_ok(self.access_levels@),
        ensures
            holds_access(access@, self@.graph_names, self@.access_levels),
    {
        let n = if self.graph_names.len() <= self.access_levels.len() {
            self.graph_names.len()
        } else {
            self.access_levels.len()
        };
        let rows = last_occurrences(&self.graph_names, n);
        let mut access: Vec<(String, AccessLevel)> = Vec::new();
        let mut k: usize = 0;
        while k < rows.len()
            invariant
                k <= rows.len(),
                access@.len() == k,
                n <= self.graph_names.len(),
                n <= self.access_levels.len(),
                level_codes_ok(self.access_levels@),
                forall|m: int| 0 <= m < rows@.len() ==> #[trigger] rows@[m] < n,
                forall|m: int|
                    0 <= m < k ==> {
                        &&& (#[trigger] access@[m]).0@ == self.graph_names@[rows@[m] as int]@
                        &&& access@[m].1.code_spec() == self.access_levels@[rows@[m] as int]
                    },
            decreases rows.len() - k,
        {
            let at = rows[k];
            let code = self.access_levels[at];
            assert(self.access_levels@[at as int] <= ACCESS_LEVEL_FULL);
            access.push((self.graph_names[at].clone(), AccessLevel::of(code)));
            k = k + 1;
        }
        proof {
            let names = self@.graph_names;
            assert(n == shorter(names.len() as int, self@.access_levels.len() as int));
            assert(selects(rows@, names, n as int));
            assert forall|m: int| 0 <= m < rows@.len() implies {
                &&& (#[trigger] access@[m]).0@ == names[rows@[m] as int]
                &&& access@[m].1.code_spec() == self@.access_levels[rows@[m] as int]
            } by {}
        }
        access
    }

    /// Whether the role is disabled.
    pub fn disabled(&self) -> (disabled: bool)
        ensures
            disabled == self.disabled,
    {
        self.disabled
    }
}

} // verus!
