//! The description of an index.

use vstd::prelude::*;

use crate::raw::{RawIndexSpec, RawIndexSpecView};

verus! {

/// The description of an index.
#[derive(Clone, PartialEq, Eq, Hash, Debug)]
pub struct IndexSpec {
    /// The label that the index is built on.
    pub label: String,
    /// The field that the index is built on.
    pub field: String,
    /// Whether the index is unique.
    pub unique: bool,
}

impl IndexSpec {
    /// The engine's form of this description.
    pub open spec fn raw(&self) -> RawIndexSpecView {
        RawIndexSpecView { label: self.label@, field: self.field@, unique: self.unique }
    }

    /// The description that the engine's description `raw` stands for.
    pub fn from_raw_index_spec(raw: &RawIndexSpec) -> (spec: IndexSpec)
        ensures
            spec.raw() == raw@,
    {
        IndexSpec { label: raw.label(), field: raw.field(), unique: raw.unique() }
    }
}

} // verus!
