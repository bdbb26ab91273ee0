use vstd::prelude::*;

use crate::field::FieldType;
use crate::raw::types::FIELD_TYPE_BLOB;
use crate::text::c_safe;

verus! {

/// The engine's description of a field: its name, the code of its type and
/// whether it may be absent.
#[derive(Debug, PartialEq, Eq)]
pub struct RawFieldSpec {
    pub name: String,
    pub ty: u32,
    pub optional: bool,
}

/// What a [`RawFieldSpec`] holds.
pub struct RawFieldSpecView {
    pub name: Seq<char>,
    pub ty: u32,
    pub optional: bool,
}

impl View for RawFieldSpec {
    type V = RawFieldSpecView;

    open spec fn view(&self) -> RawFieldSpecView {
        RawFieldSpecView { name: self.name@, ty: self.ty, optional: self.optional }
    }
}

/// What a list of engine field descriptions holds.
pub open spec fn specs_view(specs: Seq<RawFieldSpec>) -> Seq<RawFieldSpecView> {
    Seq::new(specs.len(), |i: int| specs[i]@)
}

impl RawFieldSpec {
    /// The description with these three parts; the name must be one that the
    /// engine can take.
    pub fn from_name_ty_optional(name: &str, ty: u32, optional: bool) -> (raw: RawFieldSpec)
        requires
            c_safe(name@),
        ensures
            raw@ == (RawFieldSpecView { name: name@, ty, optional }),
    {
        RawFieldSpec { name: name.to_owned(), ty, optional }
    }

    /// The name of the field.
    pub fn name(&self) -> (name: String)
        ensures
            name@ == self.name@,
    {
        self.name.clone()
    }

    /// The type of the field.
    pub fn ty(&self) -> (ty: FieldType)
        requires
            self.ty <= FIELD_TYPE_BLOB,
        ensures
            ty.code_spec() == self.ty,
    {
        FieldType::of(self.ty)
    }

    /// Whether the field may be absent.
    pub fn optional(&self) -> (optional: bool)
        ensures
            optional == self.optional,
    {
        self.optional
    }
}

/// The engine's description of an index: the label and the field that it is
/// built on, and whether it is unique.
#[derive(Debug, PartialEq, Eq)]
pub struct RawIndexSpec {
    pub label: String,
    pub field: String,
    pub unique: bool,
}

/// What a [`RawIndexSpec`] holds.
pub struct RawIndexSpecView {
    pub label: Seq<char>,
    pub field: Seq<char>,
    pub unique: bool,
}

impl View for RawIndexSpec {
    type V = RawIndexSpecView;

    open spec fn view(&self) -> RawIndexSpecView {
        RawIndexSpecView { label: self.label@, field: self.field@, unique: self.unique }
    }
}

/// What a list of engine index descriptions holds.
pub open spec fn indexes_view(specs: Seq<RawIndexSpec>) -> Seq<RawIndexSpecView> {
    Seq::new(specs.len(), |i: int| specs[i]@)
}

impl RawIndexSpec {
    /// The label that the index is built on.
    pub fn label(&self) -> (label: String)
        ensures
            label@ == self.label@,
    {
        self.label.clone()
    }

    /// The field that the index is built on.
    pub fn field(&self) -> (field: String)
        ensures
            field@ == self.field@,
    {
        self.field.clone()
    }

    /// Whether the index is unique.
    pub fn unique(&self) -> (unique: bool)
        ensures
            unique == self.unique,
    {
        self.unique
    }
}

} // verus!
