//! The arguments of requests, made from the values that callers hand in.

use vstd::prelude::*;
use vstd::slice::slice_to_vec;

use crate::engine::{args_view, Arg, ArgView};
use crate::field::{FieldData, FieldSpec};
use crate::raw::{RawFieldData, RawFieldDataView, RawFieldSpec, RawFieldSpecView};
use crate::text::{c_safe, owned_texts, texts_of};

verus! {

/// Whether the engine can take every value of `values`.
pub open spec fn all_sendable(values: Seq<FieldData>) -> bool {
    forall|i: int| 0 <= i < values.len() ==> (#[trigger] values[i])@.sendable()
}

/// The engine's representations of `values`, in order.
pub open spec fn raw_fields(values: Seq<FieldData>) -> Seq<RawFieldDataView> {
    Seq::new(values.len(), |i: int| values[i]@.raw())
}

/// Whether the engine can take the name of every description of `specs`.
pub open spec fn names_safe(specs: Seq<FieldSpec>) -> bool {
    forall|i: int| 0 <= i < specs.len() ==> c_safe((#[trigger] specs[i]).name@)
}

/// The engine's forms of `specs`, in order.
pub open spec fn raw_specs(specs: Seq<FieldSpec>) -> Seq<RawFieldSpecView> {
    Seq::new(specs.len(), |i: int| specs[i].raw())
}

/// The first texts of `pairs`, in order.
pub open spec fn firsts(pairs: Seq<(&str, &str)>) -> Seq<Seq<char>> {
    Seq::new(pairs.len(), |i: int| pairs[i].0@)
}

/// The second texts of `pairs`, in order.
pub open spec fn seconds(pairs: Seq<(&str, &str)>) -> Seq<Seq<char>> {
    Seq::new(pairs.len(), |i: int| pairs[i].1@)
}

/// The argument that holds the text `s`.
pub fn text_arg(s: &str) -> (arg: Arg)
    ensures
        arg@ == ArgView::Text(s@),
{
    Arg::Text(s.to_owned())
}

/// The argument that holds the texts `names`.
pub fn texts_arg(names: &[&str]) -> (arg: Arg)
    ensures
        arg@ == ArgView::Texts(texts_of(names@)),
{
    Arg::Texts(owned_texts(names))
}

/// The argument that holds the first texts of `pairs`.
pub fn firsts_arg(pairs: &[(&str, &str)]) -> (arg: Arg)
    ensures
        arg@ == ArgView::Texts(firsts(pairs@)),
{
    let mut v: Vec<String> = Vec::new();
    let mut i: usize = 0;
    while i < pairs.len()
        invariant
            i <= pairs.len(),
            v.len() == i,
            forall|j: int| 0 <= j < i ==> v@[j]@ == pairs@[j].0@,
        decreases pairs.len() - i,
    {
        v.push(pairs[i].0.to_owned());
        i = i + 1;
    }
    assert(v.deep_view() =~= firsts(pairs@));
    Arg::Texts(v)
}

/// The argument that holds the second texts of `pairs`.
pub fn seconds_arg(pairs: &[(&str, &str)]) -> (arg: Arg)
    ensures
        arg@ == ArgView::Texts(seconds(pairs@)),
{
    let mut v: Vec<String> = Vec::new();
    let mut i: usize = 0;
    while i < pairs.len()
        invariant
            i <= pairs.len(),
            v.len() == i,
            forall|j: int| 0 <= j < i ==> v@[j]@ == pairs@[j].1@,
        decreases pairs.len() - i,
    {
        v.push(pairs[i].1.to_owned());
        i = i + 1;
    }
    assert(v.deep_view() =~= seconds(pairs@));
    Arg::Texts(v)
}

/// The argument that holds the sizes `ids`.
pub fn sizes_arg(ids: &[usize]) -> (arg: Arg)
    ensures
        arg@ == ArgView::Sizes(ids@),
{
    Arg::Sizes(slice_to_vec(ids))
}

/// The argument that holds the engine's representation of `value`.
pub fn field_arg(value: &FieldData) -> (arg: Arg)
    requires
        value@.sendable(),
    ensures
        arg@ == ArgView::Field(value@.raw()),
{
    Arg::Field(value.as_raw_field_data())
}

/// The argument that holds the engine's representations of `values`.
pub fn fields_arg(values: &[FieldData]) -> (arg: Arg)
    requires
        all_sendable(values@),
    ensures
        arg@ == ArgView::Fields(raw_fields(values@)),
{
    let mut v: Vec<RawFieldData> = Vec::new();
    let mut i: usize = 0;
    while i < values.len()
        invariant
            i <= values.len(),
            all_sendable(values@),
            v.len() == i,
            forall|j: int| 0 <= j < i ==> v@[j]@ == values@[j]@.raw(),
        decreases values.len() - i,
    {
        v.push(values[i].as_raw_field_data());
        i = i + 1;
    }
    assert(crate::raw::fields_view(v@) =~= raw_fields(values@));
    Arg::Fields(v)
}

/// The argument that holds the engine's forms of `specs`.
pub fn specs_arg(specs: &[FieldSpec]) -> (arg: Arg)
    requires
        names_safe(specs@),
    ensures
        arg@ == ArgView::Specs(raw_specs(specs@)),
{
    let mut v: Vec<RawFieldSpec> = Vec::new();
    let mut i: usize = 0;
    while i < specs.len()
        invariant
            i <= specs.len(),
            names_safe(specs@),
            v.len() == i,
            forall|j: int| 0 <= j < i ==> v@[j]@ == specs@[j].raw(),
        decreases specs.len() - i,
    {
        v.push(specs[i].as_raw_field_spec());
        i = i + 1;
    }
    assert(crate::raw::specs_view(v@) =~= raw_specs(specs@));
    Arg::Specs(v)
}

/// No arguments.
pub fn args0() -> (args: Vec<Arg>)
    ensures
        args_view(args@) == Seq::<ArgView>::empty(),
{
    let args: Vec<Arg> = Vec::new();
    assert(args_view(args@) =~= Seq::<ArgView>::empty());
    args
}

/// One argument.
pub fn args1(a: Arg) -> (args: Vec<Arg>)
    ensures
        args_view(args@) == seq![a@],
{
    let mut args: Vec<Arg> = Vec::new();
    args.push(a);
    assert(args_view(args@) =~= seq![a@]);
    args
}

/// Two arguments.
pub fn args2(a: Arg, b: Arg) -> (args: Vec<Arg>)
    ensures
        args_view(args@) == seq![a@, b@],
{
    let mut args: Vec<Arg> = Vec::new();
    args.push(a);
    args.push(b);
    assert(args_view(args@) =~= seq![a@, b@]);
    args
}

/// Three arguments.
pub fn args3(a: Arg, b: Arg, c: Arg) -> (args: Vec<Arg>)
    ensures
        args_view(args@) == seq![a@, b@, c@],
{
    let mut args: Vec<Arg> = Vec::new();
    args.push(a);
    args.push(b);
    args.push(c);
    assert(args_view(args@) =~= seq![a@, b@, c@]);
    args
}

/// Four arguments.
pub fn args4(a: Arg, b: Arg, c: Arg, d: Arg) -> (args: Vec<Arg>)
    ensures
        args_view(args@) == seq![a@, b@, c@, d@],
{
    let mut args: Vec<Arg> = Vec::new();
    args.push(a);
    args.push(b);
    args.push(c);
    args.push(d);
    assert(args_view(args@) =~= seq![a@, b@, c@, d@]);
    args
}

/// Five arguments.
pub fn args5(a: Arg, b: Arg, c: Arg, d: Arg, e: Arg) -> (args: Vec<Arg>)
    ensures
        args_view(args@) == seq![a@, b@, c@, d@, e@],
{
    let mut args: Vec<Arg> = Vec::new();
    args.push(a);
    args.push(b);
    args.push(c);
    args.push(d);
    args.push(e);
    assert(args_view(args@) =~= seq![a@, b@, c@, d@, e@]);
    args
}

} // verus!
