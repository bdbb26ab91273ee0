//! Answers that are converted before they are handed on.
//!
//! Where the engine answers with one of its own representations, the
//! operation that asked hands the typed value on. A representation that no
//! typed value has (a type code that is none of the engine's, a payload out
//! of its type's range) is an invalid parameter.

use vstd::prelude::*;

use crate::engine::{
    ask_field, ask_fields, ask_handle, ask_indexes, ask_named_fields, ask_specs, ask_uid, called,
    field_outcome, fields_outcome, handle_outcome, indexes_outcome, lemma_sent_called,
    named_fields_outcome, specs_outcome, uid_outcome, AnswerView, Arg, Engine, Handle, Op, Shape,
};
use crate::engine::args_view;
use crate::field::{FieldData, FieldDataView, FieldSpec};
use crate::index::IndexSpec;
use crate::keyed::shorter;
use crate::raw::{
    field_payload_ok, RawFieldData, RawFieldDataView, RawFieldSpec, RawFieldSpecView,
    RawIndexSpec, RawIndexSpecView, FIELD_TYPE_BLOB,
};
use crate::types::EdgeUid;
use crate::Result;

verus! {

/// Whether every representation of `raws` is one that a value has.
pub open spec fn all_payload_ok(raws: Seq<RawFieldDataView>) -> bool {
    forall|i: int| 0 <= i < raws.len() ==> field_payload_ok(#[trigger] raws[i])
}

/// Whether `values` holds the values that `raws` stands for, in order.
pub open spec fn holds_values(values: Seq<FieldData>, raws: Seq<RawFieldDataView>) -> bool {
    &&& values.len() == raws.len()
    &&& forall|i: int|
        0 <= i < values.len() ==> (#[trigger] values[i])@ == FieldDataView::of_raw(raws[i])
}

/// Whether `fields` holds the names and the values that the two columns
/// stand for, row by row, as far as both columns go.
pub open spec fn holds_named(
    fields: Seq<(String, FieldData)>,
    names: Seq<Seq<char>>,
    raws: Seq<RawFieldDataView>,
) -> bool {
    &&& fields.len() == shorter(names.len() as int, raws.len() as int)
    &&& forall|i: int|
        0 <= i < fields.len() ==> {
            &&& (#[trigger] fields[i]).0@ == names[i]
            &&& fields[i].1@ == FieldDataView::of_raw(raws[i])
        }
}

/// Whether every representation of the rows that both columns make is one
/// that a value has.
pub open spec fn named_payload_ok(names: Seq<Seq<char>>, raws: Seq<RawFieldDataView>) -> bool {
    forall|i: int|
        0 <= i < shorter(names.len() as int, raws.len() as int) ==> field_payload_ok(
            #[trigger] raws[i],
        )
}

/// Whether every type code of `raws` is one of the engine's.
pub open spec fn all_types_ok(raws: Seq<RawFieldSpecView>) -> bool {
    forall|i: int| 0 <= i < raws.len() ==> (#[trigger] raws[i]).ty <= FIELD_TYPE_BLOB
}

/// Whether `specs` holds the descriptions that `raws` stands for, in order.
pub open spec fn holds_specs(specs: Seq<FieldSpec>, raws: Seq<RawFieldSpecView>) -> bool {
    &&& specs.len() == raws.len()
    &&& forall|i: int| 0 <= i < specs.len() ==> (#[trigger] specs[i]).raw() == raws[i]
}

/// Whether `specs` holds the descriptions that `raws` stands for, in order.
pub open spec fn holds_indexes(specs: Seq<IndexSpec>, raws: Seq<RawIndexSpecView>) -> bool {
    &&& specs.len() == raws.len()
    &&& forall|i: int| 0 <= i < specs.len() ==> (#[trigger] specs[i]).raw() == raws[i]
}

/// How the result `r` of reading a field value goes with the `answer`.
pub open spec fn field_read(r: Result<FieldData>, answer: AnswerView) -> bool {
    match r {
        Ok(value) => answer matches AnswerView::Field(raw) && field_payload_ok(raw) && value@
            == FieldDataView::of_raw(raw),
        Err(e) => match answer {
            AnswerView::Field(raw) => !field_payload_ok(raw) && e@ == "Invalid parameter."@,
            other => other == AnswerView::Failure(e@),
        },
    }
}

/// How the result `r` of reading a list of field values goes with the
/// `answer`.
pub open spec fn fields_read(r: Result<Vec<FieldData>>, answer: AnswerView) -> bool {
    match r {
        Ok(values) => answer matches AnswerView::Fields(raws) && all_payload_ok(raws)
            && holds_values(values@, raws),
        Err(e) => match answer {
            AnswerView::Fields(raws) => !all_payload_ok(raws) && e@ == "Invalid parameter."@,
            other => other == AnswerView::Failure(e@),
        },
    }
}

/// How the result `r` of reading all fields goes with the `answer`.
pub open spec fn named_fields_read(
    r: Result<Vec<(String, FieldData)>>,
    answer: AnswerView,
) -> bool {
    match r {
        Ok(fields) => answer matches AnswerView::NamedFields(columns) && named_payload_ok(
            columns.0,
            columns.1,
        ) && holds_named(fields@, columns.0, columns.1),
        Err(e) => match answer {
            AnswerView::NamedFields(columns) => !named_payload_ok(columns.0, columns.1) && e@
                == "Invalid parameter."@,
            other => other == AnswerView::Failure(e@),
        },
    }
}

/// How the result `r` of reading a schema goes with the `answer`.
pub open spec fn specs_read(r: Result<Vec<FieldSpec>>, answer: AnswerView) -> bool {
    match r {
        Ok(specs) => answer matches AnswerView::Specs(raws) && all_types_ok(raws) && holds_specs(
            specs@,
            raws,
        ),
        Err(e) => match answer {
            AnswerView::Specs(raws) => !all_types_ok(raws) && e@ == "Invalid parameter."@,
            other => other == AnswerView::Failure(e@),
        },
    }
}

/// How the result `r` of listing indexes goes with the `answer`.
pub open spec fn indexes_read(r: Result<Vec<IndexSpec>>, answer: AnswerView) -> bool {
    match r {
        Ok(specs) => answer matches AnswerView::Indexes(raws) && holds_indexes(specs@, raws),
        Err(e) => answer == AnswerView::Failure(e@),
    }
}

/// How the result `r` of reading an edge key goes with the `answer`.
pub open spec fn uid_read(r: Result<EdgeUid>, answer: AnswerView) -> bool {
    match r {
        Ok(uid) => answer == AnswerView::Uid(uid.as_raw_spec()),
        Err(e) => answer == AnswerView::Failure(e@),
    }
}

/// How the result `r` of asking for a new engine object goes with the
/// `answer`.
pub open spec fn id_read(r: Result<u64>, answer: AnswerView) -> bool {
    match r {
        Ok(id) => answer == AnswerView::Handle(id),
        Err(e) => answer == AnswerView::Failure(e@),
    }
}

/// The values that `raws` stands for, or an invalid parameter where one of
/// them is no value.
pub fn decode_fields(raws: &Vec<RawFieldData>) -> (r: Result<Vec<FieldData>>)
    ensures
        match r {
            Ok(values) => all_payload_ok(crate::raw::fields_view(raws@)) && holds_values(
                values@,
                crate::raw::fields_view(raws@),
            ),
            Err(e) => !all_payload_ok(crate::raw::fields_view(raws@)) && e@
                == "Invalid parameter."@,
        },
{
    let ghost views = crate::raw::fields_view(raws@);
    let mut values: Vec<FieldData> = Vec::new();
    let mut i: usize = 0;
    while i < raws.len()
        invariant
            i <= raws.len(),
            views == crate::raw::fields_view(raws@),
            values@.len() == i,
            forall|j: int| 0 <= j < i ==> field_payload_ok(#[trigger] views[j]),
            forall|j: int| 0 <= j < i ==> (
                #[trigger] values@[j]
            )@ == FieldDataView::of_raw(views[j]),
        decreases raws.len() - i,
    {
        assert(views[i as int] == raws@[i as int]@);
        match FieldData::try_from_raw(&raws[i]) {
            Ok(value) => {
                values.push(value);
            },
            Err(e) => {
                assert(!field_payload_ok(views[i as int]));
                return Err(e);
            },
        }
        i = i + 1;
    }
    Ok(values)
}

/// The rows that the two columns make, or an invalid parameter where the
/// value of a row is no value.
pub fn decode_named(names: &Vec<String>, raws: &Vec<RawFieldData>) -> (r: Result<
    Vec<(String, FieldData)>,
>)
    ensures
        match r {
            Ok(fields) => named_payload_ok(names.deep_view(), crate::raw::fields_view(raws@))
                && holds_named(fields@, names.deep_view(), crate::raw::fields_view(raws@)),
            Err(e) => !named_payload_ok(names.deep_view(), crate::raw::fields_view(raws@)) && e@
                == "Invalid parameter."@,
        },
{
    let ghost views = crate::raw::fields_view(raws@);
    let n = if names.len() <= raws.len() {
        names.len()
    } else {
        raws.len()
    };
    assert(names.deep_view().len() == names@.len());
    let mut fields: Vec<(String, FieldData)> = Vec::new();
    let mut i: usize = 0;
    while i < n
        invariant
            i <= n,
            n <= names.len(),
            n <= raws.len(),
            n == shorter(names.deep_view().len() as int, views.len() as int),
            views == crate::raw::fields_view(raws@),
            fields@.len() == i,
            forall|j: int| 0 <= j < i ==> field_payload_ok(#[trigger] views[j]),
            forall|j: int|
                0 <= j < i ==> {
                    &&& (#[trigger] fields@[j]).0@ == names@[j]@
                    &&& fields@[j].1@ == FieldDataView::of_raw(views[j])
                },
        decreases n - i,
    {
        assert(views[i as int] == raws@[i as int]@);
        match FieldData::try_from_raw(&raws[i]) {
            Ok(value) => {
                fields.push((names[i].clone(), value));
            },
            Err(e) => {
                assert(!field_payload_ok(views[i as int]));
                return Err(e);
            },
        }
        i = i + 1;
    }
    Ok(fields)
}

/// The descriptions that `raws` stands for, or an invalid parameter where a
/// type code is none of the engine's.
pub fn decode_specs(raws: &Vec<RawFieldSpec>) -> (r: Result<Vec<FieldSpec>>)
    ensures
        match r {
            Ok(specs) => all_types_ok(crate::raw::specs_view(raws@)) && holds_specs(
                specs@,
                crate::raw::specs_view(raws@),
            ),
            Err(e) => !all_types_ok(crate::raw::specs_view(raws@)) && e@ == "Invalid parameter."@,
        },
{
    let ghost views = crate::raw::specs_view(raws@);
    let mut specs: Vec<FieldSpec> = Vec::new();
    let mut i: usize = 0;
    while i < raws.len()
        invariant
            i <= raws.len(),
            views == crate::raw::specs_view(raws@),
            specs@.len() == i,
            forall|j: int| 0 <= j < i ==> (#[trigger] views[j]).ty <= FIELD_TYPE_BLOB,
            forall|j: int| 0 <= j < i ==> (#[trigger] specs@[j]).raw() == views[j],
        decreases raws.len() - i,
    {
        assert(views[i as int] == raws@[i as int]@);
        match FieldSpec::try_from_raw(&raws[i]) {
            Ok(spec) => {
                specs.push(spec);
            },
            Err(e) => {
                assert(views[i as int].ty > FIELD_TYPE_BLOB);
                return Err(e);
            },
        }
        i = i + 1;
    }
    Ok(specs)
}

/// The descriptions that `raws` stands for.
pub fn decode_indexes(raws: &Vec<RawIndexSpec>) -> (specs: Vec<IndexSpec>)
    ensures
        holds_indexes(specs@, crate::raw::indexes_view(raws@)),
{
    let mut specs: Vec<IndexSpec> = Vec::new();
    let mut i: usize = 0;
    while i < raws.len()
        invariant
            i <= raws.len(),
            specs@.len() == i,
            forall|j: int| 0 <= j < i ==> (#[trigger] specs@[j]).raw() == raws@[j]@,
        decreases raws.len() - i,
    {
        specs.push(IndexSpec::from_raw_index_spec(&raws[i]));
        i = i + 1;
    }
    specs
}

/// Asks for a field value.
pub fn read_field<E: Engine>(engine: &mut E, target: Handle, op: Op, args: Vec<Arg>) -> (r: Result<
    FieldData,
>)
    ensures
        called(
            old(engine).trace(),
            final(engine).trace(),
            target,
            op,
            args_view(args@),
            Shape::Field,
        ),
        field_read(r, final(engine).trace().last().answer),
{
    let ghost before = engine.trace();
    let ghost views = args_view(args@);
    let answer = ask_field(engine, target, op, args);
    proof {
        lemma_sent_called(
            before,
            engine.trace(),
            target,
            op,
            views,
            Shape::Field,
            field_outcome(answer),
        );
    }
    match answer {
        Ok(raw) => FieldData::try_from_raw(&raw),
        Err(e) => Err(e),
    }
}

/// Asks for a list of field values.
pub fn read_fields<E: Engine>(engine: &mut E, target: Handle, op: Op, args: Vec<Arg>) -> (r: Result<
    Vec<FieldData>,
>)
    ensures
        called(
            old(engine).trace(),
            final(engine).trace(),
            target,
            op,
            args_view(args@),
            Shape::Fields,
        ),
        fields_read(r, final(engine).trace().last().answer),
{
    let ghost before = engine.trace();
    let ghost views = args_view(args@);
    let answer = ask_fields(engine, target, op, args);
    proof {
        lemma_sent_called(
            before,
            engine.trace(),
            target,
            op,
            views,
            Shape::Fields,
            fields_outcome(answer),
        );
    }
    match answer {
        Ok(raws) => decode_fields(&raws),
        Err(e) => Err(e),
    }
}

/// Asks for all fields.
pub fn read_named_fields<E: Engine>(engine: &mut E, target: Handle, op: Op, args: Vec<Arg>) -> (r:
    Result<Vec<(String, FieldData)>>)
    ensures
        called(
            old(engine).trace(),
            final(engine).trace(),
            target,
            op,
            args_view(args@),
            Shape::NamedFields,
        ),
        named_fields_read(r, final(engine).trace().last().answer),
{
    let ghost before = engine.trace();
    let ghost views = args_view(args@);
    let answer = ask_named_fields(engine, target, op, args);
    proof {
        lemma_sent_called(
            before,
            engine.trace(),
            target,
            op,
            views,
            Shape::NamedFields,
            named_fields_outcome(answer),
        );
    }
    match answer {
        Ok((names, raws)) => decode_named(&names, &raws),
        Err(e) => Err(e),
    }
}

/// Asks for a schema.
pub fn read_specs<E: Engine>(engine: &mut E, target: Handle, op: Op, args: Vec<Arg>) -> (r: Result<
    Vec<FieldSpec>,
>)
    ensures
        called(
            old(engine).trace(),
            final(engine).trace(),
            target,
            op,
            args_view(args@),
            Shape::Specs,
        ),
        specs_read(r, final(engine).trace().last().answer),
{
    let ghost before = engine.trace();
    let ghost views = args_view(args@);
    let answer = ask_specs(engine, target, op, args);
    proof {
        lemma_sent_called(
            before,
            engine.trace(),
            target,
            op,
            views,
            Shape::Specs,
            specs_outcome(answer),
        );
    }
    match answer {
        Ok(raws) => decode_specs(&raws),
        Err(e) => Err(e),
    }
}

/// Asks for a list of indexes.
pub fn read_indexes<E: Engine>(engine: &mut E, target: Handle, op: Op, args: Vec<Arg>) -> (r:
    Result<Vec<IndexSpec>>)
    ensures
        called(
            old(engine).trace(),
            final(engine).trace(),
            target,
            op,
            args_view(args@),
            Shape::Indexes,
        ),
        indexes_read(r, final(engine).trace().last().answer),
{
    let ghost before = engine.trace();
    let ghost views = args_view(args@);
    let answer = ask_indexes(engine, target, op, args);
    proof {
        lemma_sent_called(
            before,
            engine.trace(),
            target,
            op,
            views,
            Shape::Indexes,
            indexes_outcome(answer),
        );
    }
    match answer {
        Ok(raws) => Ok(decode_indexes(&raws)),
        Err(e) => Err(e),
    }
}

/// Asks for an edge key.
pub fn read_uid<E: Engine>(engine: &mut E, target: Handle, op: Op, args: Vec<Arg>) -> (r: Result<
    EdgeUid,
>)
    ensures
        called(
            old(engine).trace(),
            final(engine).trace(),
            target,
            op,
            args_view(args@),
            Shape::Uid,
        ),
        uid_read(r, final(engine).trace().last().answer),
{
    let ghost before = engine.trace();
    let ghost views = args_view(args@);
    let answer = ask_uid(engine, target, op, args);
    proof {
        lemma_sent_called(
            before,
            engine.trace(),
            target,
            op,
            views,
            Shape::Uid,
            uid_outcome(answer),
        );
    }
    match answer {
        Ok(raw) => Ok(EdgeUid::from_raw(&raw)),
        Err(e) => Err(e),
    }
}

/// Asks for a new engine object.
pub fn read_id<E: Engine>(engine: &mut E, target: Handle, op: Op, args: Vec<Arg>) -> (r: Result<
    u64,
>)
    ensures
        called(
            old(engine).trace(),
            final(engine).trace(),
            target,
            op,
            args_view(args@),
            Shape::Handle,
        ),
        id_read(r, final(engine).trace().last().answer),
{
    let ghost before = engine.trace();
    let ghost views = args_view(args@);
    let answer = ask_handle(engine, target, op, args);
    proof {
        lemma_sent_called(
            before,
            engine.trace(),
            target,
            op,
            views,
            Shape::Handle,
            handle_outcome(answer),
        );
    }
    answer
}

} // verus!
