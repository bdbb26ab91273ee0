//! Sequences that are pulled from cursors.
//!
//! A pull asks the cursor whether it is at an element. Where it is at none
//! the sequence has ended. Else the pull reads what it hands out from the
//! element, has the cursor step on, and hands out what it read; what the
//! step gives is not looked at. Where a read fails the pull ends with the
//! error, and the cursor has not stepped.
//!
//! A sequence is pulled from front to back, once, and pulling moves the
//! cursor that it was made from.

use core::marker::PhantomData;
use vstd::prelude::*;

use crate::db::{release, released};
use crate::decode::{field_read, named_payload_ok, read_field, read_uid, uid_read};
use crate::engine::{
    ask_flag, ask_int, ask_named_fields, ask_short, ask_text, check, int_outcome,
    lemma_sent_called, named_fields_outcome, short_outcome, text_outcome, unit_outcome,
    AnswerView, ArgView, Engine, Exchange, Handle, Kind, Op, RequestView, Shape,
};
use crate::field::{FieldData, FieldDataView};
use crate::keyed::shorter;
use crate::marshal::args0;
use crate::raw::{field_payload_ok, RawFieldData, RawFieldDataView};
use crate::types::EdgeUid;
use crate::Result;

verus! {

/// The request for `op` on `target`, without arguments.
pub open spec fn plain(target: Handle, op: Op) -> RequestView {
    RequestView { target, op, args: Seq::<ArgView>::empty() }
}

/// Whether `after` is `before` with `k` more exchanges.
pub open spec fn grew(before: Seq<Exchange>, after: Seq<Exchange>, k: int) -> bool {
    &&& after.len() == before.len() + k
    &&& forall|i: int| 0 <= i < before.len() ==> after[i] == before[i]
}

/// Whether the exchange at `at` of `trace` asked for `op` on `cursor` by the
/// method of the shape `shape`.
pub open spec fn asked(
    trace: Seq<Exchange>,
    at: int,
    cursor: Handle,
    op: Op,
    shape: Shape,
) -> bool {
    &&& trace[at].request == plain(cursor, op)
    &&& trace[at].shape == shape
}

/// Whether a pull found the cursor at no element: the one exchange that
/// `after` has more than `before` asked whether the cursor is valid, and the
/// answer was no.
pub open spec fn ended(before: Seq<Exchange>, after: Seq<Exchange>, cursor: Handle) -> bool {
    &&& grew(before, after, 1)
    &&& after[before.len() as int] == Exchange {
        request: plain(cursor, Op::IsValid),
        shape: Shape::Probe,
        answer: AnswerView::Probe(false),
    }
}

/// Whether a pull found the cursor at an element and made `k` exchanges in
/// all: the first of them asked whether the cursor is valid, and the answer
/// was yes.
pub open spec fn began(
    before: Seq<Exchange>,
    after: Seq<Exchange>,
    cursor: Handle,
    k: int,
) -> bool {
    &&& grew(before, after, k)
    &&& k >= 1
    &&& after[before.len() as int] == Exchange {
        request: plain(cursor, Op::IsValid),
        shape: Shape::Probe,
        answer: AnswerView::Probe(true),
    }
}

/// Whether `values` holds the values of the rows that the two columns make,
/// in order.
pub open spec fn holds_row_values(
    values: Seq<FieldData>,
    names: Seq<Seq<char>>,
    raws: Seq<RawFieldDataView>,
) -> bool {
    &&& values.len() == shorter(names.len() as int, raws.len() as int)
    &&& forall|i: int|
        0 <= i < values.len() ==> (#[trigger] values[i])@ == FieldDataView::of_raw(raws[i])
}

/// How the result `r` of reading the values of all fields goes with the
/// `answer`.
pub open spec fn values_read(r: Result<Vec<FieldData>>, answer: AnswerView) -> bool {
    match r {
        Ok(values) => answer matches AnswerView::NamedFields(columns) && named_payload_ok(
            columns.0,
            columns.1,
        ) && holds_row_values(values@, columns.0, columns.1),
        Err(e) => match answer {
            AnswerView::NamedFields(columns) => !named_payload_ok(columns.0, columns.1) && e@
                == "Invalid parameter."@,
            other => other == AnswerView::Failure(e@),
        },
    }
}

/// How the result `r` of reading an integer goes with the `answer`.
pub open spec fn int_read(r: Result<i64>, answer: AnswerView) -> bool {
    answer == int_outcome(r)
}

/// How the result `r` of reading a label id goes with the `answer`.
pub open spec fn short_read(r: Result<u16>, answer: AnswerView) -> bool {
    answer == short_outcome(r)
}

/// How the result `r` of reading a text goes with the `answer`.
pub open spec fn text_read(r: Result<String>, answer: AnswerView) -> bool {
    answer == text_outcome(r)
}

/// Reads an integer by `op`.
fn get_int<E: Engine>(engine: &mut E, cursor: Handle, op: Op) -> (r: Result<i64>)
    ensures
        grew(old(engine).trace(), final(engine).trace(), 1),
        asked(
            final(engine).trace(),
            old(engine).trace().len() as int,
            cursor,
            op,
            Shape::Int,
        ),
        int_read(r, final(engine).trace()[old(engine).trace().len() as int].answer),
{
    ask_int(engine, cursor, op, args0())
}

/// Reads a label id by `op`.
fn get_short<E: Engine>(engine: &mut E, cursor: Handle, op: Op) -> (r: Result<u16>)
    ensures
        grew(old(engine).trace(), final(engine).trace(), 1),
        asked(
            final(engine).trace(),
            old(engine).trace().len() as int,
            cursor,
            op,
            Shape::Short,
        ),
        short_read(r, final(engine).trace()[old(engine).trace().len() as int].answer),
{
    ask_short(engine, cursor, op, args0())
}

/// Reads a text by `op`.
fn get_text<E: Engine>(engine: &mut E, cursor: Handle, op: Op) -> (r: Result<String>)
    ensures
        grew(old(engine).trace(), final(engine).trace(), 1),
        asked(
            final(engine).trace(),
            old(engine).trace().len() as int,
            cursor,
            op,
            Shape::Text,
        ),
        text_read(r, final(engine).trace()[old(engine).trace().len() as int].answer),
{
    ask_text(engine, cursor, op, args0())
}

/// Reads an edge key by `op`.
fn get_uid<E: Engine>(engine: &mut E, cursor: Handle, op: Op) -> (r: Result<EdgeUid>)
    ensures
        grew(old(engine).trace(), final(engine).trace(), 1),
        asked(
            final(engine).trace(),
            old(engine).trace().len() as int,
            cursor,
            op,
            Shape::Uid,
        ),
        uid_read(r, final(engine).trace()[old(engine).trace().len() as int].answer),
{
    read_uid(engine, cursor, op, args0())
}

/// Reads a field value by `op`.
fn get_value<E: Engine>(engine: &mut E, cursor: Handle, op: Op) -> (r: Result<FieldData>)
    ensures
        grew(old(engine).trace(), final(engine).trace(), 1),
        asked(
            final(engine).trace(),
            old(engine).trace().len() as int,
            cursor,
            op,
            Shape::Field,
        ),
        field_read(r, final(engine).trace()[old(engine).trace().len() as int].answer),
{
    read_field(engine, cursor, op, args0())
}

/// The values of the rows that the two columns make, or an invalid parameter
/// where the value of a row is no value.
fn decode_row_values(names: &Vec<String>, raws: &Vec<RawFieldData>) -> (r: Result<Vec<FieldData>>)
    ensures
        match r {
            Ok(values) => named_payload_ok(names.deep_view(), crate::raw::fields_view(raws@))
                && holds_row_values(values@, names.deep_view(), crate::raw::fields_view(raws@)),
            Err(e) => !named_payload_ok(names.deep_view(), crate::raw::fields_view(raws@)) && e@
                == "Invalid parameter."@,
        },
{
    let ghost views = crate::raw::fields_view(raws@);
    let n = if names.len() <= raws.len() {
        names.len()
    } else {
        raws.len()
    };
    assert(names.deep_view().len() == names@.len());
    let mut values: Vec<FieldData> = Vec::new();
    let mut i: usize = 0;
    while i < n
        invariant
            i <= n,
            n <= raws.len(),
            n == shorter(names.deep_view().len() as int, views.len() as int),
            views == crate::raw::fields_view(raws@),
            values@.len() == i,
            forall|j: int| 0 <= j < i ==> field_payload_ok(#[trigger] views[j]),
            forall|j: int|
                0 <= j < i ==> (#[trigger] values@[j])@ == FieldDataView::of_raw(views[j]),
        decreases n - i,
    {
        assert(views[i as int] == raws@[i as int]@);
        match FieldData::try_from_raw(&raws[i]) {
            Ok(value) => {
                values.push(value);
            },
            Err(e) => {
                assert(!field_payload_ok(views[i as int]));
                return Err(e);
            },
        }
        i = i + 1;
    }
    Ok(values)
}

/// Reads the values of all fields by `op`.
fn get_values<E: Engine>(engine: &mut E, cursor: Handle, op: Op) -> (r: Result<Vec<FieldData>>)
    ensures
        grew(old(engine).trace(), final(engine).trace(), 1),
        asked(
            final(engine).trace(),
            old(engine).trace().len() as int,
            cursor,
            op,
            Shape::NamedFields,
        ),
        values_read(r, final(engine).trace()[old(engine).trace().len() as int].answer),
{
    let ghost before = engine.trace();
    let answer = ask_named_fields(engine, cursor, op, args0());
    proof {
        lemma_sent_called(
            before,
            engine.trace(),
            cursor,
            op,
            Seq::<ArgView>::empty(),
            Shape::NamedFields,
            named_fields_outcome(answer),
        );
    }
    match answer {
        Ok((names, raws)) => decode_row_values(&names, &raws),
        Err(e) => Err(e),
    }
}

/// Asks whether the cursor is at an element.
fn at_element<E: Engine>(engine: &mut E, cursor: Handle) -> (valid: bool)
    ensures
        grew(old(engine).trace(), final(engine).trace(), 1),
        final(engine).trace()[old(engine).trace().len() as int] == (Exchange {
            request: plain(cursor, Op::IsValid),
            shape: Shape::Probe,
            answer: AnswerView::Probe(valid),
        }),
{
    check(engine, cursor, Op::IsValid, args0())
}

/// Has the cursor step to the next element; what the step gives is not
/// looked at.
fn step_on<E: Engine>(engine: &mut E, cursor: Handle)
    ensures
        grew(old(engine).trace(), final(engine).trace(), 1),
        asked(
            final(engine).trace(),
            old(engine).trace().len() as int,
            cursor,
            Op::Next,
            Shape::Flag,
        ),
{
    let stepped = ask_flag(engine, cursor, Op::Next, args0());
}

/// What a pull of an integer by `op` does to the trace, and how its result `r`
/// goes with it.
pub open spec fn int_pull(
    before: Seq<Exchange>,
    after: Seq<Exchange>,
    cursor: Handle,
    op: Op,
    r: Result<Option<i64>>,
) -> bool {
    let n = before.len() as int;
    match r {
        Ok(None) => ended(before, after, cursor),
        Ok(Some(item)) => {
            &&& began(before, after, cursor, 3)
            &&& asked(after, n + 1, cursor, op, Shape::Int)
            &&& int_read(Ok(item), after[n + 1].answer)
            &&& asked(after, n + 2, cursor, Op::Next, Shape::Flag)
        },
        Err(e) => {
            &&& began(before, after, cursor, 2)
            &&& asked(after, n + 1, cursor, op, Shape::Int)
            &&& int_read(Err(e), after[n + 1].answer)
        },
    }
}

/// Pulls an integer, read by `op`.
pub fn pull_int<E: Engine>(engine: &mut E, cursor: Handle, op: Op) -> (r: Result<Option<i64>>)
    ensures
        int_pull(old(engine).trace(), final(engine).trace(), cursor, op, r),
{
    if !at_element(engine, cursor) {
        return Ok(None);
    }
    match get_int(engine, cursor, op) {
        Ok(item) => {
            step_on(engine, cursor);
            Ok(Some(item))
        },
        Err(e) => Err(e),
    }
}

/// What a pull of a label id by `op` does to the trace, and how its result `r`
/// goes with it.
pub open spec fn short_pull(
    before: Seq<Exchange>,
    after: Seq<Exchange>,
    cursor: Handle,
    op: Op,
    r: Result<Option<u16>>,
) -> bool {
    let n = before.len() as int;
    match r {
        Ok(None) => ended(before, after, cursor),
        Ok(Some(item)) => {
            &&& began(before, after, cursor, 3)
            &&& asked(after, n + 1, cursor, op, Shape::Short)
            &&& short_read(Ok(item), after[n + 1].answer)
            &&& asked(after, n + 2, cursor, Op::Next, Shape::Flag)
        },
        Err(e) => {
            &&& began(before, after, cursor, 2)
            &&& asked(after, n + 1, cursor, op, Shape::Short)
            &&& short_read(Err(e), after[n + 1].answer)
        },
    }
}

/// Pulls a label id, read by `op`.
pub fn pull_short<E: Engine>(engine: &mut E, cursor: Handle, op: Op) -> (r: Result<Option<u16>>)
    ensures
        short_pull(old(engine).trace(), final(engine).trace(), cursor, op, r),
{
    if !at_element(engine, cursor) {
        return Ok(None);
    }
    match get_short(engine, cursor, op) {
        Ok(item) => {
            step_on(engine, cursor);
            Ok(Some(item))
        },
        Err(e) => Err(e),
    }
}

/// What a pull of a text by `op` does to the trace, and how its result `r`
/// goes with it.
pub open spec fn text_pull(
    before: Seq<Exchange>,
    after: Seq<Exchange>,
    cursor: Handle,
    op: Op,
    r: Result<Option<String>>,
) -> bool {
    let n = before.len() as int;
    match r {
        Ok(None) => ended(before, after, cursor),
        Ok(Some(item)) => {
            &&& began(before, after, cursor, 3)
            &&& asked(after, n + 1, cursor, op, Shape::Text)
            &&& text_read(Ok(item), after[n + 1].answer)
            &&& asked(after, n + 2, cursor, Op::Next, Shape::Flag)
        },
        Err(e) => {
            &&& began(before, after, cursor, 2)
            &&& asked(after, n + 1, cursor, op, Shape::Text)
            &&& text_read(Err(e), after[n + 1].answer)
        },
    }
}

/// Pulls a text, read by `op`.
pub fn pull_text<E: Engine>(engine: &mut E, cursor: Handle, op: Op) -> (r: Result<Option<String>>)
    ensures
        text_pull(old(engine).trace(), final(engine).trace(), cursor, op, r),
{
    if !at_element(engine, cursor) {
        return Ok(None);
    }
    match get_text(engine, cursor, op) {
        Ok(item) => {
            step_on(engine, cursor);
            Ok(Some(item))
        },
        Err(e) => Err(e),
    }
}

/// What a pull of an edge key by `op` does to the trace, and how its result `r`
/// goes with it.
pub open spec fn uid_pull(
    before: Seq<Exchange>,
    after: Seq<Exchange>,
    cursor: Handle,
    op: Op,
    r: Result<Option<EdgeUid>>,
) -> bool {
    let n = before.len() as int;
    match r {
        Ok(None) => ended(before, after, cursor),
        Ok(Some(item)) => {
            &&& began(before, after, cursor, 3)
            &&& asked(after, n + 1, cursor, op, Shape::Uid)
            &&& uid_read(Ok(item), after[n + 1].answer)
            &&& asked(after, n + 2, cursor, Op::Next, Shape::Flag)
        },
        Err(e) => {
            &&& began(before, after, cursor, 2)
            &&& asked(after, n + 1, cursor, op, Shape::Uid)
            &&& uid_read(Err(e), after[n + 1].answer)
        },
    }
}

/// Pulls an edge key, read by `op`.
pub fn pull_uid<E: Engine>(engine: &mut E, cursor: Handle, op: Op) -> (r: Result<Option<EdgeUid>>)
    ensures
        uid_pull(old(engine).trace(), final(engine).trace(), cursor, op, r),
{
    if !at_element(engine, cursor) {
        return Ok(None);
    }
    match get_uid(engine, cursor, op) {
        Ok(item) => {
            step_on(engine, cursor);
            Ok(Some(item))
        },
        Err(e) => Err(e),
    }
}

/// What a pull of a field value by `op` does to the trace, and how its result
/// `r` goes with it.
pub open spec fn value_pull(
    before: Seq<Exchange>,
    after: Seq<Exchange>,
    cursor: Handle,
    op: Op,
    r: Result<Option<FieldData>>,
) -> bool {
    let n = before.len() as int;
    match r {
        Ok(None) => ended(before, after, cursor),
        Ok(Some(item)) => {
            &&& began(before, after, cursor, 3)
            &&& asked(after, n + 1, cursor, op, Shape::Field)
            &&& field_read(Ok(item), after[n + 1].answer)
            &&& asked(after, n + 2, cursor, Op::Next, Shape::Flag)
        },
        Err(e) => {
            &&& began(before, after, cursor, 2)
            &&& asked(after, n + 1, cursor, op, Shape::Field)
            &&& field_read(Err(e), after[n + 1].answer)
        },
    }
}

/// Pulls a field value, read by `op`.
pub fn pull_value<E: Engine>(
    engine: &mut E,
    cursor: Handle,
    op: Op,
) -> (r: Result<Option<FieldData>>)
    ensures
        value_pull(old(engine).trace(), final(engine).trace(), cursor, op, r),
{
    if !at_element(engine, cursor) {
        return Ok(None);
    }
    match get_value(engine, cursor, op) {
        Ok(item) => {
            step_on(engine, cursor);
            Ok(Some(item))
        },
        Err(e) => Err(e),
    }
}

/// What a pull of the values of all fields by `op` does to the trace, and how
/// its result `r` goes with it.
pub open spec fn values_pull(
    before: Seq<Exchange>,
    after: Seq<Exchange>,
    cursor: Handle,
    op: Op,
    r: Result<Option<Vec<FieldData>>>,
) -> bool {
    let n = before.len() as int;
    match r {
        Ok(None) => ended(before, after, cursor),
        Ok(Some(item)) => {
            &&& began(before, after, cursor, 3)
            &&& asked(after, n + 1, cursor, op, Shape::NamedFields)
            &&& values_read(Ok(item), after[n + 1].answer)
            &&& asked(after, n + 2, cursor, Op::Next, Shape::Flag)
        },
        Err(e) => {
            &&& began(before, after, cursor, 2)
            &&& asked(after, n + 1, cursor, op, Shape::NamedFields)
            &&& values_read(Err(e), after[n + 1].answer)
        },
    }
}

/// Pulls the values of all fields, read by `op`.
pub fn pull_values<E: Engine>(
    engine: &mut E,
    cursor: Handle,
    op: Op,
) -> (r: Result<Option<Vec<FieldData>>>)
    ensures
        values_pull(old(engine).trace(), final(engine).trace(), cursor, op, r),
{
    if !at_element(engine, cursor) {
        return Ok(None);
    }
    match get_values(engine, cursor, op) {
        Ok(item) => {
            step_on(engine, cursor);
            Ok(Some(item))
        },
        Err(e) => Err(e),
    }
}

/// What a pull of a vertex with its id, its label and the values of its fields
/// does to the trace, and how its result `r` goes with it.
pub open spec fn vertex_pull(
    before: Seq<Exchange>,
    after: Seq<Exchange>,
    cursor: Handle,
    r: Result<Option<(i64, String, Vec<FieldData>)>>,
) -> bool {
    let n = before.len() as int;
    match r {
        Ok(None) => ended(before, after, cursor),
        Ok(Some(item)) => {
            &&& began(before, after, cursor, 5)
            &&& asked(after, n + 1, cursor, Op::GetId, Shape::Int)
            &&& int_read(Ok(item.0), after[n + 1].answer)
            &&& asked(after, n + 2, cursor, Op::GetLabel, Shape::Text)
            &&& text_read(Ok(item.1), after[n + 2].answer)
            &&& asked(after, n + 3, cursor, Op::GetAllFields, Shape::NamedFields)
            &&& values_read(Ok(item.2), after[n + 3].answer)
            &&& asked(after, n + 4, cursor, Op::Next, Shape::Flag)
        },
        Err(e) => {
            ||| {
                &&& began(before, after, cursor, 2)
                &&& asked(after, n + 1, cursor, Op::GetId, Shape::Int)
                &&& int_read(Err(e), after[n + 1].answer)
            }
            ||| {
                &&& began(before, after, cursor, 3)
                &&& asked(after, n + 1, cursor, Op::GetId, Shape::Int)
                &&& exists|first: i64| int_read(Ok(first), #[trigger] after[n + 1].answer)
                &&& asked(after, n + 2, cursor, Op::GetLabel, Shape::Text)
                &&& text_read(Err(e), after[n + 2].answer)
            }
            ||| {
                &&& began(before, after, cursor, 4)
                &&& asked(after, n + 1, cursor, Op::GetId, Shape::Int)
                &&& exists|first: i64| int_read(Ok(first), #[trigger] after[n + 1].answer)
                &&& asked(after, n + 2, cursor, Op::GetLabel, Shape::Text)
                &&& after[n + 2].answer is Text
                &&& asked(after, n + 3, cursor, Op::GetAllFields, Shape::NamedFields)
                &&& values_read(Err(e), after[n + 3].answer)
            }
        },
    }
}

/// Pulls a vertex with its id, its label and the values of its fields.
pub fn pull_vertex<E: Engine>(engine: &mut E, cursor: Handle) -> (r: Result<
    Option<(i64, String, Vec<FieldData>)>,
>)
    ensures
        vertex_pull(old(engine).trace(), final(engine).trace(), cursor, r),
{
    let ghost n = engine.trace().len() as int;
    if !at_element(engine, cursor) {
        return Ok(None);
    }
    let first = match get_int(engine, cursor, Op::GetId) {
        Ok(first) => first,
        Err(e) => {
            return Err(e);
        },
    };
    assert(int_read(Ok(first), engine.trace()[n + 1].answer));
    let label = match get_text(engine, cursor, Op::GetLabel) {
        Ok(label) => label,
        Err(e) => {
            assert(int_read(Ok(first), engine.trace()[n + 1].answer));
            return Err(e);
        },
    };
    match get_values(engine, cursor, Op::GetAllFields) {
        Ok(values) => {
            step_on(engine, cursor);
            Ok(Some((first, label, values)))
        },
        Err(e) => {
            assert(int_read(Ok(first), engine.trace()[n + 1].answer));
            Err(e)
        },
    }
}

/// What a pull of an edge with its key, its label and the values of its fields
/// does to the trace, and how its result `r` goes with it.
pub open spec fn edge_pull(
    before: Seq<Exchange>,
    after: Seq<Exchange>,
    cursor: Handle,
    r: Result<Option<(EdgeUid, String, Vec<FieldData>)>>,
) -> bool {
    let n = before.len() as int;
    match r {
        Ok(None) => ended(before, after, cursor),
        Ok(Some(item)) => {
            &&& began(before, after, cursor, 5)
            &&& asked(after, n + 1, cursor, Op::GetUid, Shape::Uid)
            &&& uid_read(Ok(item.0), after[n + 1].answer)
            &&& asked(after, n + 2, cursor, Op::GetLabel, Shape::Text)
            &&& text_read(Ok(item.1), after[n + 2].answer)
            &&& asked(after, n + 3, cursor, Op::GetAllFields, Shape::NamedFields)
            &&& values_read(Ok(item.2), after[n + 3].answer)
            &&& asked(after, n + 4, cursor, Op::Next, Shape::Flag)
        },
        Err(e) => {
            ||| {
                &&& began(before, after, cursor, 2)
                &&& asked(after, n + 1, cursor, Op::GetUid, Shape::Uid)
                &&& uid_read(Err(e), after[n + 1].answer)
            }
            ||| {
                &&& began(before, after, cursor, 3)
                &&& asked(after, n + 1, cursor, Op::GetUid, Shape::Uid)
                &&& exists|first: EdgeUid| uid_read(Ok(first), #[trigger] after[n + 1].answer)
                &&& asked(after, n + 2, cursor, Op::GetLabel, Shape::Text)
                &&& text_read(Err(e), after[n + 2].answer)
            }
            ||| {
                &&& began(before, after, cursor, 4)
                &&& asked(after, n + 1, cursor, Op::GetUid, Shape::Uid)
                &&& exists|first: EdgeUid| uid_read(Ok(first), #[trigger] after[n + 1].answer)
                &&& asked(after, n + 2, cursor, Op::GetLabel, Shape::Text)
                &&& after[n + 2].answer is Text
                &&& asked(after, n + 3, cursor, Op::GetAllFields, Shape::NamedFields)
                &&& values_read(Err(e), after[n + 3].answer)
            }
        },
    }
}

/// Pulls an edge with its key, its label and the values of its fields.
pub fn pull_edge<E: Engine>(engine: &mut E, cursor: Handle) -> (r: Result<
    Option<(EdgeUid, String, Vec<FieldData>)>,
>)
    ensures
        edge_pull(old(engine).trace(), final(engine).trace(), cursor, r),
{
    let ghost n = engine.trace().len() as int;
    if !at_element(engine, cursor) {
        return Ok(None);
    }
    let first = match get_uid(engine, cursor, Op::GetUid) {
        Ok(first) => first,
        Err(e) => {
            return Err(e);
        },
    };
    assert(uid_read(Ok(first), engine.trace()[n + 1].answer));
    let label = match get_text(engine, cursor, Op::GetLabel) {
        Ok(label) => label,
        Err(e) => {
            assert(uid_read(Ok(first), engine.trace()[n + 1].answer));
            return Err(e);
        },
    };
    match get_values(engine, cursor, Op::GetAllFields) {
        Ok(values) => {
            step_on(engine, cursor);
            Ok(Some((first, label, values)))
        },
        Err(e) => {
            assert(uid_read(Ok(first), engine.trace()[n + 1].answer));
            Err(e)
        },
    }
}

/// What a pull of the id of a vertex and the value that the index holds for it
/// does to the trace, and how its result `r` goes with it.
pub open spec fn indexed_vertex_pull(
    before: Seq<Exchange>,
    after: Seq<Exchange>,
    cursor: Handle,
    r: Result<Option<(i64, FieldData)>>,
) -> bool {
    let n = before.len() as int;
    match r {
        Ok(None) => ended(before, after, cursor),
        Ok(Some(item)) => {
            &&& began(before, after, cursor, 4)
            &&& asked(after, n + 1, cursor, Op::GetId, Shape::Int)
            &&& int_read(Ok(item.0), after[n + 1].answer)
            &&& asked(after, n + 2, cursor, Op::GetIndexValue, Shape::Field)
            &&& field_read(Ok(item.1), after[n + 2].answer)
            &&& asked(after, n + 3, cursor, Op::Next, Shape::Flag)
        },
        Err(e) => {
            ||| {
                &&& began(before, after, cursor, 2)
                &&& asked(after, n + 1, cursor, Op::GetId, Shape::Int)
                &&& int_read(Err(e), after[n + 1].answer)
            }
            ||| {
                &&& began(before, after, cursor, 3)
                &&& asked(after, n + 1, cursor, Op::GetId, Shape::Int)
                &&& exists|first: i64| int_read(Ok(first), #[trigger] after[n + 1].answer)
                &&& asked(after, n + 2, cursor, Op::GetIndexValue, Shape::Field)
                &&& field_read(Err(e), after[n + 2].answer)
            }
        },
    }
}

/// Pulls the id of a vertex and the value that the index holds for it.
pub fn pull_indexed_vertex<E: Engine>(engine: &mut E, cursor: Handle) -> (
    r: Result<Option<(i64, FieldData)>>
)
    ensures
        indexed_vertex_pull(old(engine).trace(), final(engine).trace(), cursor, r),
{
    let ghost n = engine.trace().len() as int;
    if !at_element(engine, cursor) {
        return Ok(None);
    }
    let first = match get_int(engine, cursor, Op::GetId) {
        Ok(first) => first,
        Err(e) => {
            return Err(e);
        },
    };
    let ghost answer = engine.trace()[n + 1].answer;
    assert(int_read(Ok(first), answer));
    match get_value(engine, cursor, Op::GetIndexValue) {
        Ok(value) => {
            step_on(engine, cursor);
            Ok(Some((first, value)))
        },
        Err(e) => {
            assert(int_read(Ok(first), engine.trace()[n + 1].answer));
            Err(e)
        },
    }
}

/// What a pull of the key of an edge and the value that the index holds for it
/// does to the trace, and how its result `r` goes with it.
pub open spec fn indexed_edge_pull(
    before: Seq<Exchange>,
    after: Seq<Exchange>,
    cursor: Handle,
    r: Result<Option<(EdgeUid, FieldData)>>,
) -> bool {
    let n = before.len() as int;
    match r {
        Ok(None) => ended(before, after, cursor),
        Ok(Some(item)) => {
            &&& began(before, after, cursor, 4)
            &&& asked(after, n + 1, cursor, Op::GetUid, Shape::Uid)
            &&& uid_read(Ok(item.0), after[n + 1].answer)
            &&& asked(after, n + 2, cursor, Op::GetIndexValue, Shape::Field)
            &&& field_read(Ok(item.1), after[n + 2].answer)
            &&& asked(after, n + 3, cursor, Op::Next, Shape::Flag)
        },
        Err(e) => {
            ||| {
                &&& began(before, after, cursor, 2)
                &&& asked(after, n + 1, cursor, Op::GetUid, Shape::Uid)
                &&& uid_read(Err(e), after[n + 1].answer)
            }
            ||| {
                &&& began(before, after, cursor, 3)
                &&& asked(after, n + 1, cursor, Op::GetUid, Shape::Uid)
                &&& exists|first: EdgeUid| uid_read(Ok(first), #[trigger] after[n + 1].answer)
                &&& asked(after, n + 2, cursor, Op::GetIndexValue, Shape::Field)
                &&& field_read(Err(e), after[n + 2].answer)
            }
        },
    }
}

/// Pulls the key of an edge and the value that the index holds for it.
pub fn pull_indexed_edge<E: Engine>(engine: &mut E, cursor: Handle) -> (
    r: Result<Option<(EdgeUid, FieldData)>>
)
    ensures
        indexed_edge_pull(old(engine).trace(), final(engine).trace(), cursor, r),
{
    let ghost n = engine.trace().len() as int;
    if !at_element(engine, cursor) {
        return Ok(None);
    }
    let first = match get_uid(engine, cursor, Op::GetUid) {
        Ok(first) => first,
        Err(e) => {
            return Err(e);
        },
    };
    let ghost answer = engine.trace()[n + 1].answer;
    assert(uid_read(Ok(first), answer));
    match get_value(engine, cursor, Op::GetIndexValue) {
        Ok(value) => {
            step_on(engine, cursor);
            Ok(Some((first, value)))
        },
        Err(e) => {
            assert(uid_read(Ok(first), engine.trace()[n + 1].answer));
            Err(e)
        },
    }
}

/// The vertices from a cursor on, each with its id, its label and the values
/// of its fields.
#[must_use]
pub struct IntoVertexIter<T> {
    cursor: T,
    source: Handle,
}

impl<T> IntoVertexIter<T> {
    /// The engine object of the cursor that the sequence is pulled from.
    pub closed spec fn source(&self) -> Handle {
        self.source
    }

    /// The cursor that the sequence is pulled from.
    pub closed spec fn cursor(&self) -> T {
        self.cursor
    }

    /// The sequence that is pulled from `cursor`, which must be the cursor
    /// that the engine object `source` is.
    pub fn new(cursor: T, source: Handle) -> (pulls: IntoVertexIter<T>)
        ensures
            pulls.source() == source,
            pulls.cursor() == cursor,
    {
        IntoVertexIter { cursor, source }
    }

    /// The cursor, for it to be given up.
    pub fn into_cursor(self) -> (cursor: T)
        ensures
            cursor == self.cursor(),
    {
        self.cursor
    }

    /// The next of the sequence, or nothing where it has ended.
    pub fn next<E: Engine>(&mut self, engine: &mut E) -> (
        r: Result<Option<(i64, String, Vec<FieldData>)>>
    )
        ensures
            vertex_pull(old(engine).trace(), final(engine).trace(), old(self).source(), r),
            final(self).source() == old(self).source(),
            final(self).cursor() == old(self).cursor(),
    {
        pull_vertex(engine, self.source)
    }
}

/// The ids of the vertices from a cursor on.
#[must_use]
pub struct IntoVertexIds<T> {
    cursor: T,
    source: Handle,
}

impl<T> IntoVertexIds<T> {
    /// The engine object of the cursor that the sequence is pulled from.
    pub closed spec fn source(&self) -> Handle {
        self.source
    }

    /// The cursor that the sequence is pulled from.
    pub closed spec fn cursor(&self) -> T {
        self.cursor
    }

    /// The sequence that is pulled from `cursor`, which must be the cursor
    /// that the engine object `source` is.
    pub fn new(cursor: T, source: Handle) -> (pulls: IntoVertexIds<T>)
        ensures
            pulls.source() == source,
            pulls.cursor() == cursor,
    {
        IntoVertexIds { cursor, source }
    }

    /// The cursor, for it to be given up.
    pub fn into_cursor(self) -> (cursor: T)
        ensures
            cursor == self.cursor(),
    {
        self.cursor
    }

    /// The next of the sequence, or nothing where it has ended.
    pub fn next<E: Engine>(&mut self, engine: &mut E) -> (r: Result<Option<i64>>)
        ensures
            int_pull(old(engine).trace(), final(engine).trace(), old(self).source(), Op::GetId, r),
            final(self).source() == old(self).source(),
            final(self).cursor() == old(self).cursor(),
    {
        pull_int(engine, self.source, Op::GetId)
    }
}

/// The label ids of the vertices from a cursor on.
#[must_use]
pub struct IntoVertexLabelIds<T> {
    cursor: T,
    source: Handle,
}

impl<T> IntoVertexLabelIds<T> {
    /// The engine object of the cursor that the sequence is pulled from.
    pub closed spec fn source(&self) -> Handle {
        self.source
    }

    /// The cursor that the sequence is pulled from.
    pub closed spec fn cursor(&self) -> T {
        self.cursor
    }

    /// The sequence that is pulled from `cursor`, which must be the cursor
    /// that the engine object `source` is.
    pub fn new(cursor: T, source: Handle) -> (pulls: IntoVertexLabelIds<T>)
        ensures
            pulls.source() == source,
            pulls.cursor() == cursor,
    {
        IntoVertexLabelIds { cursor, source }
    }

    /// The cursor, for it to be given up.
    pub fn into_cursor(self) -> (cursor: T)
        ensures
            cursor == self.cursor(),
    {
        self.cursor
    }

    /// The next of the sequence, or nothing where it has ended.
    pub fn next<E: Engine>(&mut self, engine: &mut E) -> (r: Result<Option<u16>>)
        ensures
            short_pull(
                old(engine).trace(),
                final(engine).trace(),
                old(self).source(),
                Op::GetLabelId,
                r,
            ),
            final(self).source() == old(self).source(),
            final(self).cursor() == old(self).cursor(),
    {
        pull_short(engine, self.source, Op::GetLabelId)
    }
}

/// The labels of the vertices from a cursor on.
#[must_use]
pub struct IntoVertexLabels<T> {
    cursor: T,
    source: Handle,
}

impl<T> IntoVertexLabels<T> {
    /// The engine object of the cursor that the sequence is pulled from.
    pub closed spec fn source(&self) -> Handle {
        self.source
    }

    /// The cursor that the sequence is pulled from.
    pub closed spec fn cursor(&self) -> T {
        self.cursor
    }

    /// The sequence that is pulled from `cursor`, which must be the cursor
    /// that the engine object `source` is.
    pub fn new(cursor: T, source: Handle) -> (pulls: IntoVertexLabels<T>)
        ensures
            pulls.source() == source,
            pulls.cursor() == cursor,
    {
        IntoVertexLabels { cursor, source }
    }

    /// The cursor, for it to be given up.
    pub fn into_cursor(self) -> (cursor: T)
        ensures
            cursor == self.cursor(),
    {
        self.cursor
    }

    /// The next of the sequence, or nothing where it has ended.
    pub fn next<E: Engine>(&mut self, engine: &mut E) -> (r: Result<Option<String>>)
        ensures
            text_pull(
                old(engine).trace(),
                final(engine).trace(),
                old(self).source(),
                Op::GetLabel,
                r,
            ),
            final(self).source() == old(self).source(),
            final(self).cursor() == old(self).cursor(),
    {
        pull_text(engine, self.source, Op::GetLabel)
    }
}

/// The field values of the vertices from a cursor on.
#[must_use]
pub struct IntoVertexFields<T> {
    cursor: T,
    source: Handle,
}

impl<T> IntoVertexFields<T> {
    /// The engine object of the cursor that the sequence is pulled from.
    pub closed spec fn source(&self) -> Handle {
        self.source
    }

    /// The cursor that the sequence is pulled from.
    pub closed spec fn cursor(&self) -> T {
        self.cursor
    }

    /// The sequence that is pulled from `cursor`, which must be the cursor
    /// that the engine object `source` is.
    pub fn new(cursor: T, source: Handle) -> (pulls: IntoVertexFields<T>)
        ensures
            pulls.source() == source,
            pulls.cursor() == cursor,
    {
        IntoVertexFields { cursor, source }
    }

    /// The cursor, for it to be given up.
    pub fn into_cursor(self) -> (cursor: T)
        ensures
            cursor == self.cursor(),
    {
        self.cursor
    }

    /// The next of the sequence, or nothing where it has ended.
    pub fn next<E: Engine>(&mut self, engine: &mut E) -> (r: Result<Option<Vec<FieldData>>>)
        ensures
            values_pull(
                old(engine).trace(),
                final(engine).trace(),
                old(self).source(),
                Op::GetAllFields,
                r,
            ),
            final(self).source() == old(self).source(),
            final(self).cursor() == old(self).cursor(),
    {
        pull_values(engine, self.source, Op::GetAllFields)
    }
}

/// The edges from a cursor on, each with its key, its label and the values of
/// its fields.
#[must_use]
pub struct IntoEdgeIter<T> {
    cursor: T,
    source: Handle,
}

impl<T> IntoEdgeIter<T> {
    /// The engine object of the cursor that the sequence is pulled from.
    pub closed spec fn source(&self) -> Handle {
        self.source
    }

    /// The cursor that the sequence is pulled from.
    pub closed spec fn cursor(&self) -> T {
        self.cursor
    }

    /// The sequence that is pulled from `cursor`, which must be the cursor
    /// that the engine object `source` is.
    pub fn new(cursor: T, source: Handle) -> (pulls: IntoEdgeIter<T>)
        ensures
            pulls.source() == source,
            pulls.cursor() == cursor,
    {
        IntoEdgeIter { cursor, source }
    }

    /// The cursor, for it to be given up.
    pub fn into_cursor(self) -> (cursor: T)
        ensures
            cursor == self.cursor(),
    {
        self.cursor
    }

    /// The next of the sequence, or nothing where it has ended.
    pub fn next<E: Engine>(&mut self, engine: &mut E) -> (
        r: Result<Option<(EdgeUid, String, Vec<FieldData>)>>
    )
        ensures
            edge_pull(old(engine).trace(), final(engine).trace(), old(self).source(), r),
            final(self).source() == old(self).source(),
            final(self).cursor() == old(self).cursor(),
    {
        pull_edge(engine, self.source)
    }
}

/// The keys of the edges from a cursor on.
#[must_use]
pub struct IntoEdgeUids<T> {
    cursor: T,
    source: Handle,
}

impl<T> IntoEdgeUids<T> {
    /// The engine object of the cursor that the sequence is pulled from.
    pub closed spec fn source(&self) -> Handle {
        self.source
    }

    /// The cursor that the sequence is pulled from.
    pub closed spec fn cursor(&self) -> T {
        self.cursor
    }

    /// The sequence that is pulled from `cursor`, which must be the cursor
    /// that the engine object `source` is.
    pub fn new(cursor: T, source: Handle) -> (pulls: IntoEdgeUids<T>)
        ensures
            pulls.source() == source,
            pulls.cursor() == cursor,
    {
        IntoEdgeUids { cursor, source }
    }

    /// The cursor, for it to be given up.
    pub fn into_cursor(self) -> (cursor: T)
        ensures
            cursor == self.cursor(),
    {
        self.cursor
    }

    /// The next of the sequence, or nothing where it has ended.
    pub fn next<E: Engine>(&mut self, engine: &mut E) -> (r: Result<Option<EdgeUid>>)
        ensures
            uid_pull(old(engine).trace(), final(engine).trace(), old(self).source(), Op::GetUid, r),
            final(self).source() == old(self).source(),
            final(self).cursor() == old(self).cursor(),
    {
        pull_uid(engine, self.source, Op::GetUid)
    }
}

/// The source vertices of the edges from a cursor on.
#[must_use]
pub struct IntoEdgeSrcs<T> {
    cursor: T,
    source: Handle,
}

impl<T> IntoEdgeSrcs<T> {
    /// The engine object of the cursor that the sequence is pulled from.
    pub closed spec fn source(&self) -> Handle {
        self.source
    }

    /// The cursor that the sequence is pulled from.
    pub closed spec fn cursor(&self) -> T {
        self.cursor
    }

    /// The sequence that is pulled from `cursor`, which must be the cursor
    /// that the engine object `source` is.
    pub fn new(cursor: T, source: Handle) -> (pulls: IntoEdgeSrcs<T>)
        ensures
            pulls.source() == source,
            pulls.cursor() == cursor,
    {
        IntoEdgeSrcs { cursor, source }
    }

    /// The cursor, for it to be given up.
    pub fn into_cursor(self) -> (cursor: T)
        ensures
            cursor == self.cursor(),
    {
        self.cursor
    }

    /// The next of the sequence, or nothing where it has ended.
    pub fn next<E: Engine>(&mut self, engine: &mut E) -> (r: Result<Option<i64>>)
        ensures
            int_pull(old(engine).trace(), final(engine).trace(), old(self).source(), Op::GetSrc, r),
            final(self).source() == old(self).source(),
            final(self).cursor() == old(self).cursor(),
    {
        pull_int(engine, self.source, Op::GetSrc)
    }
}

/// The destination vertices of the edges from a cursor on.
#[must_use]
pub struct IntoEdgeDsts<T> {
    cursor: T,
    source: Handle,
}

impl<T> IntoEdgeDsts<T> {
    /// The engine object of the cursor that the sequence is pulled from.
    pub closed spec fn source(&self) -> Handle {
        self.source
    }

    /// The cursor that the sequence is pulled from.
    pub closed spec fn cursor(&self) -> T {
        self.cursor
    }

    /// The sequence that is pulled from `cursor`, which must be the cursor
    /// that the engine object `source` is.
    pub fn new(cursor: T, source: Handle) -> (pulls: IntoEdgeDsts<T>)
        ensures
            pulls.source() == source,
            pulls.cursor() == cursor,
    {
        IntoEdgeDsts { cursor, source }
    }

    /// The cursor, for it to be given up.
    pub fn into_cursor(self) -> (cursor: T)
        ensures
            cursor == self.cursor(),
    {
        self.cursor
    }

    /// The next of the sequence, or nothing where it has ended.
    pub fn next<E: Engine>(&mut self, engine: &mut E) -> (r: Result<Option<i64>>)
        ensures
            int_pull(old(engine).trace(), final(engine).trace(), old(self).source(), Op::GetDst, r),
            final(self).source() == old(self).source(),
            final(self).cursor() == old(self).cursor(),
    {
        pull_int(engine, self.source, Op::GetDst)
    }
}

/// The edge ids of the edges from a cursor on.
#[must_use]
pub struct IntoEdgeIds<T> {
    cursor: T,
    source: Handle,
}

impl<T> IntoEdgeIds<T> {
    /// The engine object of the cursor that the sequence is pulled from.
    pub closed spec fn source(&self) -> Handle {
        self.source
    }

    /// The cursor that the sequence is pulled from.
    pub closed spec fn cursor(&self) -> T {
        self.cursor
    }

    /// The sequence that is pulled from `cursor`, which must be the cursor
    /// that the engine object `source` is.
    pub fn new(cursor: T, source: Handle) -> (pulls: IntoEdgeIds<T>)
        ensures
            pulls.source() == source,
            pulls.cursor() == cursor,
    {
        IntoEdgeIds { cursor, source }
    }

    /// The cursor, for it to be given up.
    pub fn into_cursor(self) -> (cursor: T)
        ensures
            cursor == self.cursor(),
    {
        self.cursor
    }

    /// The next of the sequence, or nothing where it has ended.
    pub fn next<E: Engine>(&mut self, engine: &mut E) -> (r: Result<Option<i64>>)
        ensures
            int_pull(
                old(engine).trace(),
                final(engine).trace(),
                old(self).source(),
                Op::GetEdgeId,
                r,
            ),
            final(self).source() == old(self).source(),
            final(self).cursor() == old(self).cursor(),
    {
        pull_int(engine, self.source, Op::GetEdgeId)
    }
}

/// The temporal ids of the edges from a cursor on.
#[must_use]
pub struct IntoEdgeTemporalIds<T> {
    cursor: T,
    source: Handle,
}

impl<T> IntoEdgeTemporalIds<T> {
    /// The engine object of the cursor that the sequence is pulled from.
    pub closed spec fn source(&self) -> Handle {
        self.source
    }

    /// The cursor that the sequence is pulled from.
    pub closed spec fn cursor(&self) -> T {
        self.cursor
    }

    /// The sequence that is pulled from `cursor`, which must be the cursor
    /// that the engine object `source` is.
    pub fn new(cursor: T, source: Handle) -> (pulls: IntoEdgeTemporalIds<T>)
        ensures
            pulls.source() == source,
            pulls.cursor() == cursor,
    {
        IntoEdgeTemporalIds { cursor, source }
    }

    /// The cursor, for it to be given up.
    pub fn into_cursor(self) -> (cursor: T)
        ensures
            cursor == self.cursor(),
    {
        self.cursor
    }

    /// The next of the sequence, or nothing where it has ended.
    pub fn next<E: Engine>(&mut self, engine: &mut E) -> (r: Result<Option<i64>>)
        ensures
            int_pull(
                old(engine).trace(),
                final(engine).trace(),
                old(self).source(),
                Op::GetTemporalId,
                r,
            ),
            final(self).source() == old(self).source(),
            final(self).cursor() == old(self).cursor(),
    {
        pull_int(engine, self.source, Op::GetTemporalId)
    }
}

/// The label ids of the edges from a cursor on.
#[must_use]
pub struct IntoEdgeLabelIds<T> {
    cursor: T,
    source: Handle,
}

impl<T> IntoEdgeLabelIds<T> {
    /// The engine object of the cursor that the sequence is pulled from.
    pub closed spec fn source(&self) -> Handle {
        self.source
    }

    /// The cursor that the sequence is pulled from.
    pub closed spec fn cursor(&self) -> T {
        self.cursor
    }

    /// The sequence that is pulled from `cursor`, which must be the cursor
    /// that the engine object `source` is.
    pub fn new(cursor: T, source: Handle) -> (pulls: IntoEdgeLabelIds<T>)
        ensures
            pulls.source() == source,
            pulls.cursor() == cursor,
    {
        IntoEdgeLabelIds { cursor, source }
    }

    /// The cursor, for it to be given up.
    pub fn into_cursor(self) -> (cursor: T)
        ensures
            cursor == self.cursor(),
    {
        self.cursor
    }

    /// The next of the sequence, or nothing where it has ended.
    pub fn next<E: Engine>(&mut self, engine: &mut E) -> (r: Result<Option<u16>>)
        ensures
            short_pull(
                old(engine).trace(),
                final(engine).trace(),
                old(self).source(),
                Op::GetLabelId,
                r,
            ),
            final(self).source() == old(self).source(),
            final(self).cursor() == old(self).cursor(),
    {
        pull_short(engine, self.source, Op::GetLabelId)
    }
}

/// The labels of the edges from a cursor on.
#[must_use]
pub struct IntoEdgeLabels<T> {
    cursor: T,
    source: Handle,
}

impl<T> IntoEdgeLabels<T> {
    /// The engine object of the cursor that the sequence is pulled from.
    pub closed spec fn source(&self) -> Handle {
        self.source
    }

    /// The cursor that the sequence is pulled from.
    pub closed spec fn cursor(&self) -> T {
        self.cursor
    }

    /// The sequence that is pulled from `cursor`, which must be the cursor
    /// that the engine object `source` is.
    pub fn new(cursor: T, source: Handle) -> (pulls: IntoEdgeLabels<T>)
        ensures
            pulls.source() == source,
            pulls.cursor() == cursor,
    {
        IntoEdgeLabels { cursor, source }
    }

    /// The cursor, for it to be given up.
    pub fn into_cursor(self) -> (cursor: T)
        ensures
            cursor == self.cursor(),
    {
        self.cursor
    }

    /// The next of the sequence, or nothing where it has ended.
    pub fn next<E: Engine>(&mut self, engine: &mut E) -> (r: Result<Option<String>>)
        ensures
            text_pull(
                old(engine).trace(),
                final(engine).trace(),
                old(self).source(),
                Op::GetLabel,
                r,
            ),
            final(self).source() == old(self).source(),
            final(self).cursor() == old(self).cursor(),
    {
        pull_text(engine, self.source, Op::GetLabel)
    }
}

/// The field values of the edges from a cursor on.
#[must_use]
pub struct IntoEdgeFields<T> {
    cursor: T,
    source: Handle,
}

impl<T> IntoEdgeFields<T> {
    /// The engine object of the cursor that the sequence is pulled from.
    pub closed spec fn source(&self) -> Handle {
        self.source
    }

    /// The cursor that the sequence is pulled from.
    pub closed spec fn cursor(&self) -> T {
        self.cursor
    }

    /// The sequence that is pulled from `cursor`, which must be the cursor
    /// that the engine object `source` is.
    pub fn new(cursor: T, source: Handle) -> (pulls: IntoEdgeFields<T>)
        ensures
            pulls.source() == source,
            pulls.cursor() == cursor,
    {
        IntoEdgeFields { cursor, source }
    }

    /// The cursor, for it to be given up.
    pub fn into_cursor(self) -> (cursor: T)
        ensures
            cursor == self.cursor(),
    {
        self.cursor
    }

    /// The next of the sequence, or nothing where it has ended.
    pub fn next<E: Engine>(&mut self, engine: &mut E) -> (r: Result<Option<Vec<FieldData>>>)
        ensures
            values_pull(
                old(engine).trace(),
                final(engine).trace(),
                old(self).source(),
                Op::GetAllFields,
                r,
            ),
            final(self).source() == old(self).source(),
            final(self).cursor() == old(self).cursor(),
    {
        pull_values(engine, self.source, Op::GetAllFields)
    }
}

/// The vertices that an index holds between two values, in the order of the
/// index, each with its id and the value that the index holds for it. It
/// borrows its transaction, so it cannot outlive it.
#[must_use]
pub struct VertexIndexIter<'txn> {
    handle: Handle,
    owner: PhantomData<&'txn ()>,
    thread: PhantomData<std::rc::Rc<()>>,
}

impl<'txn> VertexIndexIter<'txn> {
    /// The engine object that the sequence is pulled from.
    pub closed spec fn handle(&self) -> Handle {
        self.handle
    }

    /// The sequence that is pulled from the engine object `id`. The id must
    /// be one that the engine gave for an index iterator of this kind and
    /// that no other value holds.
    pub fn new(id: u64) -> (pulls: VertexIndexIter<'txn>)
        ensures
            pulls.handle() == (Handle { kind: Kind::VertexIndexIterator, id }),
    {
        VertexIndexIter {
            handle: Handle { kind: Kind::VertexIndexIterator, id },
            owner: PhantomData,
            thread: PhantomData,
        }
    }

    /// Gives the sequence up: has the engine close its iterator, then
    /// destroy it. The result is what the closing gave.
    pub fn close<E: Engine>(self, engine: &mut E) -> (r: Result<()>)
        ensures
            released(
                old(engine).trace(),
                final(engine).trace(),
                self.handle(),
                Op::Close,
                unit_outcome(r),
            ),
    {
        release(engine, self.handle, Op::Close)
    }

    /// The next of the sequence, or nothing where it has ended.
    pub fn next<E: Engine>(&mut self, engine: &mut E) -> (r: Result<Option<(i64, FieldData)>>)
        ensures
            indexed_vertex_pull(old(engine).trace(), final(engine).trace(), old(self).handle(), r),
            final(self).handle() == old(self).handle(),
    {
        pull_indexed_vertex(engine, self.handle)
    }
}

/// The ids of the vertices that an index holds between two values, in the
/// order of the index. It borrows its transaction, so it cannot outlive it.
#[must_use]
pub struct VertexIndexIds<'txn> {
    handle: Handle,
    owner: PhantomData<&'txn ()>,
    thread: PhantomData<std::rc::Rc<()>>,
}

impl<'txn> VertexIndexIds<'txn> {
    /// The engine object that the sequence is pulled from.
    pub closed spec fn handle(&self) -> Handle {
        self.handle
    }

    /// The sequence that is pulled from the engine object `id`. The id must
    /// be one that the engine gave for an index iterator of this kind and
    /// that no other value holds.
    pub fn new(id: u64) -> (pulls: VertexIndexIds<'txn>)
        ensures
            pulls.handle() == (Handle { kind: Kind::VertexIndexIterator, id }),
    {
        VertexIndexIds {
            handle: Handle { kind: Kind::VertexIndexIterator, id },
            owner: PhantomData,
            thread: PhantomData,
        }
    }

    /// Gives the sequence up: has the engine close its iterator, then
    /// destroy it. The result is what the closing gave.
    pub fn close<E: Engine>(self, engine: &mut E) -> (r: Result<()>)
        ensures
            released(
                old(engine).trace(),
                final(engine).trace(),
                self.handle(),
                Op::Close,
                unit_outcome(r),
            ),
    {
        release(engine, self.handle, Op::Close)
    }

    /// The next of the sequence, or nothing where it has ended.
    pub fn next<E: Engine>(&mut self, engine: &mut E) -> (r: Result<Option<i64>>)
        ensures
            int_pull(old(engine).trace(), final(engine).trace(), old(self).handle(), Op::GetId, r),
            final(self).handle() == old(self).handle(),
    {
        pull_int(engine, self.handle, Op::GetId)
    }
}

/// The values that an index on vertices holds between two values, in the
/// order of the index. It borrows its transaction, so it cannot outlive it.
#[must_use]
pub struct VertexIndexValues<'txn> {
    handle: Handle,
    owner: PhantomData<&'txn ()>,
    thread: PhantomData<std::rc::Rc<()>>,
}

impl<'txn> VertexIndexValues<'txn> {
    /// The engine object that the sequence is pulled from.
    pub closed spec fn handle(&self) -> Handle {
        self.handle
    }

    /// The sequence that is pulled from the engine object `id`. The id must
    /// be one that the engine gave for an index iterator of this kind and
    /// that no other value holds.
    pub fn new(id: u64) -> (pulls: VertexIndexValues<'txn>)
        ensures
            pulls.handle() == (Handle { kind: Kind::VertexIndexIterator, id }),
    {
        VertexIndexValues {
            handle: Handle { kind: Kind::VertexIndexIterator, id },
            owner: PhantomData,
            thread: PhantomData,
        }
    }

    /// Gives the sequence up: has the engine close its iterator, then
    /// destroy it. The result is what the closing gave.
    pub fn close<E: Engine>(self, engine: &mut E) -> (r: Result<()>)
        ensures
            released(
                old(engine).trace(),
                final(engine).trace(),
                self.handle(),
                Op::Close,
                unit_outcome(r),
            ),
    {
        release(engine, self.handle, Op::Close)
    }

    /// The next of the sequence, or nothing where it has ended.
    pub fn next<E: Engine>(&mut self, engine: &mut E) -> (r: Result<Option<FieldData>>)
        ensures
            value_pull(
                old(engine).trace(),
                final(engine).trace(),
                old(self).handle(),
                Op::GetIndexValue,
                r,
            ),
            final(self).handle() == old(self).handle(),
    {
        pull_value(engine, self.handle, Op::GetIndexValue)
    }
}

/// The edges that an index holds between two values, in the order of the index,
/// each with its key and the value that the index holds for it. It borrows its
/// transaction, so it cannot outlive it.
#[must_use]
pub struct EdgeIndexIter<'txn> {
    handle: Handle,
    owner: PhantomData<&'txn ()>,
    thread: PhantomData<std::rc::Rc<()>>,
}

impl<'txn> EdgeIndexIter<'txn> {
    /// The engine object that the sequence is pulled from.
    pub closed spec fn handle(&self) -> Handle {
        self.handle
    }

    /// The sequence that is pulled from the engine object `id`. The id must
    /// be one that the engine gave for an index iterator of this kind and
    /// that no other value holds.
    pub fn new(id: u64) -> (pulls: EdgeIndexIter<'txn>)
        ensures
            pulls.handle() == (Handle { kind: Kind::EdgeIndexIterator, id }),
    {
        EdgeIndexIter {
            handle: Handle { kind: Kind::EdgeIndexIterator, id },
            owner: PhantomData,
            thread: PhantomData,
        }
    }

    /// Gives the sequence up: has the engine close its iterator, then
    /// destroy it. The result is what the closing gave.
    pub fn close<E: Engine>(self, engine: &mut E) -> (r: Result<()>)
        ensures
            released(
                old(engine).trace(),
                final(engine).trace(),
                self.handle(),
                Op::Close,
                unit_outcome(r),
            ),
    {
        release(engine, self.handle, Op::Close)
    }

    /// The next of the sequence, or nothing where it has ended.
    pub fn next<E: Engine>(&mut self, engine: &mut E) -> (r: Result<Option<(EdgeUid, FieldData)>>)
        ensures
            indexed_edge_pull(old(engine).trace(), final(engine).trace(), old(self).handle(), r),
            final(self).handle() == old(self).handle(),
    {
        pull_indexed_edge(engine, self.handle)
    }
}

/// The keys of the edges that an index holds between two values, in the order
/// of the index. It borrows its transaction, so it cannot outlive it.
#[must_use]
pub struct EdgeIndexUids<'txn> {
    handle: Handle,
    owner: PhantomData<&'txn ()>,
    thread: PhantomData<std::rc::Rc<()>>,
}

impl<'txn> EdgeIndexUids<'txn> {
    /// The engine object that the sequence is pulled from.
    pub closed spec fn handle(&self) -> Handle {
        self.handle
    }

    /// The sequence that is pulled from the engine object `id`. The id must
    /// be one that the engine gave for an index iterator of this kind and
    /// that no other value holds.
    pub fn new(id: u64) -> (pulls: EdgeIndexUids<'txn>)
        ensures
            pulls.handle() == (Handle { kind: Kind::EdgeIndexIterator, id }),
    {
        EdgeIndexUids {
            handle: Handle { kind: Kind::EdgeIndexIterator, id },
            owner: PhantomData,
            thread: PhantomData,
        }
    }

    /// Gives the sequence up: has the engine close its iterator, then
    /// destroy it. The result is what the closing gave.
    pub fn close<E: Engine>(self, engine: &mut E) -> (r: Result<()>)
        ensures
            released(
                old(engine).trace(),
                final(engine).trace(),
                self.handle(),
                Op::Close,
                unit_outcome(r),
            ),
    {
        release(engine, self.handle, Op::Close)
    }

    /// The next of the sequence, or nothing where it has ended.
    pub fn next<E: Engine>(&mut self, engine: &mut E) -> (r: Result<Option<EdgeUid>>)
        ensures
            uid_pull(old(engine).trace(), final(engine).trace(), old(self).handle(), Op::GetUid, r),
            final(self).handle() == old(self).handle(),
    {
        pull_uid(engine, self.handle, Op::GetUid)
    }
}

/// The source vertices of the edges that an index holds between two values, in
/// the order of the index. It borrows its transaction, so it cannot outlive it.
#[must_use]
pub struct EdgeIndexSrcs<'txn> {
    handle: Handle,
    owner: PhantomData<&'txn ()>,
    thread: PhantomData<std::rc::Rc<()>>,
}

impl<'txn> EdgeIndexSrcs<'txn> {
    /// The engine object that the sequence is pulled from.
    pub closed spec fn handle(&self) -> Handle {
        self.handle
    }

    /// The sequence that is pulled from the engine object `id`. The id must
    /// be one that the engine gave for an index iterator of this kind and
    /// that no other value holds.
    pub fn new(id: u64) -> (pulls: EdgeIndexSrcs<'txn>)
        ensures
            pulls.handle() == (Handle { kind: Kind::EdgeIndexIterator, id }),
    {
        EdgeIndexSrcs {
            handle: Handle { kind: Kind::EdgeIndexIterator, id },
            owner: PhantomData,
            thread: PhantomData,
        }
    }

    /// Gives the sequence up: has the engine close its iterator, then
    /// destroy it. The result is what the closing gave.
    pub fn close<E: Engine>(self, engine: &mut E) -> (r: Result<()>)
        ensures
            released(
                old(engine).trace(),
                final(engine).trace(),
                self.handle(),
                Op::Close,
                unit_outcome(r),
            ),
    {
        release(engine, self.handle, Op::Close)
    }

    /// The next of the sequence, or nothing where it has ended.
    pub fn next<E: Engine>(&mut self, engine: &mut E) -> (r: Result<Option<i64>>)
        ensures
            int_pull(old(engine).trace(), final(engine).trace(), old(self).handle(), Op::GetSrc, r),
            final(self).handle() == old(self).handle(),
    {
        pull_int(engine, self.handle, Op::GetSrc)
    }
}

/// The destination vertices of the edges that an index holds between two
/// values, in the order of the index. It borrows its transaction, so it cannot
/// outlive it.
#[must_use]
pub struct EdgeIndexDsts<'txn> {
    handle: Handle,
    owner: PhantomData<&'txn ()>,
    thread: PhantomData<std::rc::Rc<()>>,
}

impl<'txn> EdgeIndexDsts<'txn> {
    /// The engine object that the sequence is pulled from.
    pub closed spec fn handle(&self) -> Handle {
        self.handle
    }

    /// The sequence that is pulled from the engine object `id`. The id must
    /// be one that the engine gave for an index iterator of this kind and
    /// that no other value holds.
    pub fn new(id: u64) -> (pulls: EdgeIndexDsts<'txn>)
        ensures
            pulls.handle() == (Handle { kind: Kind::EdgeIndexIterator, id }),
    {
        EdgeIndexDsts {
            handle: Handle { kind: Kind::EdgeIndexIterator, id },
            owner: PhantomData,
            thread: PhantomData,
        }
    }

    /// Gives the sequence up: has the engine close its iterator, then
    /// destroy it. The result is what the closing gave.
    pub fn close<E: Engine>(self, engine: &mut E) -> (r: Result<()>)
        ensures
            released(
                old(engine).trace(),
                final(engine).trace(),
                self.handle(),
                Op::Close,
                unit_outcome(r),
            ),
    {
        release(engine, self.handle, Op::Close)
    }

    /// The next of the sequence, or nothing where it has ended.
    pub fn next<E: Engine>(&mut self, engine: &mut E) -> (r: Result<Option<i64>>)
        ensures
            int_pull(old(engine).trace(), final(engine).trace(), old(self).handle(), Op::GetDst, r),
            final(self).handle() == old(self).handle(),
    {
        pull_int(engine, self.handle, Op::GetDst)
    }
}

/// The label ids of the edges that an index holds between two values, in the
/// order of the index. It borrows its transaction, so it cannot outlive it.
#[must_use]
pub struct EdgeIndexLabelIds<'txn> {
    handle: Handle,
    owner: PhantomData<&'txn ()>,
    thread: PhantomData<std::rc::Rc<()>>,
}

impl<'txn> EdgeIndexLabelIds<'txn> {
    /// The engine object that the sequence is pulled from.
    pub closed spec fn handle(&self) -> Handle {
        self.handle
    }

    /// The sequence that is pulled from the engine object `id`. The id must
    /// be one that the engine gave for an index iterator of this kind and
    /// that no other value holds.
    pub fn new(id: u64) -> (pulls: EdgeIndexLabelIds<'txn>)
        ensures
            pulls.handle() == (Handle { kind: Kind::EdgeIndexIterator, id }),
    {
        EdgeIndexLabelIds {
            handle: Handle { kind: Kind::EdgeIndexIterator, id },
            owner: PhantomData,
            thread: PhantomData,
        }
    }

    /// Gives the sequence up: has the engine close its iterator, then
    /// destroy it. The result is what the closing gave.
    pub fn close<E: Engine>(self, engine: &mut E) -> (r: Result<()>)
        ensures
            released(
                old(engine).trace(),
                final(engine).trace(),
                self.handle(),
                Op::Close,
                unit_outcome(r),
            ),
    {
        release(engine, self.handle, Op::Close)
    }

    /// The next of the sequence, or nothing where it has ended.
    pub fn next<E: Engine>(&mut self, engine: &mut E) -> (r: Result<Option<u16>>)
        ensures
            short_pull(
                old(engine).trace(),
                final(engine).trace(),
                old(self).handle(),
                Op::GetLabelId,
                r,
            ),
            final(self).handle() == old(self).handle(),
    {
        pull_short(engine, self.handle, Op::GetLabelId)
    }
}

/// The edge ids of the edges that an index holds between two values, in the
/// order of the index. It borrows its transaction, so it cannot outlive it.
#[must_use]
pub struct EdgeIndexEdgeIds<'txn> {
    handle: Handle,
    owner: PhantomData<&'txn ()>,
    thread: PhantomData<std::rc::Rc<()>>,
}

impl<'txn> EdgeIndexEdgeIds<'txn> {
    /// The engine object that the sequence is pulled from.
    pub closed spec fn handle(&self) -> Handle {
        self.handle
    }

    /// The sequence that is pulled from the engine object `id`. The id must
    /// be one that the engine gave for an index iterator of this kind and
    /// that no other value holds.
    pub fn new(id: u64) -> (pulls: EdgeIndexEdgeIds<'txn>)
        ensures
            pulls.handle() == (Handle { kind: Kind::EdgeIndexIterator, id }),
    {
        EdgeIndexEdgeIds {
            handle: Handle { kind: Kind::EdgeIndexIterator, id },
            owner: PhantomData,
            thread: PhantomData,
        }
    }

    /// Gives the sequence up: has the engine close its iterator, then
    /// destroy it. The result is what the closing gave.
    pub fn close<E: Engine>(self, engine: &mut E) -> (r: Result<()>)
        ensures
            released(
                old(engine).trace(),
                final(engine).trace(),
                self.handle(),
                Op::Close,
                unit_outcome(r),
            ),
    {
        release(engine, self.handle, Op::Close)
    }

    /// The next of the sequence, or nothing where it has ended.
    pub fn next<E: Engine>(&mut self, engine: &mut E) -> (r: Result<Option<i64>>)
        ensures
            int_pull(
                old(engine).trace(),
                final(engine).trace(),
                old(self).handle(),
                Op::GetEdgeId,
                r,
            ),
            final(self).handle() == old(self).handle(),
    {
        pull_int(engine, self.handle, Op::GetEdgeId)
    }
}

/// The values that an index on edges holds between two values, in the order
/// of the index. It borrows its transaction, so it cannot outlive it.
#[must_use]
pub struct EdgeIndexValues<'txn> {
    handle: Handle,
    owner: PhantomData<&'txn ()>,
    thread: PhantomData<std::rc::Rc<()>>,
}

impl<'txn> EdgeIndexValues<'txn> {
    /// The engine object that the sequence is pulled from.
    pub closed spec fn handle(&self) -> Handle {
        self.handle
    }

    /// The sequence that is pulled from the engine object `id`. The id must
    /// be one that the engine gave for an index iterator of this kind and
    /// that no other value holds.
    pub fn new(id: u64) -> (pulls: EdgeIndexValues<'txn>)
        ensures
            pulls.handle() == (Handle { kind: Kind::EdgeIndexIterator, id }),
    {
        EdgeIndexValues {
            handle: Handle { kind: Kind::EdgeIndexIterator, id },
            owner: PhantomData,
            thread: PhantomData,
        }
    }

    /// Gives the sequence up: has the engine close its iterator, then
    /// destroy it. The result is what the closing gave.
    pub fn close<E: Engine>(self, engine: &mut E) -> (r: Result<()>)
        ensures
            released(
                old(engine).trace(),
                final(engine).trace(),
                self.handle(),
                Op::Close,
                unit_outcome(r),
            ),
    {
        release(engine, self.handle, Op::Close)
    }

    /// The next of the sequence, or nothing where it has ended.
    pub fn next<E: Engine>(&mut self, engine: &mut E) -> (r: Result<Option<FieldData>>)
        ensures
            value_pull(
                old(engine).trace(),
                final(engine).trace(),
                old(self).handle(),
                Op::GetIndexValue,
                r,
            ),
            final(self).handle() == old(self).handle(),
    {
        pull_value(engine, self.handle, Op::GetIndexValue)
    }
}

} // verus!
