//! Cursors over edges.

use core::marker::PhantomData;
use vstd::prelude::*;

use crate::db::{release, released};
use crate::decode::{
    field_read, fields_read, named_fields_read, read_field, read_fields, read_named_fields,
    read_uid, uid_read,
};
use crate::engine::{
    ask_flag, ask_int, ask_short, ask_text, ask_unit, called, check, flag_outcome, int_outcome,
    sent, short_outcome, text_outcome, unit_outcome, AnswerView, Arg, ArgView, Engine, Handle,
    Kind, Op, Shape,
};
use crate::field::FieldData;
use crate::marshal::{
    all_sendable, args0, args1, args2, field_arg, fields_arg, raw_fields, sizes_arg, text_arg,
    texts_arg,
};
use crate::text::{all_c_safe, c_safe, texts_of};
use crate::types::EdgeUid;
use crate::Result;

use super::iter::{
    IntoEdgeDsts, IntoEdgeFields, IntoEdgeIds, IntoEdgeIter, IntoEdgeLabelIds, IntoEdgeLabels,
    IntoEdgeSrcs, IntoEdgeTemporalIds, IntoEdgeUids,
};

verus! {

/// What every cursor over edges can do: move, and read the edge that it is
/// at.
///
/// A cursor is at an edge or at none. Reading through a cursor that is at
/// none is an error of the engine.
pub trait EdgeCursor {
    /// The engine object that this cursor is.
    spec fn handle(&self) -> Handle;

    /// The engine object that this cursor is.
    fn as_raw(&self) -> (handle: Handle)
        ensures
            handle == self.handle(),
    ;

    /// Gives the cursor up: has the engine close it, then destroy it. The
    /// result is what the closing gave.
    fn close<E: Engine>(self, engine: &mut E) -> (r: Result<()>) where Self: Sized
        ensures
            released(
                old(engine).trace(),
                final(engine).trace(),
                self.handle(),
                Op::Close,
                unit_outcome(r),
            ),
    {
        release(engine, self.as_raw(), Op::Close)
    }

    /// The key of the edge that the cursor is at.
    fn uid<E: Engine>(&self, engine: &mut E) -> (r: Result<EdgeUid>)
        ensures
            called(
                old(engine).trace(),
                final(engine).trace(),
                self.handle(),
                Op::GetUid,
                Seq::<ArgView>::empty(),
                Shape::Uid,
            ),
            uid_read(r, final(engine).trace().last().answer),
    {
        read_uid(engine, self.as_raw(), Op::GetUid, args0())
    }

    /// The source vertex of the edge that the cursor is at.
    fn src<E: Engine>(&self, engine: &mut E) -> (r: Result<i64>)
        ensures
            sent(
                old(engine).trace(),
                final(engine).trace(),
                self.handle(),
                Op::GetSrc,
                Seq::<ArgView>::empty(),
                Shape::Int,
                int_outcome(r),
            ),
    {
        ask_int(engine, self.as_raw(), Op::GetSrc, args0())
    }

    /// The destination vertex of the edge that the cursor is at.
    fn dst<E: Engine>(&self, engine: &mut E) -> (r: Result<i64>)
        ensures
            sent(
                old(engine).trace(),
                final(engine).trace(),
                self.handle(),
                Op::GetDst,
                Seq::<ArgView>::empty(),
                Shape::Int,
                int_outcome(r),
            ),
    {
        ask_int(engine, self.as_raw(), Op::GetDst, args0())
    }

    /// The edge id of the edge that the cursor is at.
    fn eid<E: Engine>(&self, engine: &mut E) -> (r: Result<i64>)
        ensures
            sent(
                old(engine).trace(),
                final(engine).trace(),
                self.handle(),
                Op::GetEdgeId,
                Seq::<ArgView>::empty(),
                Shape::Int,
                int_outcome(r),
            ),
    {
        ask_int(engine, self.as_raw(), Op::GetEdgeId, args0())
    }

    /// The temporal id of the edge that the cursor is at.
    fn tid<E: Engine>(&self, engine: &mut E) -> (r: Result<i64>)
        ensures
            sent(
                old(engine).trace(),
                final(engine).trace(),
                self.handle(),
                Op::GetTemporalId,
                Seq::<ArgView>::empty(),
                Shape::Int,
                int_outcome(r),
            ),
    {
        ask_int(engine, self.as_raw(), Op::GetTemporalId, args0())
    }

    /// The label of the edge that the cursor is at.
    fn label<E: Engine>(&self, engine: &mut E) -> (r: Result<String>)
        ensures
            sent(
                old(engine).trace(),
                final(engine).trace(),
                self.handle(),
                Op::GetLabel,
                Seq::<ArgView>::empty(),
                Shape::Text,
                text_outcome(r),
            ),
    {
        ask_text(engine, self.as_raw(), Op::GetLabel, args0())
    }

    /// The id of the label of the edge that the cursor is at.
    fn lid<E: Engine>(&self, engine: &mut E) -> (r: Result<u16>)
        ensures
            sent(
                old(engine).trace(),
                final(engine).trace(),
                self.handle(),
                Op::GetLabelId,
                Seq::<ArgView>::empty(),
                Shape::Short,
                short_outcome(r),
            ),
    {
        ask_short(engine, self.as_raw(), Op::GetLabelId, args0())
    }

    /// Whether the cursor is at an edge. It is not after a seek that found
    /// none, after a step past the last one, and after the last one was
    /// deleted.
    fn is_valid<E: Engine>(&self, engine: &mut E) -> (out: bool)
        ensures
            sent(
                old(engine).trace(),
                final(engine).trace(),
                self.handle(),
                Op::IsValid,
                Seq::<ArgView>::empty(),
                Shape::Probe,
                AnswerView::Probe(out),
            ),
    {
        check(engine, self.as_raw(), Op::IsValid, args0())
    }

    /// Moves the cursor to the next edge in key order. The answer says
    /// whether there was one; where there was none the cursor is at none.
    fn seek_to_next<E: Engine>(&mut self, engine: &mut E) -> (r: Result<bool>)
        ensures
            sent(
                old(engine).trace(),
                final(engine).trace(),
                old(self).handle(),
                Op::Next,
                Seq::<ArgView>::empty(),
                Shape::Flag,
                flag_outcome(r),
            ),
            final(self).handle() == old(self).handle(),
    {
        ask_flag(engine, self.as_raw(), Op::Next, args0())
    }

    /// Moves the cursor to the edge with the key `euid`. Where there is none,
    /// the cursor goes to the edge with the least key above `euid` if
    /// `nearest` is set, and is at none if there is no such edge or `nearest`
    /// is not set. The answer says whether the cursor is at an edge.
    fn seek<E: Engine>(
        &mut self,
        engine: &mut E,
        euid: &EdgeUid,
        nearest: bool,
    ) -> (r: Result<bool>)
        ensures
            sent(
                old(engine).trace(),
                final(engine).trace(),
                old(self).handle(),
                Op::Goto,
                seq![ArgView::Uid(euid.as_raw_spec()), ArgView::Flag(nearest)],
                Shape::Flag,
                flag_outcome(r),
            ),
            final(self).handle() == old(self).handle(),
    {
        ask_flag(
            engine,
            self.as_raw(),
            Op::Goto,
            args2(Arg::Uid(euid.as_raw()), Arg::Flag(nearest)),
        )
    }

    /// The edges from the one that the cursor is at on, each with its key, its
    /// label and the values of its fields, pulled from this cursor one by one.
    /// Each pull moves the cursor on.
    fn into_edges(self) -> (pulls: IntoEdgeIter<Self>) where Self: Sized
        ensures
            pulls.source() == self.handle(),
            pulls.cursor() == self,
    {
        let source = self.as_raw();
        IntoEdgeIter::new(self, source)
    }

    /// The keys of the edges from the one that the cursor is at on, pulled from
    /// this cursor one by one. Each pull moves the cursor on.
    fn into_edge_uids(self) -> (pulls: IntoEdgeUids<Self>) where Self: Sized
        ensures
            pulls.source() == self.handle(),
            pulls.cursor() == self,
    {
        let source = self.as_raw();
        IntoEdgeUids::new(self, source)
    }

    /// The source vertices of the edges from the one that the cursor is at on,
    /// pulled from this cursor one by one. Each pull moves the cursor on.
    fn into_edge_srcs(self) -> (pulls: IntoEdgeSrcs<Self>) where Self: Sized
        ensures
            pulls.source() == self.handle(),
            pulls.cursor() == self,
    {
        let source = self.as_raw();
        IntoEdgeSrcs::new(self, source)
    }

    /// The destination vertices of the edges from the one that the cursor is at
    /// on, pulled from this cursor one by one. Each pull moves the cursor on.
    fn into_edge_dsts(self) -> (pulls: IntoEdgeDsts<Self>) where Self: Sized
        ensures
            pulls.source() == self.handle(),
            pulls.cursor() == self,
    {
        let source = self.as_raw();
        IntoEdgeDsts::new(self, source)
    }

    /// The edge ids of the edges from the one that the cursor is at on, pulled
    /// from this cursor one by one. Each pull moves the cursor on.
    fn into_edge_eids(self) -> (pulls: IntoEdgeIds<Self>) where Self: Sized
        ensures
            pulls.source() == self.handle(),
            pulls.cursor() == self,
    {
        let source = self.as_raw();
        IntoEdgeIds::new(self, source)
    }

    /// The temporal ids of the edges from the one that the cursor is at on,
    /// pulled from this cursor one by one. Each pull moves the cursor on.
    fn into_edge_tids(self) -> (pulls: IntoEdgeTemporalIds<Self>) where Self: Sized
        ensures
            pulls.source() == self.handle(),
            pulls.cursor() == self,
    {
        let source = self.as_raw();
        IntoEdgeTemporalIds::new(self, source)
    }

    /// The label ids of the edges from the one that the cursor is at on, pulled
    /// from this cursor one by one. Each pull moves the cursor on.
    fn into_edge_lids(self) -> (pulls: IntoEdgeLabelIds<Self>) where Self: Sized
        ensures
            pulls.source() == self.handle(),
            pulls.cursor() == self,
    {
        let source = self.as_raw();
        IntoEdgeLabelIds::new(self, source)
    }

    /// The labels of the edges from the one that the cursor is at on, pulled
    /// from this cursor one by one. Each pull moves the cursor on.
    fn into_edge_labels(self) -> (pulls: IntoEdgeLabels<Self>) where Self: Sized
        ensures
            pulls.source() == self.handle(),
            pulls.cursor() == self,
    {
        let source = self.as_raw();
        IntoEdgeLabels::new(self, source)
    }

    /// The field values of the edges from the one that the cursor is at on,
    /// pulled from this cursor one by one. Each pull moves the cursor on.
    fn into_edge_fields(self) -> (pulls: IntoEdgeFields<Self>) where Self: Sized
        ensures
            pulls.source() == self.handle(),
            pulls.cursor() == self,
    {
        let source = self.as_raw();
        IntoEdgeFields::new(self, source)
    }

    /// Seeks as [`EdgeCursor::seek`] does and then hands the edges out as
    /// [`EdgeCursor::into_edges`] does. Where the seek fails the cursor is
    /// given up with the error, unclosed.
    fn into_edges_from<E: Engine>(
        self,
        engine: &mut E,
        euid: &EdgeUid,
        nearest: bool,
    ) -> (r: Result<IntoEdgeIter<Self>>) where Self: Sized
        ensures
            called(
                old(engine).trace(),
                final(engine).trace(),
                self.handle(),
                Op::Goto,
                seq![ArgView::Uid(euid.as_raw_spec()), ArgView::Flag(nearest)],
                Shape::Flag,
            ),
            match r {
                Ok(pulls) => pulls.source() == self.handle()
                    && final(engine).trace().last().answer is Flag,
                Err(e) => final(engine).trace().last().answer == AnswerView::Failure(e@),
            },
    {
        let mut cursor = self;
        let ghost before = engine.trace();
        let sought = cursor.seek(engine, euid, nearest);
        proof {
            crate::engine::lemma_sent_called(
                before,
                engine.trace(),
                cursor.handle(),
                Op::Goto,
                seq![ArgView::Uid(euid.as_raw_spec()), ArgView::Flag(nearest)],
                Shape::Flag,
                flag_outcome(sought),
            );
        }
        match sought {
            Ok(_) => {
                let source = cursor.as_raw();
                Ok(IntoEdgeIter::new(cursor, source))
            },
            Err(e) => Err(e),
        }
    }

    /// The value of the field `name` of the edge that the cursor is at.
    fn field<E: Engine>(&self, engine: &mut E, name: &str) -> (r: Result<FieldData>)
        requires
            c_safe(name@),
        ensures
            called(
                old(engine).trace(),
                final(engine).trace(),
                self.handle(),
                Op::GetFieldByName,
                seq![ArgView::Text(name@)],
                Shape::Field,
            ),
            field_read(r, final(engine).trace().last().answer),
    {
        read_field(engine, self.as_raw(), Op::GetFieldByName, args1(text_arg(name)))
    }

    /// The values of the fields `names` of the edge that the cursor is at, in
    /// the order of `names`.
    fn fields<E: Engine>(&self, engine: &mut E, names: &[&str]) -> (r: Result<Vec<FieldData>>)
        requires
            all_c_safe(texts_of(names@)),
        ensures
            called(
                old(engine).trace(),
                final(engine).trace(),
                self.handle(),
                Op::GetFieldsByNames,
                seq![ArgView::Texts(texts_of(names@))],
                Shape::Fields,
            ),
            fields_read(r, final(engine).trace().last().answer),
    {
        read_fields(engine, self.as_raw(), Op::GetFieldsByNames, args1(texts_arg(names)))
    }

    /// The value of the field with the id `id` of the edge that the cursor is
    /// at.
    fn field_by_id<E: Engine>(&self, engine: &mut E, id: usize) -> (r: Result<FieldData>)
        ensures
            called(
                old(engine).trace(),
                final(engine).trace(),
                self.handle(),
                Op::GetFieldById,
                seq![ArgView::Size(id)],
                Shape::Field,
            ),
            field_read(r, final(engine).trace().last().answer),
    {
        read_field(engine, self.as_raw(), Op::GetFieldById, args1(Arg::Size(id)))
    }

    /// The values of the fields with the ids `ids` of the edge that the
    /// cursor is at, in the order of `ids`.
    fn fields_by_ids<E: Engine>(&self, engine: &mut E, ids: &[usize]) -> (r: Result<Vec<FieldData>>)
        ensures
            called(
                old(engine).trace(),
                final(engine).trace(),
                self.handle(),
                Op::GetFieldsByIds,
                seq![ArgView::Sizes(ids@)],
                Shape::Fields,
            ),
            fields_read(r, final(engine).trace().last().answer),
    {
        read_fields(engine, self.as_raw(), Op::GetFieldsByIds, args1(sizes_arg(ids)))
    }

    /// All fields of the edge that the cursor is at, each with its name.
    fn all_fields<E: Engine>(&self, engine: &mut E) -> (r: Result<Vec<(String, FieldData)>>)
        ensures
            called(
                old(engine).trace(),
                final(engine).trace(),
                self.handle(),
                Op::GetAllFields,
                Seq::<ArgView>::empty(),
                Shape::NamedFields,
            ),
            named_fields_read(r, final(engine).trace().last().answer),
    {
        read_named_fields(engine, self.as_raw(), Op::GetAllFields, args0())
    }
}

/// What a cursor over edges in a read-write transaction can do besides:
/// change the edge that it is at.
pub trait EdgeCursorMut: EdgeCursor {
    /// Gives the field `name` of the edge that the cursor is at the value
    /// `value`.
    fn set_field<E: Engine>(&self, engine: &mut E, name: &str, value: &FieldData) -> (r: Result<()>)
        requires
            c_safe(name@),
            value@.sendable(),
        ensures
            sent(
                old(engine).trace(),
                final(engine).trace(),
                self.handle(),
                Op::SetFieldByName,
                seq![ArgView::Text(name@), ArgView::Field(value@.raw())],
                Shape::Unit,
                unit_outcome(r),
            ),
    {
        ask_unit(engine, self.as_raw(), Op::SetFieldByName, args2(text_arg(name), field_arg(value)))
    }

    /// Gives the field with the id `id` of the edge that the cursor is at the
    /// value `value`.
    fn set_field_by_id<E: Engine>(
        &self,
        engine: &mut E,
        id: usize,
        value: &FieldData,
    ) -> (r: Result<()>)
        requires
            value@.sendable(),
        ensures
            sent(
                old(engine).trace(),
                final(engine).trace(),
                self.handle(),
                Op::SetFieldById,
                seq![ArgView::Size(id), ArgView::Field(value@.raw())],
                Shape::Unit,
                unit_outcome(r),
            ),
    {
        ask_unit(engine, self.as_raw(), Op::SetFieldById, args2(Arg::Size(id), field_arg(value)))
    }

    /// Gives the fields `names` of the edge that the cursor is at the values
    /// `values`.
    fn set_fields<E: Engine>(
        &self,
        engine: &mut E,
        names: &[&str],
        values: &[FieldData],
    ) -> (r: Result<()>)
        requires
            all_c_safe(texts_of(names@)),
            all_sendable(values@),
        ensures
            sent(
                old(engine).trace(),
                final(engine).trace(),
                self.handle(),
                Op::SetFieldsByData,
                seq![
                    ArgView::Texts(texts_of(names@)),
                    ArgView::Fields(raw_fields(values@)),
                ],
                Shape::Unit,
                unit_outcome(r),
            ),
    {
        ask_unit(
            engine,
            self.as_raw(),
            Op::SetFieldsByData,
            args2(texts_arg(names), fields_arg(values)),
        )
    }

    /// Gives the fields with the ids `ids` of the edge that the cursor is at
    /// the values `values`.
    fn set_fields_by_ids<E: Engine>(
        &self,
        engine: &mut E,
        ids: &[usize],
        values: &[FieldData],
    ) -> (r: Result<()>)
        requires
            all_sendable(values@),
        ensures
            sent(
                old(engine).trace(),
                final(engine).trace(),
                self.handle(),
                Op::SetFieldsByIds,
                seq![ArgView::Sizes(ids@), ArgView::Fields(raw_fields(values@))],
                Shape::Unit,
                unit_outcome(r),
            ),
    {
        ask_unit(
            engine,
            self.as_raw(),
            Op::SetFieldsByIds,
            args2(sizes_arg(ids), fields_arg(values)),
        )
    }

    /// Deletes the edge that the cursor is at; the cursor is then where a
    /// step to the next edge would have put it.
    fn delete<E: Engine>(&self, engine: &mut E) -> (r: Result<()>)
        ensures
            sent(
                old(engine).trace(),
                final(engine).trace(),
                self.handle(),
                Op::Delete,
                Seq::<ArgView>::empty(),
                Shape::Unit,
                unit_outcome(r),
            ),
    {
        ask_unit(engine, self.as_raw(), Op::Delete, args0())
    }
}

/// A cursor over the edges that leave a vertex. It borrows the cursor that
/// it was made from, so it cannot outlive it.
pub struct OutEdgeCur<'v> {
    handle: Handle,
    owner: PhantomData<&'v ()>,
    thread: PhantomData<std::rc::Rc<()>>,
}

impl<'v> OutEdgeCur<'v> {
    /// The cursor that the engine object `id` is. The id must be one that
    /// the engine gave for a cursor of this kind and that no other value
    /// holds.
    pub fn new(id: u64) -> (cursor: OutEdgeCur<'v>)
        ensures
            cursor.handle() == (Handle { kind: Kind::OutEdgeIterator, id }),
    {
        OutEdgeCur {
            handle: Handle { kind: Kind::OutEdgeIterator, id },
            owner: PhantomData,
            thread: PhantomData,
        }
    }
}

impl<'v> EdgeCursor for OutEdgeCur<'v> {
    closed spec fn handle(&self) -> Handle {
        self.handle
    }

    fn as_raw(&self) -> (handle: Handle) {
        self.handle
    }
}

/// A cursor over the edges that reach a vertex. It borrows the cursor that
/// it was made from, so it cannot outlive it.
pub struct InEdgeCur<'v> {
    handle: Handle,
    owner: PhantomData<&'v ()>,
    thread: PhantomData<std::rc::Rc<()>>,
}

impl<'v> InEdgeCur<'v> {
    /// The cursor that the engine object `id` is. The id must be one that
    /// the engine gave for a cursor of this kind and that no other value
    /// holds.
    pub fn new(id: u64) -> (cursor: InEdgeCur<'v>)
        ensures
            cursor.handle() == (Handle { kind: Kind::InEdgeIterator, id }),
    {
        InEdgeCur {
            handle: Handle { kind: Kind::InEdgeIterator, id },
            owner: PhantomData,
            thread: PhantomData,
        }
    }
}

impl<'v> EdgeCursor for InEdgeCur<'v> {
    closed spec fn handle(&self) -> Handle {
        self.handle
    }

    fn as_raw(&self) -> (handle: Handle) {
        self.handle
    }
}

/// A cursor over the edges that leave a vertex, through which they can be
/// changed.
pub struct OutEdgeCurMut<'v> {
    handle: Handle,
    owner: PhantomData<&'v mut ()>,
    thread: PhantomData<std::rc::Rc<()>>,
}

impl<'v> OutEdgeCurMut<'v> {
    /// The cursor that the engine object `id` is. The id must be one that
    /// the engine gave for a cursor of this kind and that no other value
    /// holds.
    pub fn new(id: u64) -> (cursor: OutEdgeCurMut<'v>)
        ensures
            cursor.handle() == (Handle { kind: Kind::OutEdgeIterator, id }),
    {
        OutEdgeCurMut {
            handle: Handle { kind: Kind::OutEdgeIterator, id },
            owner: PhantomData,
            thread: PhantomData,
        }
    }
}

impl<'v> EdgeCursor for OutEdgeCurMut<'v> {
    closed spec fn handle(&self) -> Handle {
        self.handle
    }

    fn as_raw(&self) -> (handle: Handle) {
        self.handle
    }
}

impl<'v> EdgeCursorMut for OutEdgeCurMut<'v> {
}

/// A cursor over the edges that reach a vertex, through which they can be
/// changed.
pub struct InEdgeCurMut<'v> {
    handle: Handle,
    owner: PhantomData<&'v mut ()>,
    thread: PhantomData<std::rc::Rc<()>>,
}

impl<'v> InEdgeCurMut<'v> {
    /// The cursor that the engine object `id` is. The id must be one that
    /// the engine gave for a cursor of this kind and that no other value
    /// holds.
    pub fn new(id: u64) -> (cursor: InEdgeCurMut<'v>)
        ensures
            cursor.handle() == (Handle { kind: Kind::InEdgeIterator, id }),
    {
        InEdgeCurMut {
            handle: Handle { kind: Kind::InEdgeIterator, id },
            owner: PhantomData,
            thread: PhantomData,
        }
    }
}

impl<'v> EdgeCursor for InEdgeCurMut<'v> {
    closed spec fn handle(&self) -> Handle {
        self.handle
    }

    fn as_raw(&self) -> (handle: Handle) {
        self.handle
    }
}

impl<'v> EdgeCursorMut for InEdgeCurMut<'v> {
}

} // verus!
