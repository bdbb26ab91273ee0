//! Cursors over vertices.

use core::marker::PhantomData;
use vstd::prelude::*;

use crate::db::{release, released};
use crate::decode::{
    field_read, fields_read, named_fields_read, read_field, read_fields, read_id,
    read_named_fields,
};
use crate::engine::{
    ask_flag, ask_flag_ints, ask_flag_size, ask_int, ask_short, ask_size_pair, ask_text, ask_unit,
    called, check, flag_ints_outcome, flag_outcome, flag_size_outcome, int_outcome, sent,
    short_outcome, size_pair_outcome, text_outcome, unit_outcome, AnswerView, Arg, ArgView,
    Engine, Handle, Kind, Op, Shape,
};
use crate::field::FieldData;
use crate::marshal::{
    all_sendable, args0, args1, args2, field_arg, fields_arg, raw_fields, sizes_arg, text_arg,
    texts_arg,
};
use crate::text::{all_c_safe, c_safe, texts_of};
use crate::Result;

use super::edge::EdgeCursor;
use super::edge::{InEdgeCur, InEdgeCurMut, OutEdgeCur, OutEdgeCurMut};
use super::iter::{
    IntoVertexFields, IntoVertexIds, IntoVertexIter, IntoVertexLabelIds, IntoVertexLabels,
};

verus! {

/// What every cursor over vertices can do: move, and read the vertex that it
/// is at.
///
/// A cursor is at a vertex or at none. Reading through a cursor that is at
/// none is an error of the engine.
pub trait VertexCursor {
    /// The engine object that this cursor is.
    spec fn handle(&self) -> Handle;

    /// The engine object that this cursor is.
    fn as_raw(&self) -> (handle: Handle)
        ensures
            handle == self.handle(),
    ;

    /// Gives the cursor up: has the engine close it, then destroy it. The
    /// result is what the closing gave.
    fn close<E: Engine>(self, engine: &mut E) -> (r: Result<()>) where Self: Sized
        ensures
            released(
                old(engine).trace(),
                final(engine).trace(),
                self.handle(),
                Op::Close,
                unit_outcome(r),
            ),
    {
        release(engine, self.as_raw(), Op::Close)
    }

    /// The id of the vertex that the cursor is at.
    fn id<E: Engine>(&self, engine: &mut E) -> (r: Result<i64>)
        ensures
            sent(
                old(engine).trace(),
                final(engine).trace(),
                self.handle(),
                Op::GetId,
                Seq::<ArgView>::empty(),
                Shape::Int,
                int_outcome(r),
            ),
    {
        ask_int(engine, self.as_raw(), Op::GetId, args0())
    }

    /// The label of the vertex that the cursor is at.
    fn label<E: Engine>(&self, engine: &mut E) -> (r: Result<String>)
        ensures
            sent(
                old(engine).trace(),
                final(engine).trace(),
                self.handle(),
                Op::GetLabel,
                Seq::<ArgView>::empty(),
                Shape::Text,
                text_outcome(r),
            ),
    {
        ask_text(engine, self.as_raw(), Op::GetLabel, args0())
    }

    /// The id of the label of the vertex that the cursor is at.
    fn lid<E: Engine>(&self, engine: &mut E) -> (r: Result<u16>)
        ensures
            sent(
                old(engine).trace(),
                final(engine).trace(),
                self.handle(),
                Op::GetLabelId,
                Seq::<ArgView>::empty(),
                Shape::Short,
                short_outcome(r),
            ),
    {
        ask_short(engine, self.as_raw(), Op::GetLabelId, args0())
    }

    /// Whether the cursor is at a vertex. It is not after a seek that found
    /// none, after a step past the last one, and after the last one was
    /// deleted.
    fn is_valid<E: Engine>(&self, engine: &mut E) -> (out: bool)
        ensures
            sent(
                old(engine).trace(),
                final(engine).trace(),
                self.handle(),
                Op::IsValid,
                Seq::<ArgView>::empty(),
                Shape::Probe,
                AnswerView::Probe(out),
            ),
    {
        check(engine, self.as_raw(), Op::IsValid, args0())
    }

    /// Moves the cursor to the next vertex in key order. The answer says
    /// whether there was one; where there was none the cursor is at none.
    fn seek_to_next<E: Engine>(&mut self, engine: &mut E) -> (r: Result<bool>)
        ensures
            sent(
                old(engine).trace(),
                final(engine).trace(),
                old(self).handle(),
                Op::Next,
                Seq::<ArgView>::empty(),
                Shape::Flag,
                flag_outcome(r),
            ),
            final(self).handle() == old(self).handle(),
    {
        ask_flag(engine, self.as_raw(), Op::Next, args0())
    }

    /// Moves the cursor to the vertex with the id `vid`. Where there is none,
    /// the cursor goes to the vertex with the least id above `vid` if
    /// `nearest` is set, and is at none if there is no such vertex or
    /// `nearest` is not set. The answer says whether the cursor is at a
    /// vertex.
    fn seek<E: Engine>(&mut self, engine: &mut E, vid: i64, nearest: bool) -> (r: Result<bool>)
        ensures
            sent(
                old(engine).trace(),
                final(engine).trace(),
                old(self).handle(),
                Op::Goto,
                seq![ArgView::Int(vid), ArgView::Flag(nearest)],
                Shape::Flag,
                flag_outcome(r),
            ),
            final(self).handle() == old(self).handle(),
    {
        ask_flag(engine, self.as_raw(), Op::Goto, args2(Arg::Int(vid), Arg::Flag(nearest)))
    }

    /// The vertices from the one that the cursor is at on, each with its id,
    /// its label and the values of its fields, pulled from this cursor one by
    /// one. Each pull moves the cursor on.
    fn into_vertices(self) -> (pulls: IntoVertexIter<Self>) where Self: Sized
        ensures
            pulls.source() == self.handle(),
            pulls.cursor() == self,
    {
        let source = self.as_raw();
        IntoVertexIter::new(self, source)
    }

    /// The ids of the vertices from the one that the cursor is at on, pulled
    /// from this cursor one by one. Each pull moves the cursor on.
    fn into_vertex_ids(self) -> (pulls: IntoVertexIds<Self>) where Self: Sized
        ensures
            pulls.source() == self.handle(),
            pulls.cursor() == self,
    {
        let source = self.as_raw();
        IntoVertexIds::new(self, source)
    }

    /// The labels of the vertices from the one that the cursor is at on, pulled
    /// from this cursor one by one. Each pull moves the cursor on.
    fn into_vertex_labels(self) -> (pulls: IntoVertexLabels<Self>) where Self: Sized
        ensures
            pulls.source() == self.handle(),
            pulls.cursor() == self,
    {
        let source = self.as_raw();
        IntoVertexLabels::new(self, source)
    }

    /// The label ids of the vertices from the one that the cursor is at on,
    /// pulled from this cursor one by one. Each pull moves the cursor on.
    fn into_vertex_lids(self) -> (pulls: IntoVertexLabelIds<Self>) where Self: Sized
        ensures
            pulls.source() == self.handle(),
            pulls.cursor() == self,
    {
        let source = self.as_raw();
        IntoVertexLabelIds::new(self, source)
    }

    /// The field values of the vertices from the one that the cursor is at on,
    /// pulled from this cursor one by one. Each pull moves the cursor on.
    fn into_vertex_fields(self) -> (pulls: IntoVertexFields<Self>) where Self: Sized
        ensures
            pulls.source() == self.handle(),
            pulls.cursor() == self,
    {
        let source = self.as_raw();
        IntoVertexFields::new(self, source)
    }

    /// Seeks as [`VertexCursor::seek`] does and then hands the vertices out
    /// as [`VertexCursor::into_vertices`] does. Where the seek fails the
    /// cursor is given up with the error, unclosed.
    fn into_vertices_from<E: Engine>(self, engine: &mut E, vid: i64, nearest: bool) -> (r: Result<
        IntoVertexIter<Self>,
    >) where Self: Sized
        ensures
            called(
                old(engine).trace(),
                final(engine).trace(),
                self.handle(),
                Op::Goto,
                seq![ArgView::Int(vid), ArgView::Flag(nearest)],
                Shape::Flag,
            ),
            match r {
                Ok(pulls) => pulls.source() == self.handle()
                    && final(engine).trace().last().answer is Flag,
                Err(e) => final(engine).trace().last().answer == AnswerView::Failure(e@),
            },
    {
        let mut cursor = self;
        let ghost before = engine.trace();
        let sought = cursor.seek(engine, vid, nearest);
        proof {
            crate::engine::lemma_sent_called(
                before,
                engine.trace(),
                cursor.handle(),
                Op::Goto,
                seq![ArgView::Int(vid), ArgView::Flag(nearest)],
                Shape::Flag,
                flag_outcome(sought),
            );
        }
        match sought {
            Ok(_) => {
                let source = cursor.as_raw();
                Ok(IntoVertexIter::new(cursor, source))
            },
            Err(e) => Err(e),
        }
    }

    /// A cursor over the edges that leave the vertex that the cursor is at.
    /// It borrows this cursor, so it cannot outlive it.
    fn out_edge_cursor<E: Engine>(&mut self, engine: &mut E) -> (r: Result<OutEdgeCur<'_>>)
        ensures
            called(
                old(engine).trace(),
                final(engine).trace(),
                old(self).handle(),
                Op::GetOutEdgeIterator,
                Seq::<ArgView>::empty(),
                Shape::Handle,
            ),
            match r {
                Ok(made) => {
                    &&& made.handle().kind == Kind::OutEdgeIterator
                    &&& final(engine).trace().last().answer == AnswerView::Handle(made.handle().id)
                },
                Err(e) => final(engine).trace().last().answer == AnswerView::Failure(e@),
            },
            final(self).handle() == old(self).handle(),
    {
        match read_id(engine, self.as_raw(), Op::GetOutEdgeIterator, args0()) {
            Ok(id) => Ok(OutEdgeCur::new(id)),
            Err(e) => Err(e),
        }
    }

    /// A cursor over the edges that reach the vertex that the cursor is at.
    /// It borrows this cursor, so it cannot outlive it.
    fn in_edge_cursor<E: Engine>(&mut self, engine: &mut E) -> (r: Result<InEdgeCur<'_>>)
        ensures
            called(
                old(engine).trace(),
                final(engine).trace(),
                old(self).handle(),
                Op::GetInEdgeIterator,
                Seq::<ArgView>::empty(),
                Shape::Handle,
            ),
            match r {
                Ok(made) => {
                    &&& made.handle().kind == Kind::InEdgeIterator
                    &&& final(engine).trace().last().answer == AnswerView::Handle(made.handle().id)
                },
                Err(e) => final(engine).trace().last().answer == AnswerView::Failure(e@),
            },
            final(self).handle() == old(self).handle(),
    {
        match read_id(engine, self.as_raw(), Op::GetInEdgeIterator, args0()) {
            Ok(id) => Ok(InEdgeCur::new(id)),
            Err(e) => Err(e),
        }
    }

    /// The value of the field `name` of the vertex that the cursor is at.
    fn field<E: Engine>(&self, engine: &mut E, name: &str) -> (r: Result<FieldData>)
        requires
            c_safe(name@),
        ensures
            called(
                old(engine).trace(),
                final(engine).trace(),
                self.handle(),
                Op::GetFieldByName,
                seq![ArgView::Text(name@)],
                Shape::Field,
            ),
            field_read(r, final(engine).trace().last().answer),
    {
        read_field(engine, self.as_raw(), Op::GetFieldByName, args1(text_arg(name)))
    }

    /// The values of the fields `names` of the vertex that the cursor is at,
    /// in the order of `names`.
    fn fields<E: Engine>(&self, engine: &mut E, names: &[&str]) -> (r: Result<Vec<FieldData>>)
        requires
            all_c_safe(texts_of(names@)),
        ensures
            called(
                old(engine).trace(),
                final(engine).trace(),
                self.handle(),
                Op::GetFieldsByNames,
                seq![ArgView::Texts(texts_of(names@))],
                Shape::Fields,
            ),
            fields_read(r, final(engine).trace().last().answer),
    {
        read_fields(engine, self.as_raw(), Op::GetFieldsByNames, args1(texts_arg(names)))
    }

    /// The value of the field with the id `id` of the vertex that the cursor
    /// is at.
    fn field_by_id<E: Engine>(&self, engine: &mut E, id: usize) -> (r: Result<FieldData>)
        ensures
            called(
                old(engine).trace(),
                final(engine).trace(),
                self.handle(),
                Op::GetFieldById,
                seq![ArgView::Size(id)],
                Shape::Field,
            ),
            field_read(r, final(engine).trace().last().answer),
    {
        read_field(engine, self.as_raw(), Op::GetFieldById, args1(Arg::Size(id)))
    }

    /// The values of the fields with the ids `ids` of the vertex that the
    /// cursor is at, in the order of `ids`.
    fn fields_by_ids<E: Engine>(&self, engine: &mut E, ids: &[usize]) -> (r: Result<Vec<FieldData>>)
        ensures
            called(
                old(engine).trace(),
                final(engine).trace(),
                self.handle(),
                Op::GetFieldsByIds,
                seq![ArgView::Sizes(ids@)],
                Shape::Fields,
            ),
            fields_read(r, final(engine).trace().last().answer),
    {
        read_fields(engine, self.as_raw(), Op::GetFieldsByIds, args1(sizes_arg(ids)))
    }

    /// All fields of the vertex that the cursor is at, each with its name.
    fn all_fields<E: Engine>(&self, engine: &mut E) -> (r: Result<Vec<(String, FieldData)>>)
        ensures
            called(
                old(engine).trace(),
                final(engine).trace(),
                self.handle(),
                Op::GetAllFields,
                Seq::<ArgView>::empty(),
                Shape::NamedFields,
            ),
            named_fields_read(r, final(engine).trace().last().answer),
    {
        read_named_fields(engine, self.as_raw(), Op::GetAllFields, args0())
    }

    /// The source vertices of the edges that reach the vertex that the cursor
    /// is at, `limit` at most. The boolean says whether there are more.
    fn associated_edges_src_vids<E: Engine>(
        &self,
        engine: &mut E,
        limit: usize,
    ) -> (r: Result<(bool, Vec<i64>)>)
        ensures
            sent(
                old(engine).trace(),
                final(engine).trace(),
                self.handle(),
                Op::ListSrcVids,
                seq![ArgView::Size(limit)],
                Shape::FlagInts,
                flag_ints_outcome(r),
            ),
    {
        ask_flag_ints(engine, self.as_raw(), Op::ListSrcVids, args1(Arg::Size(limit)))
    }

    /// The destination vertices of the edges that leave the vertex that the
    /// cursor is at, `limit` at most. The boolean says whether there are
    /// more.
    fn associated_edges_dst_vids<E: Engine>(
        &self,
        engine: &mut E,
        limit: usize,
    ) -> (r: Result<(bool, Vec<i64>)>)
        ensures
            sent(
                old(engine).trace(),
                final(engine).trace(),
                self.handle(),
                Op::ListDstVids,
                seq![ArgView::Size(limit)],
                Shape::FlagInts,
                flag_ints_outcome(r),
            ),
    {
        ask_flag_ints(engine, self.as_raw(), Op::ListDstVids, args1(Arg::Size(limit)))
    }

    /// The number of edges that reach the vertex that the cursor is at,
    /// counted up to `limit`. The boolean says whether there are more.
    fn num_in_edges<E: Engine>(&self, engine: &mut E, limit: usize) -> (r: Result<(bool, usize)>)
        ensures
            sent(
                old(engine).trace(),
                final(engine).trace(),
                self.handle(),
                Op::GetNumInEdges,
                seq![ArgView::Size(limit)],
                Shape::FlagSize,
                flag_size_outcome(r),
            ),
    {
        ask_flag_size(engine, self.as_raw(), Op::GetNumInEdges, args1(Arg::Size(limit)))
    }

    /// The number of edges that leave the vertex that the cursor is at,
    /// counted up to `limit`. The boolean says whether there are more.
    fn num_out_edges<E: Engine>(&self, engine: &mut E, limit: usize) -> (r: Result<(bool, usize)>)
        ensures
            sent(
                old(engine).trace(),
                final(engine).trace(),
                self.handle(),
                Op::GetNumOutEdges,
                seq![ArgView::Size(limit)],
                Shape::FlagSize,
                flag_size_outcome(r),
            ),
    {
        ask_flag_size(engine, self.as_raw(), Op::GetNumOutEdges, args1(Arg::Size(limit)))
    }
}

/// What a cursor over vertices in a read-write transaction can do besides:
/// change the vertex that it is at.
pub trait VertexCursorMut: VertexCursor {
    /// A cursor over the edges that leave the vertex that the cursor is at,
    /// through which they can be changed.
    fn out_edge_cursor_mut<E: Engine>(&mut self, engine: &mut E) -> (r: Result<OutEdgeCurMut<'_>>)
        ensures
            called(
                old(engine).trace(),
                final(engine).trace(),
                old(self).handle(),
                Op::GetOutEdgeIterator,
                Seq::<ArgView>::empty(),
                Shape::Handle,
            ),
            match r {
                Ok(made) => {
                    &&& made.handle().kind == Kind::OutEdgeIterator
                    &&& final(engine).trace().last().answer == AnswerView::Handle(made.handle().id)
                },
                Err(e) => final(engine).trace().last().answer == AnswerView::Failure(e@),
            },
            final(self).handle() == old(self).handle(),
    {
        match read_id(engine, self.as_raw(), Op::GetOutEdgeIterator, args0()) {
            Ok(id) => Ok(OutEdgeCurMut::new(id)),
            Err(e) => Err(e),
        }
    }

    /// A cursor over the edges that reach the vertex that the cursor is at,
    /// through which they can be changed.
    fn int_edge_cursor_mut<E: Engine>(&mut self, engine: &mut E) -> (r: Result<InEdgeCurMut<'_>>)
        ensures
            called(
                old(engine).trace(),
                final(engine).trace(),
                old(self).handle(),
                Op::GetInEdgeIterator,
                Seq::<ArgView>::empty(),
                Shape::Handle,
            ),
            match r {
                Ok(made) => {
                    &&& made.handle().kind == Kind::InEdgeIterator
                    &&& final(engine).trace().last().answer == AnswerView::Handle(made.handle().id)
                },
                Err(e) => final(engine).trace().last().answer == AnswerView::Failure(e@),
            },
            final(self).handle() == old(self).handle(),
    {
        match read_id(engine, self.as_raw(), Op::GetInEdgeIterator, args0()) {
            Ok(id) => Ok(InEdgeCurMut::new(id)),
            Err(e) => Err(e),
        }
    }

    /// Gives the field `name` of the vertex that the cursor is at the value
    /// `value`.
    fn set_field<E: Engine>(&self, engine: &mut E, name: &str, value: &FieldData) -> (r: Result<()>)
        requires
            c_safe(name@),
            value@.sendable(),
        ensures
            sent(
                old(engine).trace(),
                final(engine).trace(),
                self.handle(),
                Op::SetFieldByName,
                seq![ArgView::Text(name@), ArgView::Field(value@.raw())],
                Shape::Unit,
                unit_outcome(r),
            ),
    {
        ask_unit(engine, self.as_raw(), Op::SetFieldByName, args2(text_arg(name), field_arg(value)))
    }

    /// Gives the field with the id `id` of the vertex that the cursor is at
    /// the value `value`.
    fn set_field_by_id<E: Engine>(
        &self,
        engine: &mut E,
        id: usize,
        value: &FieldData,
    ) -> (r: Result<()>)
        requires
            value@.sendable(),
        ensures
            sent(
                old(engine).trace(),
                final(engine).trace(),
                self.handle(),
                Op::SetFieldById,
                seq![ArgView::Size(id), ArgView::Field(value@.raw())],
                Shape::Unit,
                unit_outcome(r),
            ),
    {
        ask_unit(engine, self.as_raw(), Op::SetFieldById, args2(Arg::Size(id), field_arg(value)))
    }

    /// Gives the fields `names` of the vertex that the cursor is at the
    /// values `values`.
    fn set_fields<E: Engine>(
        &self,
        engine: &mut E,
        names: &[&str],
        values: &[FieldData],
    ) -> (r: Result<()>)
        requires
            all_c_safe(texts_of(names@)),
            all_sendable(values@),
        ensures
            sent(
                old(engine).trace(),
                final(engine).trace(),
                self.handle(),
                Op::SetFieldsByData,
                seq![
                    ArgView::Texts(texts_of(names@)),
                    ArgView::Fields(raw_fields(values@)),
                ],
                Shape::Unit,
                unit_outcome(r),
            ),
    {
        ask_unit(
            engine,
            self.as_raw(),
            Op::SetFieldsByData,
            args2(texts_arg(names), fields_arg(values)),
        )
    }

    /// Gives the fields with the ids `ids` of the vertex that the cursor is
    /// at the values `values`.
    fn set_fields_by_ids<E: Engine>(
        &self,
        engine: &mut E,
        ids: &[usize],
        values: &[FieldData],
    ) -> (r: Result<()>)
        requires
            all_sendable(values@),
        ensures
            sent(
                old(engine).trace(),
                final(engine).trace(),
                self.handle(),
                Op::SetFieldsByIds,
                seq![ArgView::Sizes(ids@), ArgView::Fields(raw_fields(values@))],
                Shape::Unit,
                unit_outcome(r),
            ),
    {
        ask_unit(
            engine,
            self.as_raw(),
            Op::SetFieldsByIds,
            args2(sizes_arg(ids), fields_arg(values)),
        )
    }

    /// Deletes the vertex that the cursor is at, with the edges that reach
    /// and leave it; the cursor is then where a step to the next vertex would
    /// have put it. The answer holds the two numbers of deleted edges that
    /// the engine gives.
    fn delete<E: Engine>(&self, engine: &mut E) -> (r: Result<(usize, usize)>)
        ensures
            sent(
                old(engine).trace(),
                final(engine).trace(),
                self.handle(),
                Op::Delete,
                Seq::<ArgView>::empty(),
                Shape::SizePair,
                size_pair_outcome(r),
            ),
    {
        ask_size_pair(engine, self.as_raw(), Op::Delete, args0())
    }
}

/// A cursor over the vertices of a graph. It borrows its transaction, so it
/// cannot outlive it.
pub struct VertexCur<'v> {
    handle: Handle,
    owner: PhantomData<&'v ()>,
    thread: PhantomData<std::rc::Rc<()>>,
}

impl<'v> VertexCur<'v> {
    /// The cursor that the engine object `id` is. The id must be one that
    /// the engine gave for a cursor of this kind and that no other value
    /// holds.
    pub fn new(id: u64) -> (cursor: VertexCur<'v>)
        ensures
            cursor.handle() == (Handle { kind: Kind::VertexIterator, id }),
    {
        VertexCur {
            handle: Handle { kind: Kind::VertexIterator, id },
            owner: PhantomData,
            thread: PhantomData,
        }
    }
}

impl<'v> VertexCursor for VertexCur<'v> {
    closed spec fn handle(&self) -> Handle {
        self.handle
    }

    fn as_raw(&self) -> (handle: Handle) {
        self.handle
    }
}

/// A cursor over the vertices of a graph through which they can be changed.
/// It borrows its transaction, so it cannot outlive it.
pub struct VertexCurMut<'v> {
    handle: Handle,
    owner: PhantomData<&'v mut ()>,
    thread: PhantomData<std::rc::Rc<()>>,
}

impl<'v> VertexCurMut<'v> {
    /// The cursor that the engine object `id` is. The id must be one that
    /// the engine gave for a cursor of this kind and that no other value
    /// holds.
    pub fn new(id: u64) -> (cursor: VertexCurMut<'v>)
        ensures
            cursor.handle() == (Handle { kind: Kind::VertexIterator, id }),
    {
        VertexCurMut {
            handle: Handle { kind: Kind::VertexIterator, id },
            owner: PhantomData,
            thread: PhantomData,
        }
    }
}

impl<'v> VertexCursor for VertexCurMut<'v> {
    closed spec fn handle(&self) -> Handle {
        self.handle
    }

    fn as_raw(&self) -> (handle: Handle) {
        self.handle
    }
}

impl<'v> VertexCursorMut for VertexCurMut<'v> {
}

} // verus!
