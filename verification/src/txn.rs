//! Transactions.
//!
//! The work on a graph happens in transactions. A read-only transaction
//! reads; a read-write transaction reads and writes, and what it wrote
//! stays only if it is committed. A transaction is used by one thread.

use core::marker::PhantomData;
use vstd::prelude::*;

use crate::cursor::{EdgeCursor, VertexCursor};
use crate::cursor::{
    EdgeIndexDsts, EdgeIndexEdgeIds, EdgeIndexIter, EdgeIndexLabelIds, EdgeIndexSrcs,
    EdgeIndexUids, EdgeIndexValues, OutEdgeCur, OutEdgeCurMut, VertexCur, VertexCurMut,
    VertexIndexIds, VertexIndexIter, VertexIndexValues,
};
use crate::db::{release, released};
use crate::decode::{
    indexes_read, read_id, read_indexes, read_specs, read_uid, specs_read, uid_read,
};
use crate::engine::{
    ask_flag, ask_int, ask_size, ask_sizes, ask_text, ask_texts, called, check, flag_outcome,
    int_outcome, sent, size_outcome, sizes_outcome, text_outcome, texts_outcome, unit_outcome,
    AnswerView, Arg, ArgView, Engine, Handle, Kind, Op, Shape,
};
use crate::field::{FieldData, FieldSpec};
use crate::index::IndexSpec;
use crate::marshal::{
    all_sendable, args0, args1, args2, args3, args4, args5, field_arg, fields_arg, raw_fields,
    sizes_arg, text_arg, texts_arg,
};
use crate::text::{all_c_safe, c_safe, texts_of};
use crate::types::EdgeUid;
use crate::Result;

verus! {

/// What every transaction can do: read.
pub trait TxnRead {
    /// The engine object that this transaction is.
    spec fn handle(&self) -> Handle;

    /// The engine object that this transaction is.
    fn as_raw(&self) -> (handle: Handle)
        ensures
            handle == self.handle(),
    ;

    /// Whether the transaction is valid. It is no more once it is committed
    /// or aborted.
    fn is_valid<E: Engine>(&self, engine: &mut E) -> (out: bool)
        ensures
            sent(
                old(engine).trace(),
                final(engine).trace(),
                self.handle(),
                Op::IsValid,
                Seq::<ArgView>::empty(),
                Shape::Probe,
                AnswerView::Probe(out),
            ),
    {
        check(engine, self.as_raw(), Op::IsValid, args0())
    }

    /// Whether the transaction is read-only.
    fn is_read_only<E: Engine>(&self, engine: &mut E) -> (out: bool)
        ensures
            sent(
                old(engine).trace(),
                final(engine).trace(),
                self.handle(),
                Op::IsReadOnly,
                Seq::<ArgView>::empty(),
                Shape::Probe,
                AnswerView::Probe(out),
            ),
    {
        check(engine, self.as_raw(), Op::IsReadOnly, args0())
    }

    /// A cursor at the first vertex, or at none where the graph has no
    /// vertex. It borrows the transaction, so it cannot outlive it.
    fn vertex_cur<E: Engine>(&self, engine: &mut E) -> (r: Result<VertexCur<'_>>)
        ensures
            called(
                old(engine).trace(),
                final(engine).trace(),
                self.handle(),
                Op::GetVertexIterator,
                Seq::<ArgView>::empty(),
                Shape::Handle,
            ),
            match r {
                Ok(made) => {
                    &&& made.handle().kind == Kind::VertexIterator
                    &&& final(engine).trace().last().answer == AnswerView::Handle(made.handle().id)
                },
                Err(e) => final(engine).trace().last().answer == AnswerView::Failure(e@),
            },
    {
        match read_id(engine, self.as_raw(), Op::GetVertexIterator, args0()) {
            Ok(id) => Ok(VertexCur::new(id)),
            Err(e) => Err(e),
        }
    }

    /// The number of vertex labels.
    fn num_vertex_labels<E: Engine>(&self, engine: &mut E) -> (r: Result<usize>)
        ensures
            sent(
                old(engine).trace(),
                final(engine).trace(),
                self.handle(),
                Op::GetNumVertexLabels,
                Seq::<ArgView>::empty(),
                Shape::Size,
                size_outcome(r),
            ),
    {
        ask_size(engine, self.as_raw(), Op::GetNumVertexLabels, args0())
    }

    /// The number of edge labels.
    fn num_edge_labels<E: Engine>(&self, engine: &mut E) -> (r: Result<usize>)
        ensures
            sent(
                old(engine).trace(),
                final(engine).trace(),
                self.handle(),
                Op::GetNumEdgeLabels,
                Seq::<ArgView>::empty(),
                Shape::Size,
                size_outcome(r),
            ),
    {
        ask_size(engine, self.as_raw(), Op::GetNumEdgeLabels, args0())
    }

    /// The vertex labels.
    fn all_vertex_labels<E: Engine>(&self, engine: &mut E) -> (r: Result<Vec<String>>)
        ensures
            sent(
                old(engine).trace(),
                final(engine).trace(),
                self.handle(),
                Op::ListVertexLabels,
                Seq::<ArgView>::empty(),
                Shape::Texts,
                texts_outcome(r),
            ),
    {
        ask_texts(engine, self.as_raw(), Op::ListVertexLabels, args0())
    }

    /// The edge labels.
    fn all_edge_labels<E: Engine>(&self, engine: &mut E) -> (r: Result<Vec<String>>)
        ensures
            sent(
                old(engine).trace(),
                final(engine).trace(),
                self.handle(),
                Op::ListEdgeLabels,
                Seq::<ArgView>::empty(),
                Shape::Texts,
                texts_outcome(r),
            ),
    {
        ask_texts(engine, self.as_raw(), Op::ListEdgeLabels, args0())
    }

    /// The id of the vertex label `label`.
    fn vertex_label_id<E: Engine>(&self, engine: &mut E, label: &str) -> (r: Result<usize>)
        requires
            c_safe(label@),
        ensures
            sent(
                old(engine).trace(),
                final(engine).trace(),
                self.handle(),
                Op::GetVertexLabelId,
                seq![ArgView::Text(label@)],
                Shape::Size,
                size_outcome(r),
            ),
    {
        ask_size(engine, self.as_raw(), Op::GetVertexLabelId, args1(text_arg(label)))
    }

    /// The id of the edge label `label`.
    fn edge_label_id<E: Engine>(&self, engine: &mut E, label: &str) -> (r: Result<usize>)
        requires
            c_safe(label@),
        ensures
            sent(
                old(engine).trace(),
                final(engine).trace(),
                self.handle(),
                Op::GetEdgeLabelId,
                seq![ArgView::Text(label@)],
                Shape::Size,
                size_outcome(r),
            ),
    {
        ask_size(engine, self.as_raw(), Op::GetEdgeLabelId, args1(text_arg(label)))
    }

    /// The fields of the vertex label `label`.
    fn vertex_schema<E: Engine>(&self, engine: &mut E, label: &str) -> (r: Result<Vec<FieldSpec>>)
        requires
            c_safe(label@),
        ensures
            called(
                old(engine).trace(),
                final(engine).trace(),
                self.handle(),
                Op::GetVertexSchema,
                seq![ArgView::Text(label@)],
                Shape::Specs,
            ),
            specs_read(r, final(engine).trace().last().answer),
    {
        read_specs(engine, self.as_raw(), Op::GetVertexSchema, args1(text_arg(label)))
    }

    /// The fields of the edge label `label`.
    fn edge_schema<E: Engine>(&self, engine: &mut E, label: &str) -> (r: Result<Vec<FieldSpec>>)
        requires
            c_safe(label@),
        ensures
            called(
                old(engine).trace(),
                final(engine).trace(),
                self.handle(),
                Op::GetEdgeSchema,
                seq![ArgView::Text(label@)],
                Shape::Specs,
            ),
            specs_read(r, final(engine).trace().last().answer),
    {
        read_specs(engine, self.as_raw(), Op::GetEdgeSchema, args1(text_arg(label)))
    }

    /// The id of the field `field_name` of the vertex label with the id
    /// `label_id`.
    fn vertex_field_id<E: Engine>(
        &self,
        engine: &mut E,
        label_id: usize,
        field_name: &str,
    ) -> (r: Result<usize>)
        requires
            c_safe(field_name@),
        ensures
            sent(
                old(engine).trace(),
                final(engine).trace(),
                self.handle(),
                Op::GetVertexFieldId,
                seq![ArgView::Size(label_id), ArgView::Text(field_name@)],
                Shape::Size,
                size_outcome(r),
            ),
    {
        ask_size(
            engine,
            self.as_raw(),
            Op::GetVertexFieldId,
            args2(Arg::Size(label_id), text_arg(field_name)),
        )
    }

    /// The ids of the fields `field_names` of the vertex label with the id
    /// `label_id`.
    fn vertex_fields_ids<E: Engine>(
        &self,
        engine: &mut E,
        label_id: usize,
        field_names: &[&str],
    ) -> (r: Result<Vec<usize>>)
        requires
            all_c_safe(texts_of(field_names@)),
        ensures
            sent(
                old(engine).trace(),
                final(engine).trace(),
                self.handle(),
                Op::GetVertexFieldIds,
                seq![
                    ArgView::Size(label_id),
                    ArgView::Texts(texts_of(field_names@)),
                ],
                Shape::Sizes,
                sizes_outcome(r),
            ),
    {
        ask_sizes(
            engine,
            self.as_raw(),
            Op::GetVertexFieldIds,
            args2(Arg::Size(label_id), texts_arg(field_names)),
        )
    }

    /// The id of the field `field_name` of the edge label with the id
    /// `label_id`.
    fn edge_field_id<E: Engine>(
        &self,
        engine: &mut E,
        label_id: usize,
        field_name: &str,
    ) -> (r: Result<usize>)
        requires
            c_safe(field_name@),
        ensures
            sent(
                old(engine).trace(),
                final(engine).trace(),
                self.handle(),
                Op::GetEdgeFieldId,
                seq![ArgView::Size(label_id), ArgView::Text(field_name@)],
                Shape::Size,
                size_outcome(r),
            ),
    {
        ask_size(
            engine,
            self.as_raw(),
            Op::GetEdgeFieldId,
            args2(Arg::Size(label_id), text_arg(field_name)),
        )
    }

    /// The ids of the fields `field_names` of the edge label with the id
    /// `label_id`. The engine is asked by the same operation as for a vertex
    /// label.
    fn edge_fields_ids<E: Engine>(
        &self,
        engine: &mut E,
        label_id: usize,
        field_names: &[&str],
    ) -> (r: Result<Vec<usize>>)
        requires
            all_c_safe(texts_of(field_names@)),
        ensures
            sent(
                old(engine).trace(),
                final(engine).trace(),
                self.handle(),
                Op::GetVertexFieldIds,
                seq![
                    ArgView::Size(label_id),
                    ArgView::Texts(texts_of(field_names@)),
                ],
                Shape::Sizes,
                sizes_outcome(r),
            ),
    {
        ask_sizes(
            engine,
            self.as_raw(),
            Op::GetVertexFieldIds,
            args2(Arg::Size(label_id), texts_arg(field_names)),
        )
    }

    /// Whether the field `field` of the vertex label `label` has an index
    /// that is ready.
    fn is_vertex_indexed<E: Engine>(
        &self,
        engine: &mut E,
        label: &str,
        field: &str,
    ) -> (r: Result<bool>)
        requires
            c_safe(label@),
            c_safe(field@),
        ensures
            sent(
                old(engine).trace(),
                final(engine).trace(),
                self.handle(),
                Op::IsVertexIndexed,
                seq![ArgView::Text(label@), ArgView::Text(field@)],
                Shape::Flag,
                flag_outcome(r),
            ),
    {
        ask_flag(
            engine,
            self.as_raw(),
            Op::IsVertexIndexed,
            args2(text_arg(label), text_arg(field)),
        )
    }

    /// Whether the field `field` of the edge label `label` has an index that
    /// is ready.
    fn is_edge_indexed<E: Engine>(
        &self,
        engine: &mut E,
        label: &str,
        field: &str,
    ) -> (r: Result<bool>)
        requires
            c_safe(label@),
            c_safe(field@),
        ensures
            sent(
                old(engine).trace(),
                final(engine).trace(),
                self.handle(),
                Op::IsEdgeIndexed,
                seq![ArgView::Text(label@), ArgView::Text(field@)],
                Shape::Flag,
                flag_outcome(r),
            ),
    {
        ask_flag(engine, self.as_raw(), Op::IsEdgeIndexed, args2(text_arg(label), text_arg(field)))
    }

    /// The indexes on vertices.
    fn all_vertex_indexes<E: Engine>(&self, engine: &mut E) -> (r: Result<Vec<IndexSpec>>)
        ensures
            called(
                old(engine).trace(),
                final(engine).trace(),
                self.handle(),
                Op::ListVertexIndexes,
                Seq::<ArgView>::empty(),
                Shape::Indexes,
            ),
            indexes_read(r, final(engine).trace().last().answer),
    {
        read_indexes(engine, self.as_raw(), Op::ListVertexIndexes, args0())
    }

    /// The indexes on edges.
    fn all_edge_indexes<E: Engine>(&self, engine: &mut E) -> (r: Result<Vec<IndexSpec>>)
        ensures
            called(
                old(engine).trace(),
                final(engine).trace(),
                self.handle(),
                Op::ListEdgeIndexes,
                Seq::<ArgView>::empty(),
                Shape::Indexes,
            ),
            indexes_read(r, final(engine).trace().last().answer),
    {
        read_indexes(engine, self.as_raw(), Op::ListEdgeIndexes, args0())
    }

    /// The ids and index values of the vertices whose field `field` of the
    /// label `label` lies between `start` and `end`, both included, in the
    /// order of the index.
    fn vertex_index_iter_from<E: Engine>(
        &self,
        engine: &mut E,
        label: &str,
        field: &str,
        start: &FieldData,
        end: &FieldData,
    ) -> (r: Result<VertexIndexIter<'_>>)
        requires
            c_safe(label@),
            c_safe(field@),
            start@.sendable(),
            end@.sendable(),
        ensures
            called(
                old(engine).trace(),
                final(engine).trace(),
                self.handle(),
                Op::GetVertexIndexIteratorByData,
                seq![
                    ArgView::Text(label@),
                    ArgView::Text(field@),
                    ArgView::Field(start@.raw()),
                    ArgView::Field(end@.raw()),
                ],
                Shape::Handle,
            ),
            match r {
                Ok(made) => {
                    &&& made.handle().kind == Kind::VertexIndexIterator
                    &&& final(engine).trace().last().answer == AnswerView::Handle(made.handle().id)
                },
                Err(e) => final(engine).trace().last().answer == AnswerView::Failure(e@),
            },
    {
        match read_id(engine, self.as_raw(), Op::GetVertexIndexIteratorByData, args4(
            text_arg(label),
            text_arg(field),
            field_arg(start),
            field_arg(end),
        )) {
            Ok(id) => Ok(VertexIndexIter::new(id)),
            Err(e) => Err(e),
        }
    }

    /// The ids of the vertices whose field `field` of the label `label` lies
    /// between `start` and `end`, both included, in the order of the index.
    fn vertex_index_iter_ids_from<E: Engine>(
        &self,
        engine: &mut E,
        label: &str,
        field: &str,
        start: &FieldData,
        end: &FieldData,
    ) -> (r: Result<VertexIndexIds<'_>>)
        requires
            c_safe(label@),
            c_safe(field@),
            start@.sendable(),
            end@.sendable(),
        ensures
            called(
                old(engine).trace(),
                final(engine).trace(),
                self.handle(),
                Op::GetVertexIndexIteratorByData,
                seq![
                    ArgView::Text(label@),
                    ArgView::Text(field@),
                    ArgView::Field(start@.raw()),
                    ArgView::Field(end@.raw()),
                ],
                Shape::Handle,
            ),
            match r {
                Ok(made) => {
                    &&& made.handle().kind == Kind::VertexIndexIterator
                    &&& final(engine).trace().last().answer == AnswerView::Handle(made.handle().id)
                },
                Err(e) => final(engine).trace().last().answer == AnswerView::Failure(e@),
            },
    {
        match read_id(engine, self.as_raw(), Op::GetVertexIndexIteratorByData, args4(
            text_arg(label),
            text_arg(field),
            field_arg(start),
            field_arg(end),
        )) {
            Ok(id) => Ok(VertexIndexIds::new(id)),
            Err(e) => Err(e),
        }
    }

    /// The index values of the vertices whose field `field` of the label
    /// `label` lies between `start` and `end`, both included, in the order of
    /// the index.
    fn vertex_index_iter_values_from<E: Engine>(
        &self,
        engine: &mut E,
        label: &str,
        field: &str,
        start: &FieldData,
        end: &FieldData,
    ) -> (r: Result<VertexIndexValues<'_>>)
        requires
            c_safe(label@),
            c_safe(field@),
            start@.sendable(),
            end@.sendable(),
        ensures
            called(
                old(engine).trace(),
                final(engine).trace(),
                self.handle(),
                Op::GetVertexIndexIteratorByData,
                seq![
                    ArgView::Text(label@),
                    ArgView::Text(field@),
                    ArgView::Field(start@.raw()),
                    ArgView::Field(end@.raw()),
                ],
                Shape::Handle,
            ),
            match r {
                Ok(made) => {
                    &&& made.handle().kind == Kind::VertexIndexIterator
                    &&& final(engine).trace().last().answer == AnswerView::Handle(made.handle().id)
                },
                Err(e) => final(engine).trace().last().answer == AnswerView::Failure(e@),
            },
    {
        match read_id(engine, self.as_raw(), Op::GetVertexIndexIteratorByData, args4(
            text_arg(label),
            text_arg(field),
            field_arg(start),
            field_arg(end),
        )) {
            Ok(id) => Ok(VertexIndexValues::new(id)),
            Err(e) => Err(e),
        }
    }

    /// The ids and index values of the vertices whose field with the id
    /// `field_id` of the label with the id `label_id` lies between `start`
    /// and `end`, both included, in the order of the index.
    fn vertex_index_iter_from_by_id<E: Engine>(
        &self,
        engine: &mut E,
        label_id: usize,
        field_id: usize,
        start: &FieldData,
        end: &FieldData,
    ) -> (r: Result<VertexIndexIter<'_>>)
        requires
            start@.sendable(),
            end@.sendable(),
        ensures
            called(
                old(engine).trace(),
                final(engine).trace(),
                self.handle(),
                Op::GetVertexIndexIteratorById,
                seq![
                    ArgView::Size(label_id),
                    ArgView::Size(field_id),
                    ArgView::Field(start@.raw()),
                    ArgView::Field(end@.raw()),
                ],
                Shape::Handle,
            ),
            match r {
                Ok(made) => {
                    &&& made.handle().kind == Kind::VertexIndexIterator
                    &&& final(engine).trace().last().answer == AnswerView::Handle(made.handle().id)
                },
                Err(e) => final(engine).trace().last().answer == AnswerView::Failure(e@),
            },
    {
        match read_id(engine, self.as_raw(), Op::GetVertexIndexIteratorById, args4(
            Arg::Size(label_id),
            Arg::Size(field_id),
            field_arg(start),
            field_arg(end),
        )) {
            Ok(id) => Ok(VertexIndexIter::new(id)),
            Err(e) => Err(e),
        }
    }

    /// The ids of the vertices whose field with the id `field_id` of the
    /// label with the id `label_id` lies between `start` and `end`, both
    /// included, in the order of the index.
    fn vertex_index_iter_ids_from_by_id<E: Engine>(
        &self,
        engine: &mut E,
        label_id: usize,
        field_id: usize,
        start: &FieldData,
        end: &FieldData,
    ) -> (r: Result<VertexIndexIds<'_>>)
        requires
            start@.sendable(),
            end@.sendable(),
        ensures
            called(
                old(engine).trace(),
                final(engine).trace(),
                self.handle(),
                Op::GetVertexIndexIteratorById,
                seq![
                    ArgView::Size(label_id),
                    ArgView::Size(field_id),
                    ArgView::Field(start@.raw()),
                    ArgView::Field(end@.raw()),
                ],
                Shape::Handle,
            ),
            match r {
                Ok(made) => {
                    &&& made.handle().kind == Kind::VertexIndexIterator
                    &&& final(engine).trace().last().answer == AnswerView::Handle(made.handle().id)
                },
                Err(e) => final(engine).trace().last().answer == AnswerView::Failure(e@),
            },
    {
        match read_id(engine, self.as_raw(), Op::GetVertexIndexIteratorById, args4(
            Arg::Size(label_id),
            Arg::Size(field_id),
            field_arg(start),
            field_arg(end),
        )) {
            Ok(id) => Ok(VertexIndexIds::new(id)),
            Err(e) => Err(e),
        }
    }

    /// The index values of the vertices whose field with the id `field_id` of
    /// the label with the id `label_id` lies between `start` and `end`, both
    /// included, in the order of the index.
    fn vertex_index_iter_values_from_by_id<E: Engine>(
        &self,
        engine: &mut E,
        label_id: usize,
        field_id: usize,
        start: &FieldData,
        end: &FieldData,
    ) -> (r: Result<VertexIndexValues<'_>>)
        requires
            start@.sendable(),
            end@.sendable(),
        ensures
            called(
                old(engine).trace(),
                final(engine).trace(),
                self.handle(),
                Op::GetVertexIndexIteratorById,
                seq![
                    ArgView::Size(label_id),
                    ArgView::Size(field_id),
                    ArgView::Field(start@.raw()),
                    ArgView::Field(end@.raw()),
                ],
                Shape::Handle,
            ),
            match r {
                Ok(made) => {
                    &&& made.handle().kind == Kind::VertexIndexIterator
                    &&& final(engine).trace().last().answer == AnswerView::Handle(made.handle().id)
                },
                Err(e) => final(engine).trace().last().answer == AnswerView::Failure(e@),
            },
    {
        match read_id(engine, self.as_raw(), Op::GetVertexIndexIteratorById, args4(
            Arg::Size(label_id),
            Arg::Size(field_id),
            field_arg(start),
            field_arg(end),
        )) {
            Ok(id) => Ok(VertexIndexValues::new(id)),
            Err(e) => Err(e),
        }
    }

    /// The keys and index values of the edges whose field `field` of the
    /// label `label` lies between `start` and `end`, both included, in the
    /// order of the index.
    fn edge_index_iter_from<E: Engine>(
        &self,
        engine: &mut E,
        label: &str,
        field: &str,
        start: &FieldData,
        end: &FieldData,
    ) -> (r: Result<EdgeIndexIter<'_>>)
        requires
            c_safe(label@),
            c_safe(field@),
            start@.sendable(),
            end@.sendable(),
        ensures
            called(
                old(engine).trace(),
                final(engine).trace(),
                self.handle(),
                Op::GetEdgeIndexIteratorByData,
                seq![
                    ArgView::Text(label@),
                    ArgView::Text(field@),
                    ArgView::Field(start@.raw()),
                    ArgView::Field(end@.raw()),
                ],
                Shape::Handle,
            ),
            match r {
                Ok(made) => {
                    &&& made.handle().kind == Kind::EdgeIndexIterator
                    &&& final(engine).trace().last().answer == AnswerView::Handle(made.handle().id)
                },
                Err(e) => final(engine).trace().last().answer == AnswerView::Failure(e@),
            },
    {
        match read_id(engine, self.as_raw(), Op::GetEdgeIndexIteratorByData, args4(
            text_arg(label),
            text_arg(field),
            field_arg(start),
            field_arg(end),
        )) {
            Ok(id) => Ok(EdgeIndexIter::new(id)),
            Err(e) => Err(e),
        }
    }

    /// The keys of the edges whose field `field` of the label `label` lies
    /// between `start` and `end`, both included, in the order of the index.
    fn edge_index_iter_uids_from<E: Engine>(
        &self,
        engine: &mut E,
        label: &str,
        field: &str,
        start: &FieldData,
        end: &FieldData,
    ) -> (r: Result<EdgeIndexUids<'_>>)
        requires
            c_safe(label@),
            c_safe(field@),
            start@.sendable(),
            end@.sendable(),
        ensures
            called(
                old(engine).trace(),
                final(engine).trace(),
                self.handle(),
                Op::GetEdgeIndexIteratorByData,
                seq![
                    ArgView::Text(label@),
                    ArgView::Text(field@),
                    ArgView::Field(start@.raw()),
                    ArgView::Field(end@.raw()),
                ],
                Shape::Handle,
            ),
            match r {
                Ok(made) => {
                    &&& made.handle().kind == Kind::EdgeIndexIterator
                    &&& final(engine).trace().last().answer == AnswerView::Handle(made.handle().id)
                },
                Err(e) => final(engine).trace().last().answer == AnswerView::Failure(e@),
            },
    {
        match read_id(engine, self.as_raw(), Op::GetEdgeIndexIteratorByData, args4(
            text_arg(label),
            text_arg(field),
            field_arg(start),
            field_arg(end),
        )) {
            Ok(id) => Ok(EdgeIndexUids::new(id)),
            Err(e) => Err(e),
        }
    }

    /// The source vertices of the edges whose field `field` of the label
    /// `label` lies between `start` and `end`, both included, in the order of
    /// the index.
    fn edge_index_iter_srcs_from<E: Engine>(
        &self,
        engine: &mut E,
        label: &str,
        field: &str,
        start: &FieldData,
        end: &FieldData,
    ) -> (r: Result<EdgeIndexSrcs<'_>>)
        requires
            c_safe(label@),
            c_safe(field@),
            start@.sendable(),
            end@.sendable(),
        ensures
            called(
                old(engine).trace(),
                final(engine).trace(),
                self.handle(),
                Op::GetEdgeIndexIteratorByData,
                seq![
                    ArgView::Text(label@),
                    ArgView::Text(field@),
                    ArgView::Field(start@.raw()),
                    ArgView::Field(end@.raw()),
                ],
                Shape::Handle,
            ),
            match r {
                Ok(made) => {
                    &&& made.handle().kind == Kind::EdgeIndexIterator
                    &&& final(engine).trace().last().answer == AnswerView::Handle(made.handle().id)
                },
                Err(e) => final(engine).trace().last().answer == AnswerView::Failure(e@),
            },
    {
        match read_id(engine, self.as_raw(), Op::GetEdgeIndexIteratorByData, args4(
            text_arg(label),
            text_arg(field),
            field_arg(start),
            field_arg(end),
        )) {
            Ok(id) => Ok(EdgeIndexSrcs::new(id)),
            Err(e) => Err(e),
        }
    }

    /// The destination vertices of the edges whose field `field` of the label
    /// `label` lies between `start` and `end`, both included, in the order of
    /// the index.
    fn edge_index_iter_dsts_from<E: Engine>(
        &self,
        engine: &mut E,
        label: &str,
        field: &str,
        start: &FieldData,
        end: &FieldData,
    ) -> (r: Result<EdgeIndexDsts<'_>>)
        requires
            c_safe(label@),
            c_safe(field@),
            start@.sendable(),
            end@.sendable(),
        ensures
            called(
                old(engine).trace(),
                final(engine).trace(),
                self.handle(),
                Op::GetEdgeIndexIteratorByData,
                seq![
                    ArgView::Text(label@),
                    ArgView::Text(field@),
                    ArgView::Field(start@.raw()),
                    ArgView::Field(end@.raw()),
                ],
                Shape::Handle,
            ),
            match r {
                Ok(made) => {
                    &&& made.handle().kind == Kind::EdgeIndexIterator
                    &&& final(engine).trace().last().answer == AnswerView::Handle(made.handle().id)
                },
                Err(e) => final(engine).trace().last().answer == AnswerView::Failure(e@),
            },
    {
        match read_id(engine, self.as_raw(), Op::GetEdgeIndexIteratorByData, args4(
            text_arg(label),
            text_arg(field),
            field_arg(start),
            field_arg(end),
        )) {
            Ok(id) => Ok(EdgeIndexDsts::new(id)),
            Err(e) => Err(e),
        }
    }

    /// The label ids of the edges whose field `field` of the label `label`
    /// lies between `start` and `end`, both included, in the order of the
    /// index.
    fn edge_index_iter_lids_from<E: Engine>(
        &self,
        engine: &mut E,
        label: &str,
        field: &str,
        start: &FieldData,
        end: &FieldData,
    ) -> (r: Result<EdgeIndexLabelIds<'_>>)
        requires
            c_safe(label@),
            c_safe(field@),
            start@.sendable(),
            end@.sendable(),
        ensures
            called(
                old(engine).trace(),
                final(engine).trace(),
                self.handle(),
                Op::GetEdgeIndexIteratorByData,
                seq![
                    ArgView::Text(label@),
                    ArgView::Text(field@),
                    ArgView::Field(start@.raw()),
                    ArgView::Field(end@.raw()),
                ],
                Shape::Handle,
            ),
            match r {
                Ok(made) => {
                    &&& made.handle().kind == Kind::EdgeIndexIterator
                    &&& final(engine).trace().last().answer == AnswerView::Handle(made.handle().id)
                },
                Err(e) => final(engine).trace().last().answer == AnswerView::Failure(e@),
            },
    {
        match read_id(engine, self.as_raw(), Op::GetEdgeIndexIteratorByData, args4(
            text_arg(label),
            text_arg(field),
            field_arg(start),
            field_arg(end),
        )) {
            Ok(id) => Ok(EdgeIndexLabelIds::new(id)),
            Err(e) => Err(e),
        }
    }

    /// The edge ids of the edges whose field `field` of the label `label`
    /// lies between `start` and `end`, both included, in the order of the
    /// index.
    fn edge_index_iter_eids_from<E: Engine>(
        &self,
        engine: &mut E,
        label: &str,
        field: &str,
        start: &FieldData,
        end: &FieldData,
    ) -> (r: Result<EdgeIndexEdgeIds<'_>>)
        requires
            c_safe(label@),
            c_safe(field@),
            start@.sendable(),
            end@.sendable(),
        ensures
            called(
                old(engine).trace(),
                final(engine).trace(),
                self.handle(),
                Op::GetEdgeIndexIteratorByData,
                seq![
                    ArgView::Text(label@),
                    ArgView::Text(field@),
                    ArgView::Field(start@.raw()),
                    ArgView::Field(end@.raw()),
                ],
                Shape::Handle,
            ),
            match r {
                Ok(made) => {
                    &&& made.handle().kind == Kind::EdgeIndexIterator
                    &&& final(engine).trace().last().answer == AnswerView::Handle(made.handle().id)
                },
                Err(e) => final(engine).trace().last().answer == AnswerView::Failure(e@),
            },
    {
        match read_id(engine, self.as_raw(), Op::GetEdgeIndexIteratorByData, args4(
            text_arg(label),
            text_arg(field),
            field_arg(start),
            field_arg(end),
        )) {
            Ok(id) => Ok(EdgeIndexEdgeIds::new(id)),
            Err(e) => Err(e),
        }
    }

    /// The index values of the edges whose field `field` of the label `label`
    /// lies between `start` and `end`, both included, in the order of the
    /// index.
    fn edge_index_iter_values_from<E: Engine>(
        &self,
        engine: &mut E,
        label: &str,
        field: &str,
        start: &FieldData,
        end: &FieldData,
    ) -> (r: Result<EdgeIndexValues<'_>>)
        requires
            c_safe(label@),
            c_safe(field@),
            start@.sendable(),
            end@.sendable(),
        ensures
            called(
                old(engine).trace(),
                final(engine).trace(),
                self.handle(),
                Op::GetEdgeIndexIteratorByData,
                seq![
                    ArgView::Text(label@),
                    ArgView::Text(field@),
                    ArgView::Field(start@.raw()),
                    ArgView::Field(end@.raw()),
                ],
                Shape::Handle,
            ),
            match r {
                Ok(made) => {
                    &&& made.handle().kind == Kind::EdgeIndexIterator
                    &&& final(engine).trace().last().answer == AnswerView::Handle(made.handle().id)
                },
                Err(e) => final(engine).trace().last().answer == AnswerView::Failure(e@),
            },
    {
        match read_id(engine, self.as_raw(), Op::GetEdgeIndexIteratorByData, args4(
            text_arg(label),
            text_arg(field),
            field_arg(start),
            field_arg(end),
        )) {
            Ok(id) => Ok(EdgeIndexValues::new(id)),
            Err(e) => Err(e),
        }
    }

    /// The keys and index values of the edges whose field with the id
    /// `field_id` of the label with the id `label_id` lies between `start`
    /// and `end`, both included, in the order of the index.
    fn edge_index_iter_from_by_id<E: Engine>(
        &self,
        engine: &mut E,
        label_id: usize,
        field_id: usize,
        start: &FieldData,
        end: &FieldData,
    ) -> (r: Result<EdgeIndexIter<'_>>)
        requires
            start@.sendable(),
            end@.sendable(),
        ensures
            called(
                old(engine).trace(),
                final(engine).trace(),
                self.handle(),
                Op::GetEdgeIndexIteratorById,
                seq![
                    ArgView::Size(label_id),
                    ArgView::Size(field_id),
                    ArgView::Field(start@.raw()),
                    ArgView::Field(end@.raw()),
                ],
                Shape::Handle,
            ),
            match r {
                Ok(made) => {
                    &&& made.handle().kind == Kind::EdgeIndexIterator
                    &&& final(engine).trace().last().answer == AnswerView::Handle(made.handle().id)
                },
                Err(e) => final(engine).trace().last().answer == AnswerView::Failure(e@),
            },
    {
        match read_id(engine, self.as_raw(), Op::GetEdgeIndexIteratorById, args4(
            Arg::Size(label_id),
            Arg::Size(field_id),
            field_arg(start),
            field_arg(end),
        )) {
            Ok(id) => Ok(EdgeIndexIter::new(id)),
            Err(e) => Err(e),
        }
    }

    /// The source vertices of the edges whose field with the id `field_id` of
    /// the label with the id `label_id` lies between `start` and `end`, both
    /// included, in the order of the index.
    fn edge_index_iter_srcs_from_by_id<E: Engine>(
        &self,
        engine: &mut E,
        label_id: usize,
        field_id: usize,
        start: &FieldData,
        end: &FieldData,
    ) -> (r: Result<EdgeIndexSrcs<'_>>)
        requires
            start@.sendable(),
            end@.sendable(),
        ensures
            called(
                old(engine).trace(),
                final(engine).trace(),
                self.handle(),
                Op::GetEdgeIndexIteratorById,
                seq![
                    ArgView::Size(label_id),
                    ArgView::Size(field_id),
                    ArgView::Field(start@.raw()),
                    ArgView::Field(end@.raw()),
                ],
                Shape::Handle,
            ),
            match r {
                Ok(made) => {
                    &&& made.handle().kind == Kind::EdgeIndexIterator
                    &&& final(engine).trace().last().answer == AnswerView::Handle(made.handle().id)
                },
                Err(e) => final(engine).trace().last().answer == AnswerView::Failure(e@),
            },
    {
        match read_id(engine, self.as_raw(), Op::GetEdgeIndexIteratorById, args4(
            Arg::Size(label_id),
            Arg::Size(field_id),
            field_arg(start),
            field_arg(end),
        )) {
            Ok(id) => Ok(EdgeIndexSrcs::new(id)),
            Err(e) => Err(e),
        }
    }

    /// The destination vertices of the edges whose field with the id
    /// `field_id` of the label with the id `label_id` lies between `start`
    /// and `end`, both included, in the order of the index.
    fn edge_index_iter_dsts_from_by_id<E: Engine>(
        &self,
        engine: &mut E,
        label_id: usize,
        field_id: usize,
        start: &FieldData,
        end: &FieldData,
    ) -> (r: Result<EdgeIndexDsts<'_>>)
        requires
            start@.sendable(),
            end@.sendable(),
        ensures
            called(
                old(engine).trace(),
                final(engine).trace(),
                self.handle(),
                Op::GetEdgeIndexIteratorById,
                seq![
                    ArgView::Size(label_id),
                    ArgView::Size(field_id),
                    ArgView::Field(start@.raw()),
                    ArgView::Field(end@.raw()),
                ],
                Shape::Handle,
            ),
            match r {
                Ok(made) => {
                    &&& made.handle().kind == Kind::EdgeIndexIterator
                    &&& final(engine).trace().last().answer == AnswerView::Handle(made.handle().id)
                },
                Err(e) => final(engine).trace().last().answer == AnswerView::Failure(e@),
            },
    {
        match read_id(engine, self.as_raw(), Op::GetEdgeIndexIteratorById, args4(
            Arg::Size(label_id),
            Arg::Size(field_id),
            field_arg(start),
            field_arg(end),
        )) {
            Ok(id) => Ok(EdgeIndexDsts::new(id)),
            Err(e) => Err(e),
        }
    }

    /// The label ids of the edges whose field with the id `field_id` of the
    /// label with the id `label_id` lies between `start` and `end`, both
    /// included, in the order of the index.
    fn edge_index_iter_lids_from_by_id<E: Engine>(
        &self,
        engine: &mut E,
        label_id: usize,
        field_id: usize,
        start: &FieldData,
        end: &FieldData,
    ) -> (r: Result<EdgeIndexLabelIds<'_>>)
        requires
            start@.sendable(),
            end@.sendable(),
        ensures
            called(
                old(engine).trace(),
                final(engine).trace(),
                self.handle(),
                Op::GetEdgeIndexIteratorById,
                seq![
                    ArgView::Size(label_id),
                    ArgView::Size(field_id),
                    ArgView::Field(start@.raw()),
                    ArgView::Field(end@.raw()),
                ],
                Shape::Handle,
            ),
            match r {
                Ok(made) => {
                    &&& made.handle().kind == Kind::EdgeIndexIterator
                    &&& final(engine).trace().last().answer == AnswerView::Handle(made.handle().id)
                },
                Err(e) => final(engine).trace().last().answer == AnswerView::Failure(e@),
            },
    {
        match read_id(engine, self.as_raw(), Op::GetEdgeIndexIteratorById, args4(
            Arg::Size(label_id),
            Arg::Size(field_id),
            field_arg(start),
            field_arg(end),
        )) {
            Ok(id) => Ok(EdgeIndexLabelIds::new(id)),
            Err(e) => Err(e),
        }
    }

    /// The edge ids of the edges whose field with the id `field_id` of the
    /// label with the id `label_id` lies between `start` and `end`, both
    /// included, in the order of the index.
    fn edge_index_iter_eids_from_by_id<E: Engine>(
        &self,
        engine: &mut E,
        label_id: usize,
        field_id: usize,
        start: &FieldData,
        end: &FieldData,
    ) -> (r: Result<EdgeIndexEdgeIds<'_>>)
        requires
            start@.sendable(),
            end@.sendable(),
        ensures
            called(
                old(engine).trace(),
                final(engine).trace(),
                self.handle(),
                Op::GetEdgeIndexIteratorById,
                seq![
                    ArgView::Size(label_id),
                    ArgView::Size(field_id),
                    ArgView::Field(start@.raw()),
                    ArgView::Field(end@.raw()),
                ],
                Shape::Handle,
            ),
            match r {
                Ok(made) => {
                    &&& made.handle().kind == Kind::EdgeIndexIterator
                    &&& final(engine).trace().last().answer == AnswerView::Handle(made.handle().id)
                },
                Err(e) => final(engine).trace().last().answer == AnswerView::Failure(e@),
            },
    {
        match read_id(engine, self.as_raw(), Op::GetEdgeIndexIteratorById, args4(
            Arg::Size(label_id),
            Arg::Size(field_id),
            field_arg(start),
            field_arg(end),
        )) {
            Ok(id) => Ok(EdgeIndexEdgeIds::new(id)),
            Err(e) => Err(e),
        }
    }

    /// The index values of the edges whose field with the id `field_id` of
    /// the label with the id `label_id` lies between `start` and `end`, both
    /// included, in the order of the index.
    fn edge_index_iter_values_from_by_id<E: Engine>(
        &self,
        engine: &mut E,
        label_id: usize,
        field_id: usize,
        start: &FieldData,
        end: &FieldData,
    ) -> (r: Result<EdgeIndexValues<'_>>)
        requires
            start@.sendable(),
            end@.sendable(),
        ensures
            called(
                old(engine).trace(),
                final(engine).trace(),
                self.handle(),
                Op::GetEdgeIndexIteratorById,
                seq![
                    ArgView::Size(label_id),
                    ArgView::Size(field_id),
                    ArgView::Field(start@.raw()),
                    ArgView::Field(end@.raw()),
                ],
                Shape::Handle,
            ),
            match r {
                Ok(made) => {
                    &&& made.handle().kind == Kind::EdgeIndexIterator
                    &&& final(engine).trace().last().answer == AnswerView::Handle(made.handle().id)
                },
                Err(e) => final(engine).trace().last().answer == AnswerView::Failure(e@),
            },
    {
        match read_id(engine, self.as_raw(), Op::GetEdgeIndexIteratorById, args4(
            Arg::Size(label_id),
            Arg::Size(field_id),
            field_arg(start),
            field_arg(end),
        )) {
            Ok(id) => Ok(EdgeIndexValues::new(id)),
            Err(e) => Err(e),
        }
    }

    /// A cursor at the vertex whose field `field` of the label `label`, which
    /// has a unique index, is `value`.
    fn unique_index_vertex_cur<E: Engine>(
        &self,
        engine: &mut E,
        label: &str,
        field: &str,
        value: &FieldData,
    ) -> (r: Result<VertexCur<'_>>)
        requires
            c_safe(label@),
            c_safe(field@),
            value@.sendable(),
        ensures
            called(
                old(engine).trace(),
                final(engine).trace(),
                self.handle(),
                Op::GetVertexByUniqueIndexWithData,
                seq![
                    ArgView::Text(label@),
                    ArgView::Text(field@),
                    ArgView::Field(value@.raw()),
                ],
                Shape::Handle,
            ),
            match r {
                Ok(made) => {
                    &&& made.handle().kind == Kind::VertexIterator
                    &&& final(engine).trace().last().answer == AnswerView::Handle(made.handle().id)
                },
                Err(e) => final(engine).trace().last().answer == AnswerView::Failure(e@),
            },
    {
        match read_id(
            engine,
            self.as_raw(),
            Op::GetVertexByUniqueIndexWithData,
            args3(text_arg(label), text_arg(field), field_arg(value)),
        ) {
            Ok(id) => Ok(VertexCur::new(id)),
            Err(e) => Err(e),
        }
    }

    /// A cursor at the vertex whose field with the id `field_id` of the label
    /// with the id `label_id`, which has a unique index, is `field_value`.
    fn unique_index_vertex_cur_by_id<E: Engine>(
        &self,
        engine: &mut E,
        label_id: usize,
        field_id: usize,
        field_value: &FieldData,
    ) -> (r: Result<VertexCur<'_>>)
        requires
            field_value@.sendable(),
        ensures
            called(
                old(engine).trace(),
                final(engine).trace(),
                self.handle(),
                Op::GetVertexByUniqueIndexWithId,
                seq![
                    ArgView::Size(label_id),
                    ArgView::Size(field_id),
                    ArgView::Field(field_value@.raw()),
                ],
                Shape::Handle,
            ),
            match r {
                Ok(made) => {
                    &&& made.handle().kind == Kind::VertexIterator
                    &&& final(engine).trace().last().answer == AnswerView::Handle(made.handle().id)
                },
                Err(e) => final(engine).trace().last().answer == AnswerView::Failure(e@),
            },
    {
        match read_id(engine, self.as_raw(), Op::GetVertexByUniqueIndexWithId, args3(
            Arg::Size(label_id),
            Arg::Size(field_id),
            field_arg(field_value),
        )) {
            Ok(id) => Ok(VertexCur::new(id)),
            Err(e) => Err(e),
        }
    }

    /// A cursor at the edge whose field `field` of the label `label`, which
    /// has a unique index, is `value`.
    fn unique_index_out_edgr_cur<E: Engine>(
        &self,
        engine: &mut E,
        label: &str,
        field: &str,
        value: &FieldData,
    ) -> (r: Result<OutEdgeCur<'_>>)
        requires
            c_safe(label@),
            c_safe(field@),
            value@.sendable(),
        ensures
            called(
                old(engine).trace(),
                final(engine).trace(),
                self.handle(),
                Op::GetEdgeByUniqueIndexWithData,
                seq![
                    ArgView::Text(label@),
                    ArgView::Text(field@),
                    ArgView::Field(value@.raw()),
                ],
                Shape::Handle,
            ),
            match r {
                Ok(made) => {
                    &&& made.handle().kind == Kind::OutEdgeIterator
                    &&& final(engine).trace().last().answer == AnswerView::Handle(made.handle().id)
                },
                Err(e) => final(engine).trace().last().answer == AnswerView::Failure(e@),
            },
    {
        match read_id(
            engine,
            self.as_raw(),
            Op::GetEdgeByUniqueIndexWithData,
            args3(text_arg(label), text_arg(field), field_arg(value)),
        ) {
            Ok(id) => Ok(OutEdgeCur::new(id)),
            Err(e) => Err(e),
        }
    }

    /// A cursor at the edge whose field with the id `field_id` of the label
    /// with the id `label_id`, which has a unique index, is `value`.
    fn unique_index_out_edgr_cur_by_id<E: Engine>(
        &self,
        engine: &mut E,
        label_id: usize,
        field_id: usize,
        value: &FieldData,
    ) -> (r: Result<OutEdgeCur<'_>>)
        requires
            value@.sendable(),
        ensures
            called(
                old(engine).trace(),
                final(engine).trace(),
                self.handle(),
                Op::GetEdgeByUniqueIndexWithId,
                seq![
                    ArgView::Size(label_id),
                    ArgView::Size(field_id),
                    ArgView::Field(value@.raw()),
                ],
                Shape::Handle,
            ),
            match r {
                Ok(made) => {
                    &&& made.handle().kind == Kind::OutEdgeIterator
                    &&& final(engine).trace().last().answer == AnswerView::Handle(made.handle().id)
                },
                Err(e) => final(engine).trace().last().answer == AnswerView::Failure(e@),
            },
    {
        match read_id(
            engine,
            self.as_raw(),
            Op::GetEdgeByUniqueIndexWithId,
            args3(Arg::Size(label_id), Arg::Size(field_id), field_arg(value)),
        ) {
            Ok(id) => Ok(OutEdgeCur::new(id)),
            Err(e) => Err(e),
        }
    }

    /// The number of vertices.
    fn num_vertices<E: Engine>(&self, engine: &mut E) -> (r: Result<usize>)
        ensures
            sent(
                old(engine).trace(),
                final(engine).trace(),
                self.handle(),
                Op::GetNumVertices,
                Seq::<ArgView>::empty(),
                Shape::Size,
                size_outcome(r),
            ),
    {
        ask_size(engine, self.as_raw(), Op::GetNumVertices, args0())
    }

    /// The primary field of the vertex label `label`.
    fn get_vertex_primary_field<E: Engine>(
        &self,
        engine: &mut E,
        label: &str,
    ) -> (r: Result<String>)
        requires
            c_safe(label@),
        ensures
            sent(
                old(engine).trace(),
                final(engine).trace(),
                self.handle(),
                Op::GetVertexPrimaryField,
                seq![ArgView::Text(label@)],
                Shape::Text,
                text_outcome(r),
            ),
    {
        ask_text(engine, self.as_raw(), Op::GetVertexPrimaryField, args1(text_arg(label)))
    }
}

/// What a read-write transaction can do besides: write.
pub trait TxnWrite: TxnRead {
    /// A cursor at the first vertex through which vertices can be changed.
    fn vertex_cur_mut<E: Engine>(&self, engine: &mut E) -> (r: Result<VertexCurMut<'_>>)
        ensures
            called(
                old(engine).trace(),
                final(engine).trace(),
                self.handle(),
                Op::GetVertexIterator,
                Seq::<ArgView>::empty(),
                Shape::Handle,
            ),
            match r {
                Ok(made) => {
                    &&& made.handle().kind == Kind::VertexIterator
                    &&& final(engine).trace().last().answer == AnswerView::Handle(made.handle().id)
                },
                Err(e) => final(engine).trace().last().answer == AnswerView::Failure(e@),
            },
    {
        match read_id(engine, self.as_raw(), Op::GetVertexIterator, args0()) {
            Ok(id) => Ok(VertexCurMut::new(id)),
            Err(e) => Err(e),
        }
    }

    /// A cursor, through which the vertex can be changed, at the vertex whose
    /// field `field` of the label `label`, which has a unique index, is
    /// `value`.
    fn unique_index_vertex_cur_mut<E: Engine>(
        &self,
        engine: &mut E,
        label: &str,
        field: &str,
        value: &FieldData,
    ) -> (r: Result<VertexCurMut<'_>>)
        requires
            c_safe(label@),
            c_safe(field@),
            value@.sendable(),
        ensures
            called(
                old(engine).trace(),
                final(engine).trace(),
                self.handle(),
                Op::GetVertexByUniqueIndexWithData,
                seq![
                    ArgView::Text(label@),
                    ArgView::Text(field@),
                    ArgView::Field(value@.raw()),
                ],
                Shape::Handle,
            ),
            match r {
                Ok(made) => {
                    &&& made.handle().kind == Kind::VertexIterator
                    &&& final(engine).trace().last().answer == AnswerView::Handle(made.handle().id)
                },
                Err(e) => final(engine).trace().last().answer == AnswerView::Failure(e@),
            },
    {
        match read_id(
            engine,
            self.as_raw(),
            Op::GetVertexByUniqueIndexWithData,
            args3(text_arg(label), text_arg(field), field_arg(value)),
        ) {
            Ok(id) => Ok(VertexCurMut::new(id)),
            Err(e) => Err(e),
        }
    }

    /// A cursor, through which the vertex can be changed, at the vertex whose
    /// field with the id `field_id` of the label with the id `label_id`,
    /// which has a unique index, is `field_value`.
    fn unique_index_vertex_cur_mut_by_id<E: Engine>(
        &self,
        engine: &mut E,
        label_id: usize,
        field_id: usize,
        field_value: &FieldData,
    ) -> (r: Result<VertexCurMut<'_>>)
        requires
            field_value@.sendable(),
        ensures
            called(
                old(engine).trace(),
                final(engine).trace(),
                self.handle(),
                Op::GetVertexByUniqueIndexWithId,
                seq![
                    ArgView::Size(label_id),
                    ArgView::Size(field_id),
                    ArgView::Field(field_value@.raw()),
                ],
                Shape::Handle,
            ),
            match r {
                Ok(made) => {
                    &&& made.handle().kind == Kind::VertexIterator
                    &&& final(engine).trace().last().answer == AnswerView::Handle(made.handle().id)
                },
                Err(e) => final(engine).trace().last().answer == AnswerView::Failure(e@),
            },
    {
        match read_id(engine, self.as_raw(), Op::GetVertexByUniqueIndexWithId, args3(
            Arg::Size(label_id),
            Arg::Size(field_id),
            field_arg(field_value),
        )) {
            Ok(id) => Ok(VertexCurMut::new(id)),
            Err(e) => Err(e),
        }
    }

    /// A cursor, through which the edge can be changed, at the edge whose
    /// field `field` of the label `label`, which has a unique index, is
    /// `value`.
    fn unique_index_out_edgr_cur_mut<E: Engine>(
        &self,
        engine: &mut E,
        label: &str,
        field: &str,
        value: &FieldData,
    ) -> (r: Result<OutEdgeCurMut<'_>>)
        requires
            c_safe(label@),
            c_safe(field@),
            value@.sendable(),
        ensures
            called(
                old(engine).trace(),
                final(engine).trace(),
                self.handle(),
                Op::GetEdgeByUniqueIndexWithData,
                seq![
                    ArgView::Text(label@),
                    ArgView::Text(field@),
                    ArgView::Field(value@.raw()),
                ],
                Shape::Handle,
            ),
            match r {
                Ok(made) => {
                    &&& made.handle().kind == Kind::OutEdgeIterator
                    &&& final(engine).trace().last().answer == AnswerView::Handle(made.handle().id)
                },
                Err(e) => final(engine).trace().last().answer == AnswerView::Failure(e@),
            },
    {
        match read_id(
            engine,
            self.as_raw(),
            Op::GetEdgeByUniqueIndexWithData,
            args3(text_arg(label), text_arg(field), field_arg(value)),
        ) {
            Ok(id) => Ok(OutEdgeCurMut::new(id)),
            Err(e) => Err(e),
        }
    }

    /// A cursor, through which the edge can be changed, at the edge whose
    /// field with the id `field_id` of the label with the id `label_id`,
    /// which has a unique index, is `value`.
    fn unique_index_out_edgr_cur_mut_by_id<E: Engine>(
        &self,
        engine: &mut E,
        label_id: usize,
        field_id: usize,
        value: &FieldData,
    ) -> (r: Result<OutEdgeCurMut<'_>>)
        requires
            value@.sendable(),
        ensures
            called(
                old(engine).trace(),
                final(engine).trace(),
                self.handle(),
                Op::GetEdgeByUniqueIndexWithId,
                seq![
                    ArgView::Size(label_id),
                    ArgView::Size(field_id),
                    ArgView::Field(value@.raw()),
                ],
                Shape::Handle,
            ),
            match r {
                Ok(made) => {
                    &&& made.handle().kind == Kind::OutEdgeIterator
                    &&& final(engine).trace().last().answer == AnswerView::Handle(made.handle().id)
                },
                Err(e) => final(engine).trace().last().answer == AnswerView::Failure(e@),
            },
    {
        match read_id(
            engine,
            self.as_raw(),
            Op::GetEdgeByUniqueIndexWithId,
            args3(Arg::Size(label_id), Arg::Size(field_id), field_arg(value)),
        ) {
            Ok(id) => Ok(OutEdgeCurMut::new(id)),
            Err(e) => Err(e),
        }
    }

    /// Adds a vertex of the label `label` whose fields `field_names` have the
    /// values `field_values`. The answer is the id of the vertex.
    fn add_vertex<E: Engine>(
        &mut self,
        engine: &mut E,
        label: &str,
        field_names: &[&str],
        field_values: &[FieldData],
    ) -> (r: Result<i64>)
        requires
            c_safe(label@),
            all_c_safe(texts_of(field_names@)),
            all_sendable(field_values@),
        ensures
            sent(
                old(engine).trace(),
                final(engine).trace(),
                old(self).handle(),
                Op::AddVertexWithFieldData,
                seq![
                    ArgView::Text(label@),
                    ArgView::Texts(texts_of(field_names@)),
                    ArgView::Fields(raw_fields(field_values@)),
                ],
                Shape::Int,
                int_outcome(r),
            ),
            final(self).handle() == old(self).handle(),
    {
        ask_int(engine, self.as_raw(), Op::AddVertexWithFieldData, args3(
            text_arg(label),
            texts_arg(field_names),
            fields_arg(field_values),
        ))
    }

    /// Adds a vertex of the label with the id `label_id` whose fields with
    /// the ids `field_ids` have the values `field_values`. The answer is the
    /// id of the vertex.
    fn add_vertex_by_id<E: Engine>(
        &mut self,
        engine: &mut E,
        label_id: usize,
        field_ids: &[usize],
        field_values: &[FieldData],
    ) -> (r: Result<i64>)
        requires
            all_sendable(field_values@),
        ensures
            sent(
                old(engine).trace(),
                final(engine).trace(),
                old(self).handle(),
                Op::AddVertexWithFieldDataAndId,
                seq![
                    ArgView::Size(label_id),
                    ArgView::Sizes(field_ids@),
                    ArgView::Fields(raw_fields(field_values@)),
                ],
                Shape::Int,
                int_outcome(r),
            ),
            final(self).handle() == old(self).handle(),
    {
        ask_int(engine, self.as_raw(), Op::AddVertexWithFieldDataAndId, args3(
            Arg::Size(label_id),
            sizes_arg(field_ids),
            fields_arg(field_values),
        ))
    }

    /// Adds an edge of the label `label` from `src` to `dst` whose fields
    /// `field_names` have the values `field_values`. The answer is the key of
    /// the edge.
    fn add_edge<E: Engine>(
        &mut self,
        engine: &mut E,
        src: i64,
        dst: i64,
        label: &str,
        field_names: &[&str],
        field_values: &[FieldData],
    ) -> (r: Result<EdgeUid>)
        requires
            c_safe(label@),
            all_c_safe(texts_of(field_names@)),
            all_sendable(field_values@),
        ensures
            called(
                old(engine).trace(),
                final(engine).trace(),
                old(self).handle(),
                Op::AddEdgeWithFieldData,
                seq![
                    ArgView::Int(src),
                    ArgView::Int(dst),
                    ArgView::Text(label@),
                    ArgView::Texts(texts_of(field_names@)),
                    ArgView::Fields(raw_fields(field_values@)),
                ],
                Shape::Uid,
            ),
            uid_read(r, final(engine).trace().last().answer),
            final(self).handle() == old(self).handle(),
    {
        read_uid(engine, self.as_raw(), Op::AddEdgeWithFieldData, args5(
            Arg::Int(src),
            Arg::Int(dst),
            text_arg(label),
            texts_arg(field_names),
            fields_arg(field_values),
        ))
    }

    /// Adds an edge of the label with the id `label_id` from `src` to `dst`
    /// whose fields with the ids `field_ids` have the values `field_values`.
    /// The answer is the key of the edge.
    fn add_edge_by_id<E: Engine>(
        &mut self,
        engine: &mut E,
        src: i64,
        dst: i64,
        label_id: usize,
        field_ids: &[usize],
        field_values: &[FieldData],
    ) -> (r: Result<EdgeUid>)
        requires
            all_sendable(field_values@),
        ensures
            called(
                old(engine).trace(),
                final(engine).trace(),
                old(self).handle(),
                Op::AddEdgeWithFieldDataAndId,
                seq![
                    ArgView::Int(src),
                    ArgView::Int(dst),
                    ArgView::Size(label_id),
                    ArgView::Sizes(field_ids@),
                    ArgView::Fields(raw_fields(field_values@)),
                ],
                Shape::Uid,
            ),
            uid_read(r, final(engine).trace().last().answer),
            final(self).handle() == old(self).handle(),
    {
        read_uid(engine, self.as_raw(), Op::AddEdgeWithFieldDataAndId, args5(
            Arg::Int(src),
            Arg::Int(dst),
            Arg::Size(label_id),
            sizes_arg(field_ids),
            fields_arg(field_values),
        ))
    }

    /// Where there is no edge from `src` to `dst`, adds one; else gives the
    /// fields of the edge that is there the values `field_values`. Where the
    /// edge id is part of the key, only the edge with the edge id 0 is ever
    /// changed. The answer says whether an edge was added. The label is
    /// `label` and the fields are `field_names`.
    fn upsert_edge<E: Engine>(
        &mut self,
        engine: &mut E,
        src: i64,
        dst: i64,
        label: &str,
        field_names: &[&str],
        field_values: &[FieldData],
    ) -> (r: Result<bool>)
        requires
            c_safe(label@),
            all_c_safe(texts_of(field_names@)),
            all_sendable(field_values@),
        ensures
            sent(
                old(engine).trace(),
                final(engine).trace(),
                old(self).handle(),
                Op::UpsertEdgeWithFieldData,
                seq![
                    ArgView::Int(src),
                    ArgView::Int(dst),
                    ArgView::Text(label@),
                    ArgView::Texts(texts_of(field_names@)),
                    ArgView::Fields(raw_fields(field_values@)),
                ],
                Shape::Flag,
                flag_outcome(r),
            ),
            final(self).handle() == old(self).handle(),
    {
        ask_flag(engine, self.as_raw(), Op::UpsertEdgeWithFieldData, args5(
            Arg::Int(src),
            Arg::Int(dst),
            text_arg(label),
            texts_arg(field_names),
            fields_arg(field_values),
        ))
    }

    /// Where there is no edge from `src` to `dst`, adds one; else gives the
    /// fields of the edge that is there the values `field_values`. Where the
    /// edge id is part of the key, only the edge with the edge id 0 is ever
    /// changed. The answer says whether an edge was added. The label has the
    /// id `label_id` and the fields have the ids `field_ids`.
    fn upsert_edge_by_id<E: Engine>(
        &mut self,
        engine: &mut E,
        src: i64,
        dst: i64,
        label_id: usize,
        field_ids: &[usize],
        field_values: &[FieldData],
    ) -> (r: Result<bool>)
        requires
            all_sendable(field_values@),
        ensures
            sent(
                old(engine).trace(),
                final(engine).trace(),
                old(self).handle(),
                Op::UpsertEdgeWithFieldDataAndId,
                seq![
                    ArgView::Int(src),
                    ArgView::Int(dst),
                    ArgView::Size(label_id),
                    ArgView::Sizes(field_ids@),
                    ArgView::Fields(raw_fields(field_values@)),
                ],
                Shape::Flag,
                flag_outcome(r),
            ),
            final(self).handle() == old(self).handle(),
    {
        ask_flag(engine, self.as_raw(), Op::UpsertEdgeWithFieldDataAndId, args5(
            Arg::Int(src),
            Arg::Int(dst),
            Arg::Size(label_id),
            sizes_arg(field_ids),
            fields_arg(field_values),
        ))
    }
}

/// A read-only transaction. It borrows its graph, so it cannot outlive it.
#[derive(Debug)]
pub struct RoTxn<'g> {
    handle: Handle,
    graph: PhantomData<&'g ()>,
}

impl<'g> RoTxn<'g> {
    /// The transaction that the engine object `id` is. The id must be one
    /// that the engine gave for a read-only transaction and that no other
    /// value holds.
    pub fn from_raw(id: u64) -> (txn: RoTxn<'g>)
        ensures
            txn.handle() == (Handle { kind: Kind::Transaction, id }),
    {
        RoTxn { handle: Handle { kind: Kind::Transaction, id }, graph: PhantomData }
    }

    /// Gives the transaction up: has the engine abort it, then destroy it.
    /// The result is what the abort gave.
    pub fn close<E: Engine>(self, engine: &mut E) -> (r: Result<()>)
        ensures
            released(
                old(engine).trace(),
                final(engine).trace(),
                self.handle(),
                Op::Abort,
                unit_outcome(r),
            ),
    {
        release(engine, self.handle, Op::Abort)
    }
}

impl<'g> TxnRead for RoTxn<'g> {
    closed spec fn handle(&self) -> Handle {
        self.handle
    }

    fn as_raw(&self) -> (handle: Handle) {
        self.handle
    }
}

/// A read-write transaction. It borrows its graph, so it cannot outlive it,
/// and it stays in the thread that began it.
#[derive(Debug)]
pub struct RwTxn<'g> {
    handle: Handle,
    graph: PhantomData<&'g ()>,
    thread: PhantomData<std::rc::Rc<()>>,
}

impl<'g> RwTxn<'g> {
    /// The transaction that the engine object `id` is. The id must be one
    /// that the engine gave for a read-write transaction and that no other
    /// value holds.
    pub fn from_raw(id: u64) -> (txn: RwTxn<'g>)
        ensures
            txn.handle() == (Handle { kind: Kind::Transaction, id }),
    {
        RwTxn {
            handle: Handle { kind: Kind::Transaction, id },
            graph: PhantomData,
            thread: PhantomData,
        }
    }

    /// Commits the transaction and gives it up: has the engine commit it,
    /// then destroy it. The result is what the commit gave; an optimistic
    /// transaction that lost against an earlier one gets the engine's
    /// conflict as the error. The transaction is destroyed either way, and
    /// it is not aborted.
    pub fn commit<E: Engine>(self, engine: &mut E) -> (r: Result<()>)
        ensures
            released(
                old(engine).trace(),
                final(engine).trace(),
                self.handle(),
                Op::Commit,
                unit_outcome(r),
            ),
    {
        release(engine, self.handle, Op::Commit)
    }

    /// Gives the transaction up without committing: has the engine abort
    /// it, then destroy it. The result is what the abort gave.
    pub fn close<E: Engine>(self, engine: &mut E) -> (r: Result<()>)
        ensures
            released(
                old(engine).trace(),
                final(engine).trace(),
                self.handle(),
                Op::Abort,
                unit_outcome(r),
            ),
    {
        release(engine, self.handle, Op::Abort)
    }
}

impl<'g> TxnRead for RwTxn<'g> {
    closed spec fn handle(&self) -> Handle {
        self.handle
    }

    fn as_raw(&self) -> (handle: Handle) {
        self.handle
    }
}

impl<'g> TxnWrite for RwTxn<'g> {
}

} // verus!
