//! Cursors: movable positions over the vertices and the edges of a graph,
//! and the sequences that are pulled from them.

mod edge;
mod iter;
mod vertex;

pub use edge::{EdgeCursor, EdgeCursorMut};
pub use edge::{InEdgeCur, InEdgeCurMut, OutEdgeCur, OutEdgeCurMut};
pub use iter::{
    asked, began, edge_pull, ended, grew, holds_row_values, indexed_edge_pull,
    indexed_vertex_pull, int_pull, int_read, plain, short_pull, short_read, text_pull, text_read,
    uid_pull, value_pull, values_pull, values_read, vertex_pull,
};
pub use iter::{
    pull_edge, pull_indexed_edge, pull_indexed_vertex, pull_int, pull_short, pull_text, pull_uid,
    pull_value, pull_values, pull_vertex,
};
pub use iter::{
    EdgeIndexDsts, EdgeIndexEdgeIds, EdgeIndexIter, EdgeIndexLabelIds, EdgeIndexSrcs,
    EdgeIndexUids, EdgeIndexValues, IntoEdgeDsts, IntoEdgeFields, IntoEdgeIds, IntoEdgeIter,
    IntoEdgeLabelIds, IntoEdgeLabels, IntoEdgeSrcs, IntoEdgeTemporalIds, IntoEdgeUids,
    IntoVertexFields, IntoVertexIds, IntoVertexIter, IntoVertexLabelIds, IntoVertexLabels,
    VertexIndexIds, VertexIndexIter, VertexIndexValues,
};
pub use vertex::{VertexCur, VertexCurMut};
pub use vertex::{VertexCursor, VertexCursorMut};
