//! The interface through which the engine is reached.
//!
//! A request names an engine object, an operation on it and the arguments
//! of the operation, all as plain values. An [`Engine`] carries requests out
//! and says, in its trace, which requests it was handed and what it
//! answered to each. Every operation of this crate is stated over that
//! trace: which requests it made, in which order, and how the answers became
//! its result.

use vstd::prelude::*;

use crate::raw::{
    fields_view, indexes_view, specs_view, RawEdgeUid, RawFieldData, RawFieldDataView,
    RawFieldSpec, RawFieldSpecView, RawIndexSpec, RawIndexSpecView, RawRoleInfo, RawRoleInfoView,
    RawUserInfo, RawUserInfoView,
};
use crate::Error;

verus! {

/// The kinds of engine objects.
#[derive(Clone, Copy, Debug, PartialEq, Eq, Structural, Hash)]
pub enum Kind {
    Galaxy,
    GraphDb,
    Transaction,
    VertexIterator,
    OutEdgeIterator,
    InEdgeIterator,
    VertexIndexIterator,
    EdgeIndexIterator,
}

/// The name of an engine object: its kind and the id that the engine gave
/// it.
#[derive(Clone, Copy, Debug, PartialEq, Eq, Structural, Hash)]
pub struct Handle {
    pub kind: Kind,
    pub id: u64,
}

/// The operations of the engine. An operation is named as the engine names
/// it, without the kind of object that it is an operation on.
#[derive(Clone, Copy, Debug, PartialEq, Eq, Structural, Hash)]
pub enum Op {
    CreateWithUser,
    Close,
    Destroy,
    SetCurrentUser,
    SetUser,
    CreateGraph,
    DeleteGraph,
    ModGraph,
    ListGraphs,
    CreateUser,
    DeleteUser,
    SetPassword,
    SetUserDesc,
    SetUserRoles,
    SetUserGraphAccess,
    DisableUser,
    EnableUser,
    ListUsers,
    GetUserInfo,
    CreateRole,
    DeleteRole,
    DisableRole,
    EnableRole,
    SetRoleDesc,
    SetRoleAccessRights,
    SetRoleAccessRightsIncremental,
    GetRoleInfo,
    ListRoles,
    GetAccessLevel,
    OpenGraph,
    CreateReadTxn,
    CreateWriteTxn,
    ForkTxn,
    Flush,
    DropAllData,
    DropAllVertex,
    EstimateNumVertices,
    AddVertexLabel,
    DeleteVertexLabel,
    AlterVertexLabelDelFields,
    AlterVertexLabelAddFields,
    AlterVertexLabelModFields,
    AddEdgeLabel,
    DeleteEdgeLabel,
    AlterLabelModEdgeConstraints,
    AlterEdgeLabelDelFields,
    AlterEdgeLabelAddFields,
    AlterEdgeLabelModFields,
    AddVertexIndex,
    AddEdgeIndex,
    IsVertexIndexed,
    IsEdgeIndexed,
    DeleteVertexIndex,
    DeleteEdgeIndex,
    GetDescription,
    GetMaxSize,
    AddVertexFullTextIndex,
    AddEdgeFullTextIndex,
    DeleteVertexFullTextIndex,
    DeleteEdgeFullTextIndex,
    RebuildFullTextIndex,
    ListFullTextIndexes,
    QueryVertexByFullTextIndex,
    QueryEdgeByFullTextIndex,
    Commit,
    Abort,
    IsValid,
    IsReadOnly,
    GetVertexIterator,
    GetNumVertexLabels,
    GetNumEdgeLabels,
    ListVertexLabels,
    ListEdgeLabels,
    GetVertexLabelId,
    GetEdgeLabelId,
    GetVertexSchema,
    GetEdgeSchema,
    GetVertexFieldId,
    GetVertexFieldIds,
    GetEdgeFieldId,
    GetEdgeFieldIds,
    ListVertexIndexes,
    ListEdgeIndexes,
    GetVertexIndexIteratorByData,
    GetVertexIndexIteratorById,
    GetEdgeIndexIteratorByData,
    GetEdgeIndexIteratorById,
    GetVertexByUniqueIndexWithData,
    GetVertexByUniqueIndexWithId,
    GetEdgeByUniqueIndexWithData,
    GetEdgeByUniqueIndexWithId,
    GetNumVertices,
    GetVertexPrimaryField,
    AddVertexWithFieldData,
    AddVertexWithFieldDataAndId,
    AddEdgeWithFieldData,
    AddEdgeWithFieldDataAndId,
    UpsertEdgeWithFieldData,
    UpsertEdgeWithFieldDataAndId,
    Next,
    GetLabel,
    GetLabelId,
    GetFieldsByNames,
    GetFieldByName,
    GetFieldsByIds,
    GetFieldById,
    GetAllFields,
    SetFieldByName,
    SetFieldById,
    SetFieldsByData,
    SetFieldsByIds,
    GetId,
    Goto,
    GetOutEdgeIterator,
    GetInEdgeIterator,
    ListSrcVids,
    ListDstVids,
    GetNumInEdges,
    GetNumOutEdges,
    Delete,
    GetUid,
    GetSrc,
    GetDst,
    GetEdgeId,
    GetTemporalId,
    GetIndexValue,
}

/// What an operation gives: which method of the engine a request goes by.
#[derive(Clone, Copy, Debug, PartialEq, Eq, Structural, Hash)]
pub enum Shape {
    Done,
    Probe,
    Unit,
    Flag,
    Size,
    Int,
    Short,
    Code,
    Text,
    Texts,
    Sizes,
    Handle,
    FlagSize,
    SizePair,
    FlagInts,
    Uid,
    Field,
    Fields,
    NamedFields,
    Specs,
    Indexes,
    User,
    Role,
    Graphs,
    Users,
    Roles,
    TextIndexes,
    Hits,
    EdgeHits,
}

/// One argument of a request.
#[derive(Debug, PartialEq)]
pub enum Arg {
    Flag(bool),
    Int(i64),
    Size(usize),
    Code(u32),
    Text(String),
    Texts(Vec<String>),
    Sizes(Vec<usize>),
    Codes(Vec<u32>),
    Field(RawFieldData),
    Fields(Vec<RawFieldData>),
    Specs(Vec<RawFieldSpec>),
    Uid(RawEdgeUid),
    Object(Handle),
}

/// What an [`Arg`] holds.
pub enum ArgView {
    Flag(bool),
    Int(i64),
    Size(usize),
    Code(u32),
    Text(Seq<char>),
    Texts(Seq<Seq<char>>),
    Sizes(Seq<usize>),
    Codes(Seq<u32>),
    Field(RawFieldDataView),
    Fields(Seq<RawFieldDataView>),
    Specs(Seq<RawFieldSpecView>),
    Uid(RawEdgeUid),
    Object(Handle),
}

impl View for Arg {
    type V = ArgView;

    open spec fn view(&self) -> ArgView {
        match self {
            Arg::Flag(b) => ArgView::Flag(*b),
            Arg::Int(i) => ArgView::Int(*i),
            Arg::Size(n) => ArgView::Size(*n),
            Arg::Code(c) => ArgView::Code(*c),
            Arg::Text(s) => ArgView::Text(s@),
            Arg::Texts(v) => ArgView::Texts(v.deep_view()),
            Arg::Sizes(v) => ArgView::Sizes(v@),
            Arg::Codes(v) => ArgView::Codes(v@),
            Arg::Field(f) => ArgView::Field(f@),
            Arg::Fields(v) => ArgView::Fields(fields_view(v@)),
            Arg::Specs(v) => ArgView::Specs(specs_view(v@)),
            Arg::Uid(u) => ArgView::Uid(*u),
            Arg::Object(h) => ArgView::Object(*h),
        }
    }
}

/// What a list of arguments holds.
pub open spec fn args_view(args: Seq<Arg>) -> Seq<ArgView> {
    Seq::new(args.len(), |i: int| args[i]@)
}

/// A request: the object, the operation and its arguments in the order in
/// which the engine takes them.
#[derive(Debug, PartialEq)]
pub struct Request {
    pub target: Handle,
    pub op: Op,
    pub args: Vec<Arg>,
}

/// What a [`Request`] holds.
pub struct RequestView {
    pub target: Handle,
    pub op: Op,
    pub args: Seq<ArgView>,
}

impl View for Request {
    type V = RequestView;

    open spec fn view(&self) -> RequestView {
        RequestView { target: self.target, op: self.op, args: args_view(self.args@) }
    }
}

/// What a list of account records holds.
pub open spec fn users_view(users: Seq<RawUserInfo>) -> Seq<RawUserInfoView> {
    Seq::new(users.len(), |i: int| users[i]@)
}

/// What a list of role records holds.
pub open spec fn roles_view(roles: Seq<RawRoleInfo>) -> Seq<RawRoleInfoView> {
    Seq::new(roles.len(), |i: int| roles[i]@)
}

/// What the engine answered to a request: the failure message where it
/// failed, else what the operation gives.
pub enum AnswerView {
    /// The engine failed and gave this message.
    Failure(Seq<char>),
    /// The operation has no answer and cannot fail.
    Done,
    /// The answer of an operation that cannot fail.
    Probe(bool),
    Unit,
    Flag(bool),
    Size(usize),
    Int(i64),
    Short(u16),
    Code(u32),
    Text(Seq<char>),
    Texts(Seq<Seq<char>>),
    Sizes(Seq<usize>),
    Handle(u64),
    FlagSize((bool, usize)),
    SizePair((usize, usize)),
    FlagInts((bool, Seq<i64>)),
    Uid(RawEdgeUid),
    Field(RawFieldDataView),
    Fields(Seq<RawFieldDataView>),
    NamedFields((Seq<Seq<char>>, Seq<RawFieldDataView>)),
    Specs(Seq<RawFieldSpecView>),
    Indexes(Seq<RawIndexSpecView>),
    User(RawUserInfoView),
    Role(RawRoleInfoView),
    Graphs((Seq<Seq<char>>, Seq<Seq<char>>, Seq<usize>)),
    Users((Seq<Seq<char>>, Seq<RawUserInfoView>)),
    Roles((Seq<Seq<char>>, Seq<RawRoleInfoView>)),
    TextIndexes((Seq<bool>, Seq<Seq<char>>, Seq<Seq<char>>)),
    Hits((Seq<i64>, Seq<u32>)),
    EdgeHits((Seq<RawEdgeUid>, Seq<u32>)),
}

/// A request, the method of the engine that it went by and the answer to it.
pub struct Exchange {
    pub request: RequestView,
    pub shape: Shape,
    pub answer: AnswerView,
}

/// The trace `before` with one more exchange: the request for `op` on
/// `target` with `args`, which went by the method of the shape `shape` and
/// was answered by `answer`.
pub open spec fn sent(
    before: Seq<Exchange>,
    after: Seq<Exchange>,
    target: Handle,
    op: Op,
    args: Seq<ArgView>,
    shape: Shape,
    answer: AnswerView,
) -> bool {
    after == before.push(Exchange { request: RequestView { target, op, args }, shape, answer })
}

/// The trace `before` with one more exchange: the request for `op` on
/// `target` with `args`, which went by the method of the shape `shape`,
/// whatever was answered.
pub open spec fn called(
    before: Seq<Exchange>,
    after: Seq<Exchange>,
    target: Handle,
    op: Op,
    args: Seq<ArgView>,
    shape: Shape,
) -> bool {
    &&& after.len() == before.len() + 1
    &&& after.drop_last() == before
    &&& after.last().request == RequestView { target, op, args }
    &&& after.last().shape == shape
}

/// Where `sent` holds, `called` holds and the last answer is the one sent.
pub proof fn lemma_sent_called(
    before: Seq<Exchange>,
    after: Seq<Exchange>,
    target: Handle,
    op: Op,
    args: Seq<ArgView>,
    shape: Shape,
    answer: AnswerView,
)
    requires
        sent(before, after, target, op, args, shape, answer),
    ensures
        called(before, after, target, op, args, shape),
        after.last().answer == answer,
{
    assert(after.drop_last() =~= before);
}

/// The answer that the engine's result `out` stands for.
pub open spec fn unit_reply(out: core::result::Result<(), String>) -> AnswerView {
    match out {
        Ok(v) => AnswerView::Unit,
        Err(message) => AnswerView::Failure(message@),
    }
}

/// The answer that the result `r` stands for.
pub open spec fn unit_outcome(r: core::result::Result<(), Error>) -> AnswerView {
    match r {
        Ok(v) => AnswerView::Unit,
        Err(e) => AnswerView::Failure(e@),
    }
}

/// The answer that the engine's result `out` stands for.
pub open spec fn flag_reply(out: core::result::Result<bool, String>) -> AnswerView {
    match out {
        Ok(v) => AnswerView::Flag(v),
        Err(message) => AnswerView::Failure(message@),
    }
}

/// The answer that the result `r` stands for.
pub open spec fn flag_outcome(r: core::result::Result<bool, Error>) -> AnswerView {
    match r {
        Ok(v) => AnswerView::Flag(v),
        Err(e) => AnswerView::Failure(e@),
    }
}

/// The answer that the engine's result `out` stands for.
pub open spec fn size_reply(out: core::result::Result<usize, String>) -> AnswerView {
    match out {
        Ok(v) => AnswerView::Size(v),
        Err(message) => AnswerView::Failure(message@),
    }
}

/// The answer that the result `r` stands for.
pub open spec fn size_outcome(r: core::result::Result<usize, Error>) -> AnswerView {
    match r {
        Ok(v) => AnswerView::Size(v),
        Err(e) => AnswerView::Failure(e@),
    }
}

/// The answer that the engine's result `out` stands for.
pub open spec fn int_reply(out: core::result::Result<i64, String>) -> AnswerView {
    match out {
        Ok(v) => AnswerView::Int(v),
        Err(message) => AnswerView::Failure(message@),
    }
}

/// The answer that the result `r` stands for.
pub open spec fn int_outcome(r: core::result::Result<i64, Error>) -> AnswerView {
    match r {
        Ok(v) => AnswerView::Int(v),
        Err(e) => AnswerView::Failure(e@),
    }
}

/// The answer that the engine's result `out` stands for.
pub open spec fn short_reply(out: core::result::Result<u16, String>) -> AnswerView {
    match out {
        Ok(v) => AnswerView::Short(v),
        Err(message) => AnswerView::Failure(message@),
    }
}

/// The answer that the result `r` stands for.
pub open spec fn short_outcome(r: core::result::Result<u16, Error>) -> AnswerView {
    match r {
        Ok(v) => AnswerView::Short(v),
        Err(e) => AnswerView::Failure(e@),
    }
}

/// The answer that the engine's result `out` stands for.
pub open spec fn code_reply(out: core::result::Result<u32, String>) -> AnswerView {
    match out {
        Ok(v) => AnswerView::Code(v),
        Err(message) => AnswerView::Failure(message@),
    }
}

/// The answer that the result `r` stands for.
pub open spec fn code_outcome(r: core::result::Result<u32, Error>) -> AnswerView {
    match r {
        Ok(v) => AnswerView::Code(v),
        Err(e) => AnswerView::Failure(e@),
    }
}

/// The answer that the engine's result `out` stands for.
pub open spec fn text_reply(out: core::result::Result<String, String>) -> AnswerView {
    match out {
        Ok(v) => AnswerView::Text(v@),
        Err(message) => AnswerView::Failure(message@),
    }
}

/// The answer that the result `r` stands for.
pub open spec fn text_outcome(r: core::result::Result<String, Error>) -> AnswerView {
    match r {
        Ok(v) => AnswerView::Text(v@),
        Err(e) => AnswerView::Failure(e@),
    }
}

/// The answer that the engine's result `out` stands for.
pub open spec fn texts_reply(out: core::result::Result<Vec<String>, String>) -> AnswerView {
    match out {
        Ok(v) => AnswerView::Texts(v.deep_view()),
        Err(message) => AnswerView::Failure(message@),
    }
}

/// The answer that the result `r` stands for.
pub open spec fn texts_outcome(r: core::result::Result<Vec<String>, Error>) -> AnswerView {
    match r {
        Ok(v) => AnswerView::Texts(v.deep_view()),
        Err(e) => AnswerView::Failure(e@),
    }
}

/// The answer that the engine's result `out` stands for.
pub open spec fn sizes_reply(out: core::result::Result<Vec<usize>, String>) -> AnswerView {
    match out {
        Ok(v) => AnswerView::Sizes(v@),
        Err(message) => AnswerView::Failure(message@),
    }
}

/// The answer that the result `r` stands for.
pub open spec fn sizes_outcome(r: core::result::Result<Vec<usize>, Error>) -> AnswerView {
    match r {
        Ok(v) => AnswerView::Sizes(v@),
        Err(e) => AnswerView::Failure(e@),
    }
}

/// The answer that the engine's result `out` stands for.
pub open spec fn handle_reply(out: core::result::Result<u64, String>) -> AnswerView {
    match out {
        Ok(v) => AnswerView::Handle(v),
        Err(message) => AnswerView::Failure(message@),
    }
}

/// The answer that the result `r` stands for.
pub open spec fn handle_outcome(r: core::result::Result<u64, Error>) -> AnswerView {
    match r {
        Ok(v) => AnswerView::Handle(v),
        Err(e) => AnswerView::Failure(e@),
    }
}

/// The answer that the engine's result `out` stands for.
pub open spec fn flag_size_reply(out: core::result::Result<(bool, usize), String>) -> AnswerView {
    match out {
        Ok(v) => AnswerView::FlagSize(v),
        Err(message) => AnswerView::Failure(message@),
    }
}

/// The answer that the result `r` stands for.
pub open spec fn flag_size_outcome(r: core::result::Result<(bool, usize), Error>) -> AnswerView {
    match r {
        Ok(v) => AnswerView::FlagSize(v),
        Err(e) => AnswerView::Failure(e@),
    }
}

/// The answer that the engine's result `out` stands for.
pub open spec fn size_pair_reply(out: core::result::Result<(usize, usize), String>) -> AnswerView {
    match out {
        Ok(v) => AnswerView::SizePair(v),
        Err(message) => AnswerView::Failure(message@),
    }
}

/// The answer that the result `r` stands for.
pub open spec fn size_pair_outcome(r: core::result::Result<(usize, usize), Error>) -> AnswerView {
    match r {
        Ok(v) => AnswerView::SizePair(v),
        Err(e) => AnswerView::Failure(e@),
    }
}

/// The answer that the engine's result `out` stands for.
pub open spec fn flag_ints_reply(
    out: core::result::Result<(bool, Vec<i64>), String>
) -> AnswerView {
    match out {
        Ok(v) => AnswerView::FlagInts((v.0, v.1@)),
        Err(message) => AnswerView::Failure(message@),
    }
}

/// The answer that the result `r` stands for.
pub open spec fn flag_ints_outcome(r: core::result::Result<(bool, Vec<i64>), Error>) -> AnswerView {
    match r {
        Ok(v) => AnswerView::FlagInts((v.0, v.1@)),
        Err(e) => AnswerView::Failure(e@),
    }
}

/// The answer that the engine's result `out` stands for.
pub open spec fn uid_reply(out: core::result::Result<RawEdgeUid, String>) -> AnswerView {
    match out {
        Ok(v) => AnswerView::Uid(v),
        Err(message) => AnswerView::Failure(message@),
    }
}

/// The answer that the result `r` stands for.
pub open spec fn uid_outcome(r: core::result::Result<RawEdgeUid, Error>) -> AnswerView {
    match r {
        Ok(v) => AnswerView::Uid(v),
        Err(e) => AnswerView::Failure(e@),
    }
}

/// The answer that the engine's result `out` stands for.
pub open spec fn field_reply(out: core::result::Result<RawFieldData, String>) -> AnswerView {
    match out {
        Ok(v) => AnswerView::Field(v@),
        Err(message) => AnswerView::Failure(message@),
    }
}

/// The answer that the result `r` stands for.
pub open spec fn field_outcome(r: core::result::Result<RawFieldData, Error>) -> AnswerView {
    match r {
        Ok(v) => AnswerView::Field(v@),
        Err(e) => AnswerView::Failure(e@),
    }
}

/// The answer that the engine's result `out` stands for.
pub open spec fn fields_reply(out: core::result::Result<Vec<RawFieldData>, String>) -> AnswerView {
    match out {
        Ok(v) => AnswerView::Fields(fields_view(v@)),
        Err(message) => AnswerView::Failure(message@),
    }
}

/// The answer that the result `r` stands for.
pub open spec fn fields_outcome(r: core::result::Result<Vec<RawFieldData>, Error>) -> AnswerView {
    match r {
        Ok(v) => AnswerView::Fields(fields_view(v@)),
        Err(e) => AnswerView::Failure(e@),
    }
}

/// The answer that the engine's result `out` stands for.
pub open spec fn named_fields_reply(
    out: core::result::Result<(Vec<String>, Vec<RawFieldData>), String>
) -> AnswerView {
    match out {
        Ok(v) => AnswerView::NamedFields((v.0.deep_view(), fields_view(v.1@))),
        Err(message) => AnswerView::Failure(message@),
    }
}

/// The answer that the result `r` stands for.
pub open spec fn named_fields_outcome(
    r: core::result::Result<(Vec<String>, Vec<RawFieldData>), Error>
) -> AnswerView {
    match r {
        Ok(v) => AnswerView::NamedFields((v.0.deep_view(), fields_view(v.1@))),
        Err(e) => AnswerView::Failure(e@),
    }
}

/// The answer that the engine's result `out` stands for.
pub open spec fn specs_reply(out: core::result::Result<Vec<RawFieldSpec>, String>) -> AnswerView {
    match out {
        Ok(v) => AnswerView::Specs(specs_view(v@)),
        Err(message) => AnswerView::Failure(message@),
    }
}

/// The answer that the result `r` stands for.
pub open spec fn specs_outcome(r: core::result::Result<Vec<RawFieldSpec>, Error>) -> AnswerView {
    match r {
        Ok(v) => AnswerView::Specs(specs_view(v@)),
        Err(e) => AnswerView::Failure(e@),
    }
}

/// The answer that the engine's result `out` stands for.
pub open spec fn indexes_reply(out: core::result::Result<Vec<RawIndexSpec>, String>) -> AnswerView {
    match out {
        Ok(v) => AnswerView::Indexes(indexes_view(v@)),
        Err(message) => AnswerView::Failure(message@),
    }
}

/// The answer that the result `r` stands for.
pub open spec fn indexes_outcome(r: core::result::Result<Vec<RawIndexSpec>, Error>) -> AnswerView {
    match r {
        Ok(v) => AnswerView::Indexes(indexes_view(v@)),
        Err(e) => AnswerView::Failure(e@),
    }
}

/// The answer that the engine's result `out` stands for.
pub open spec fn user_reply(out: core::result::Result<RawUserInfo, String>) -> AnswerView {
    match out {
        Ok(v) => AnswerView::User(v@),
        Err(message) => AnswerView::Failure(message@),
    }
}

/// The answer that the result `r` stands for.
pub open spec fn user_outcome(r: core::result::Result<RawUserInfo, Error>) -> AnswerView {
    match r {
        Ok(v) => AnswerView::User(v@),
        Err(e) => AnswerView::Failure(e@),
    }
}

/// The answer that the engine's result `out` stands for.
pub open spec fn role_reply(out: core::result::Result<RawRoleInfo, String>) -> AnswerView {
    match out {
        Ok(v) => AnswerView::Role(v@),
        Err(message) => AnswerView::Failure(message@),
    }
}

/// The answer that the result `r` stands for.
pub open spec fn role_outcome(r: core::result::Result<RawRoleInfo, Error>) -> AnswerView {
    match r {
        Ok(v) => AnswerView::Role(v@),
        Err(e) => AnswerView::Failure(e@),
    }
}

/// The answer that the engine's result `out` stands for.
pub open spec fn graphs_reply(
    out: core::result::Result<(Vec<String>, Vec<String>, Vec<usize>), String>
) -> AnswerView {
    match out {
        Ok(v) => AnswerView::Graphs((v.0.deep_view(), v.1.deep_view(), v.2@)),
        Err(message) => AnswerView::Failure(message@),
    }
}

/// The answer that the result `r` stands for.
pub open spec fn graphs_outcome(
    r: core::result::Result<(Vec<String>, Vec<String>, Vec<usize>), Error>
) -> AnswerView {
    match r {
        Ok(v) => AnswerView::Graphs((v.0.deep_view(), v.1.deep_view(), v.2@)),
        Err(e) => AnswerView::Failure(e@),
    }
}

/// The answer that the engine's result `out` stands for.
pub open spec fn users_reply(
    out: core::result::Result<(Vec<String>, Vec<RawUserInfo>), String>
) -> AnswerView {
    match out {
        Ok(v) => AnswerView::Users((v.0.deep_view(), users_view(v.1@))),
        Err(message) => AnswerView::Failure(message@),
    }
}

/// The answer that the result `r` stands for.
pub open spec fn users_outcome(
    r: core::result::Result<(Vec<String>, Vec<RawUserInfo>), Error>
) -> AnswerView {
    match r {
        Ok(v) => AnswerView::Users((v.0.deep_view(), users_view(v.1@))),
        Err(e) => AnswerView::Failure(e@),
    }
}

/// The answer that the engine's result `out` stands for.
pub open spec fn roles_reply(
    out: core::result::Result<(Vec<String>, Vec<RawRoleInfo>), String>
) -> AnswerView {
    match out {
        Ok(v) => AnswerView::Roles((v.0.deep_view(), roles_view(v.1@))),
        Err(message) => AnswerView::Failure(message@),
    }
}

/// The answer that the result `r` stands for.
pub open spec fn roles_outcome(
    r: core::result::Result<(Vec<String>, Vec<RawRoleInfo>), Error>
) -> AnswerView {
    match r {
        Ok(v) => AnswerView::Roles((v.0.deep_view(), roles_view(v.1@))),
        Err(e) => AnswerView::Failure(e@),
    }
}

/// The answer that the engine's result `out` stands for.
pub open spec fn text_indexes_reply(
    out: core::result::Result<(Vec<bool>, Vec<String>, Vec<String>), String>
) -> AnswerView {
    match out {
        Ok(v) => AnswerView::TextIndexes((v.0@, v.1.deep_view(), v.2.deep_view())),
        Err(message) => AnswerView::Failure(message@),
    }
}

/// The answer that the result `r` stands for.
pub open spec fn text_indexes_outcome(
    r: core::result::Result<(Vec<bool>, Vec<String>, Vec<String>), Error>
) -> AnswerView {
    match r {
        Ok(v) => AnswerView::TextIndexes((v.0@, v.1.deep_view(), v.2.deep_view())),
        Err(e) => AnswerView::Failure(e@),
    }
}

/// The answer that the engine's result `out` stands for.
pub open spec fn hits_reply(
    out: core::result::Result<(Vec<i64>, Vec<u32>), String>
) -> AnswerView {
    match out {
        Ok(v) => AnswerView::Hits((v.0@, v.1@)),
        Err(message) => AnswerView::Failure(message@),
    }
}

/// The answer that the result `r` stands for.
pub open spec fn hits_outcome(r: core::result::Result<(Vec<i64>, Vec<u32>), Error>) -> AnswerView {
    match r {
        Ok(v) => AnswerView::Hits((v.0@, v.1@)),
        Err(e) => AnswerView::Failure(e@),
    }
}

/// The answer that the engine's result `out` stands for.
pub open spec fn edge_hits_reply(
    out: core::result::Result<(Vec<RawEdgeUid>, Vec<u32>), String>
) -> AnswerView {
    match out {
        Ok(v) => AnswerView::EdgeHits((v.0@, v.1@)),
        Err(message) => AnswerView::Failure(message@),
    }
}

/// The answer that the result `r` stands for.
pub open spec fn edge_hits_outcome(
    r: core::result::Result<(Vec<RawEdgeUid>, Vec<u32>), Error>
) -> AnswerView {
    match r {
        Ok(v) => AnswerView::EdgeHits((v.0@, v.1@)),
        Err(e) => AnswerView::Failure(e@),
    }
}

/// The engine, as far as this crate needs it.
///
/// Each method carries one request out. The methods differ in what the
/// operation gives back; which method goes with which operation is fixed by
/// the functions of this crate that make the requests. A method that can
/// fail gives the engine's failure message as its error.
///
/// The trace is the list of all exchanges so far, the latest last. A method
/// adds the exchange that it made and changes nothing else of the trace.
pub trait Engine {
    /// The exchanges so far.
    spec fn trace(&self) -> Seq<Exchange>;

    /// Carries out an operation that gives nothing back and cannot fail.
    fn signal(&mut self, request: Request)
        ensures
            final(self).trace() == old(self).trace().push(
                Exchange { request: request@, shape: Shape::Done, answer: AnswerView::Done },
            ),
    ;

    /// Carries out an operation that gives a boolean and cannot fail.
    fn probe(&mut self, request: Request) -> (out: bool)
        ensures
            final(self).trace() == old(self).trace().push(
                Exchange { request: request@, shape: Shape::Probe, answer: AnswerView::Probe(out) },
            ),
    ;

    /// Carries out an operation that gives nothing.
    fn call_unit(&mut self, request: Request) -> (out: core::result::Result<(), String>)
        ensures
            final(self).trace() == old(self).trace().push(
                Exchange { request: request@, shape: Shape::Unit, answer: unit_reply(out) },
            ),
    ;

    /// Carries out an operation that gives a boolean.
    fn call_flag(&mut self, request: Request) -> (out: core::result::Result<bool, String>)
        ensures
            final(self).trace() == old(self).trace().push(
                Exchange { request: request@, shape: Shape::Flag, answer: flag_reply(out) },
            ),
    ;

    /// Carries out an operation that gives a size.
    fn call_size(&mut self, request: Request) -> (out: core::result::Result<usize, String>)
        ensures
            final(self).trace() == old(self).trace().push(
                Exchange { request: request@, shape: Shape::Size, answer: size_reply(out) },
            ),
    ;

    /// Carries out an operation that gives a 64-bit integer.
    fn call_int(&mut self, request: Request) -> (out: core::result::Result<i64, String>)
        ensures
            final(self).trace() == old(self).trace().push(
                Exchange { request: request@, shape: Shape::Int, answer: int_reply(out) },
            ),
    ;

    /// Carries out an operation that gives a 16-bit id.
    fn call_short(&mut self, request: Request) -> (out: core::result::Result<u16, String>)
        ensures
            final(self).trace() == old(self).trace().push(
                Exchange { request: request@, shape: Shape::Short, answer: short_reply(out) },
            ),
    ;

    /// Carries out an operation that gives a code.
    fn call_code(&mut self, request: Request) -> (out: core::result::Result<u32, String>)
        ensures
            final(self).trace() == old(self).trace().push(
                Exchange { request: request@, shape: Shape::Code, answer: code_reply(out) },
            ),
    ;

    /// Carries out an operation that gives a text.
    fn call_text(&mut self, request: Request) -> (out: core::result::Result<String, String>)
        ensures
            final(self).trace() == old(self).trace().push(
                Exchange { request: request@, shape: Shape::Text, answer: text_reply(out) },
            ),
    ;

    /// Carries out an operation that gives a list of texts.
    fn call_texts(&mut self, request: Request) -> (out: core::result::Result<Vec<String>, String>)
        ensures
            final(self).trace() == old(self).trace().push(
                Exchange { request: request@, shape: Shape::Texts, answer: texts_reply(out) },
            ),
    ;

    /// Carries out an operation that gives a list of sizes.
    fn call_sizes(&mut self, request: Request) -> (out: core::result::Result<Vec<usize>, String>)
        ensures
            final(self).trace() == old(self).trace().push(
                Exchange { request: request@, shape: Shape::Sizes, answer: sizes_reply(out) },
            ),
    ;

    /// Carries out an operation that gives the id of a new engine object.
    fn call_handle(&mut self, request: Request) -> (out: core::result::Result<u64, String>)
        ensures
            final(self).trace() == old(self).trace().push(
                Exchange { request: request@, shape: Shape::Handle, answer: handle_reply(out) },
            ),
    ;

    /// Carries out an operation that gives a boolean and a size.
    fn call_flag_size(&mut self, request: Request) -> (
        out: core::result::Result<(bool, usize), String>
    )
        ensures
            final(self).trace() == old(self).trace().push(
                Exchange {
                    request: request@,
                    shape: Shape::FlagSize,
                    answer: flag_size_reply(out),
                },
            ),
    ;

    /// Carries out an operation that gives two sizes.
    fn call_size_pair(&mut self, request: Request) -> (
        out: core::result::Result<(usize, usize), String>
    )
        ensures
            final(self).trace() == old(self).trace().push(
                Exchange {
                    request: request@,
                    shape: Shape::SizePair,
                    answer: size_pair_reply(out),
                },
            ),
    ;

    /// Carries out an operation that gives a boolean and a list of integers.
    fn call_flag_ints(&mut self, request: Request) -> (
        out: core::result::Result<(bool, Vec<i64>), String>
    )
        ensures
            final(self).trace() == old(self).trace().push(
                Exchange {
                    request: request@,
                    shape: Shape::FlagInts,
                    answer: flag_ints_reply(out),
                },
            ),
    ;

    /// Carries out an operation that gives an edge identifier.
    fn call_uid(&mut self, request: Request) -> (out: core::result::Result<RawEdgeUid, String>)
        ensures
            final(self).trace() == old(self).trace().push(
                Exchange { request: request@, shape: Shape::Uid, answer: uid_reply(out) },
            ),
    ;

    /// Carries out an operation that gives a field value.
    fn call_field(&mut self, request: Request) -> (out: core::result::Result<RawFieldData, String>)
        ensures
            final(self).trace() == old(self).trace().push(
                Exchange { request: request@, shape: Shape::Field, answer: field_reply(out) },
            ),
    ;

    /// Carries out an operation that gives a list of field values.
    fn call_fields(&mut self, request: Request) -> (
        out: core::result::Result<Vec<RawFieldData>, String>
    )
        ensures
            final(self).trace() == old(self).trace().push(
                Exchange { request: request@, shape: Shape::Fields, answer: fields_reply(out) },
            ),
    ;

    /// Carries out an operation that gives a column of names and a column of
    /// field values.
    fn call_named_fields(&mut self, request: Request) -> (
        out: core::result::Result<(Vec<String>, Vec<RawFieldData>), String>
    )
        ensures
            final(self).trace() == old(self).trace().push(
                Exchange {
                    request: request@,
                    shape: Shape::NamedFields,
                    answer: named_fields_reply(out),
                },
            ),
    ;

    /// Carries out an operation that gives a list of field descriptions.
    fn call_specs(&mut self, request: Request) -> (
        out: core::result::Result<Vec<RawFieldSpec>, String>
    )
        ensures
            final(self).trace() == old(self).trace().push(
                Exchange { request: request@, shape: Shape::Specs, answer: specs_reply(out) },
            ),
    ;

    /// Carries out an operation that gives a list of index descriptions.
    fn call_indexes(&mut self, request: Request) -> (
        out: core::result::Result<Vec<RawIndexSpec>, String>
    )
        ensures
            final(self).trace() == old(self).trace().push(
                Exchange { request: request@, shape: Shape::Indexes, answer: indexes_reply(out) },
            ),
    ;

    /// Carries out an operation that gives the record of an account.
    fn call_user(&mut self, request: Request) -> (out: core::result::Result<RawUserInfo, String>)
        ensures
            final(self).trace() == old(self).trace().push(
                Exchange { request: request@, shape: Shape::User, answer: user_reply(out) },
            ),
    ;

    /// Carries out an operation that gives the record of a role.
    fn call_role(&mut self, request: Request) -> (out: core::result::Result<RawRoleInfo, String>)
        ensures
            final(self).trace() == old(self).trace().push(
                Exchange { request: request@, shape: Shape::Role, answer: role_reply(out) },
            ),
    ;

    /// Carries out an operation that gives a column of graph names, one of
    /// descriptions and one of sizes.
    fn call_graphs(&mut self, request: Request) -> (
        out: core::result::Result<(Vec<String>, Vec<String>, Vec<usize>), String>
    )
        ensures
            final(self).trace() == old(self).trace().push(
                Exchange { request: request@, shape: Shape::Graphs, answer: graphs_reply(out) },
            ),
    ;

    /// Carries out an operation that gives a column of account names and one of
    /// records.
    fn call_users(&mut self, request: Request) -> (
        out: core::result::Result<(Vec<String>, Vec<RawUserInfo>), String>
    )
        ensures
            final(self).trace() == old(self).trace().push(
                Exchange { request: request@, shape: Shape::Users, answer: users_reply(out) },
            ),
    ;

    /// Carries out an operation that gives a column of role names and one of
    /// records.
    fn call_roles(&mut self, request: Request) -> (
        out: core::result::Result<(Vec<String>, Vec<RawRoleInfo>), String>
    )
        ensures
            final(self).trace() == old(self).trace().push(
                Exchange { request: request@, shape: Shape::Roles, answer: roles_reply(out) },
            ),
    ;

    /// Carries out an operation that gives a column of booleans and two columns
    /// of texts.
    fn call_text_indexes(&mut self, request: Request) -> (
        out: core::result::Result<(Vec<bool>, Vec<String>, Vec<String>), String>
    )
        ensures
            final(self).trace() == old(self).trace().push(
                Exchange {
                    request: request@,
                    shape: Shape::TextIndexes,
                    answer: text_indexes_reply(out),
                },
            ),
    ;

    /// Carries out an operation that gives a column of vertex ids and one of
    /// scores, each score as the bits of a single-precision number.
    fn call_hits(&mut self, request: Request) -> (
        out: core::result::Result<(Vec<i64>, Vec<u32>), String>
    )
        ensures
            final(self).trace() == old(self).trace().push(
                Exchange { request: request@, shape: Shape::Hits, answer: hits_reply(out) },
            ),
    ;

    /// Carries out an operation that gives a column of edge identifiers and
    /// one of scores, each score as the bits of a single-precision number.
    fn call_edge_hits(&mut self, request: Request) -> (
        out: core::result::Result<(Vec<RawEdgeUid>, Vec<u32>), String>
    )
        ensures
            final(self).trace() == old(self).trace().push(
                Exchange {
                    request: request@,
                    shape: Shape::EdgeHits,
                    answer: edge_hits_reply(out),
                },
            ),
    ;

}

/// The request made of these parts.
pub fn request(target: Handle, op: Op, args: Vec<Arg>) -> (r: Request)
    ensures
        r@ == (RequestView { target, op, args: args_view(args@) }),
{
    Request { target, op, args }
}

/// Has the engine carry out an operation that gives nothing back and cannot
/// fail.
pub fn tell<E: Engine>(engine: &mut E, target: Handle, op: Op, args: Vec<Arg>)
    ensures
        sent(
            old(engine).trace(),
            final(engine).trace(),
            target,
            op,
            args_view(args@),
            Shape::Done,
            AnswerView::Done,
        ),
{
    engine.signal(request(target, op, args))
}

/// Has the engine carry out an operation that gives a boolean and cannot
/// fail.
pub fn check<E: Engine>(engine: &mut E, target: Handle, op: Op, args: Vec<Arg>) -> (out: bool)
    ensures
        sent(
            old(engine).trace(),
            final(engine).trace(),
            target,
            op,
            args_view(args@),
            Shape::Probe,
            AnswerView::Probe(out),
        ),
{
    engine.probe(request(target, op, args))
}

/// Has the engine carry out an operation that gives nothing, and makes
/// an error of its failure message where it fails.
pub fn ask_unit<E: Engine>(engine: &mut E, target: Handle, op: Op, args: Vec<Arg>) -> (r:
    core::result::Result<(), Error>)
    ensures
        sent(
            old(engine).trace(),
            final(engine).trace(),
            target,
            op,
            args_view(args@),
            Shape::Unit,
            unit_outcome(r),
        ),
{
    match engine.call_unit(request(target, op, args)) {
        Ok(v) => Ok(v),
        Err(message) => Err(Error::new(message)),
    }
}

/// Has the engine carry out an operation that gives a boolean, and makes
/// an error of its failure message where it fails.
pub fn ask_flag<E: Engine>(engine: &mut E, target: Handle, op: Op, args: Vec<Arg>) -> (r:
    core::result::Result<bool, Error>)
    ensures
        sent(
            old(engine).trace(),
            final(engine).trace(),
            target,
            op,
            args_view(args@),
            Shape::Flag,
            flag_outcome(r),
        ),
{
    match engine.call_flag(request(target, op, args)) {
        Ok(v) => Ok(v),
        Err(message) => Err(Error::new(message)),
    }
}

/// Has the engine carry out an operation that gives a size, and makes
/// an error of its failure message where it fails.
pub fn ask_size<E: Engine>(engine: &mut E, target: Handle, op: Op, args: Vec<Arg>) -> (r:
    core::result::Result<usize, Error>)
    ensures
        sent(
            old(engine).trace(),
            final(engine).trace(),
            target,
            op,
            args_view(args@),
            Shape::Size,
            size_outcome(r),
        ),
{
    match engine.call_size(request(target, op, args)) {
        Ok(v) => Ok(v),
        Err(message) => Err(Error::new(message)),
    }
}

/// Has the engine carry out an operation that gives a 64-bit integer, and makes
/// an error of its failure message where it fails.
pub fn ask_int<E: Engine>(engine: &mut E, target: Handle, op: Op, args: Vec<Arg>) -> (r:
    core::result::Result<i64, Error>)
    ensures
        sent(
            old(engine).trace(),
            final(engine).trace(),
            target,
            op,
            args_view(args@),
            Shape::Int,
            int_outcome(r),
        ),
{
    match engine.call_int(request(target, op, args)) {
        Ok(v) => Ok(v),
        Err(message) => Err(Error::new(message)),
    }
}

/// Has the engine carry out an operation that gives a 16-bit id, and makes
/// an error of its failure message where it fails.
pub fn ask_short<E: Engine>(engine: &mut E, target: Handle, op: Op, args: Vec<Arg>) -> (r:
    core::result::Result<u16, Error>)
    ensures
        sent(
            old(engine).trace(),
            final(engine).trace(),
            target,
            op,
            args_view(args@),
            Shape::Short,
            short_outcome(r),
        ),
{
    match engine.call_short(request(target, op, args)) {
        Ok(v) => Ok(v),
        Err(message) => Err(Error::new(message)),
    }
}

/// Has the engine carry out an operation that gives a code, and makes
/// an error of its failure message where it fails.
pub fn ask_code<E: Engine>(engine: &mut E, target: Handle, op: Op, args: Vec<Arg>) -> (r:
    core::result::Result<u32, Error>)
    ensures
        sent(
            old(engine).trace(),
            final(engine).trace(),
            target,
            op,
            args_view(args@),
            Shape::Code,
            code_outcome(r),
        ),
{
    match engine.call_code(request(target, op, args)) {
        Ok(v) => Ok(v),
        Err(message) => Err(Error::new(message)),
    }
}

/// Has the engine carry out an operation that gives a text, and makes
/// an error of its failure message where it fails.
pub fn ask_text<E: Engine>(engine: &mut E, target: Handle, op: Op, args: Vec<Arg>) -> (r:
    core::result::Result<String, Error>)
    ensures
        sent(
            old(engine).trace(),
            final(engine).trace(),
            target,
            op,
            args_view(args@),
            Shape::Text,
            text_outcome(r),
        ),
{
    match engine.call_text(request(target, op, args)) {
        Ok(v) => Ok(v),
        Err(message) => Err(Error::new(message)),
    }
}

/// Has the engine carry out an operation that gives a list of texts, and makes
/// an error of its failure message where it fails.
pub fn ask_texts<E: Engine>(engine: &mut E, target: Handle, op: Op, args: Vec<Arg>) -> (r:
    core::result::Result<Vec<String>, Error>)
    ensures
        sent(
            old(engine).trace(),
            final(engine).trace(),
            target,
            op,
            args_view(args@),
            Shape::Texts,
            texts_outcome(r),
        ),
{
    match engine.call_texts(request(target, op, args)) {
        Ok(v) => Ok(v),
        Err(message) => Err(Error::new(message)),
    }
}

/// Has the engine carry out an operation that gives a list of sizes, and makes
/// an error of its failure message where it fails.
pub fn ask_sizes<E: Engine>(engine: &mut E, target: Handle, op: Op, args: Vec<Arg>) -> (r:
    core::result::Result<Vec<usize>, Error>)
    ensures
        sent(
            old(engine).trace(),
            final(engine).trace(),
            target,
            op,
            args_view(args@),
            Shape::Sizes,
            sizes_outcome(r),
        ),
{
    match engine.call_sizes(request(target, op, args)) {
        Ok(v) => Ok(v),
        Err(message) => Err(Error::new(message)),
    }
}

/// Has the engine carry out an operation that gives the id of a new engine
/// object, and makes an error of its failure message where it fails.
pub fn ask_handle<E: Engine>(engine: &mut E, target: Handle, op: Op, args: Vec<Arg>) -> (r:
    core::result::Result<u64, Error>)
    ensures
        sent(
            old(engine).trace(),
            final(engine).trace(),
            target,
            op,
            args_view(args@),
            Shape::Handle,
            handle_outcome(r),
        ),
{
    match engine.call_handle(request(target, op, args)) {
        Ok(v) => Ok(v),
        Err(message) => Err(Error::new(message)),
    }
}

/// Has the engine carry out an operation that gives a boolean and a size, and
/// makes an error of its failure message where it fails.
pub fn ask_flag_size<E: Engine>(engine: &mut E, target: Handle, op: Op, args: Vec<Arg>) -> (r:
    core::result::Result<(bool, usize), Error>)
    ensures
        sent(
            old(engine).trace(),
            final(engine).trace(),
            target,
            op,
            args_view(args@),
            Shape::FlagSize,
            flag_size_outcome(r),
        ),
{
    match engine.call_flag_size(request(target, op, args)) {
        Ok(v) => Ok(v),
        Err(message) => Err(Error::new(message)),
    }
}

/// Has the engine carry out an operation that gives two sizes, and makes
/// an error of its failure message where it fails.
pub fn ask_size_pair<E: Engine>(engine: &mut E, target: Handle, op: Op, args: Vec<Arg>) -> (r:
    core::result::Result<(usize, usize), Error>)
    ensures
        sent(
            old(engine).trace(),
            final(engine).trace(),
            target,
            op,
            args_view(args@),
            Shape::SizePair,
            size_pair_outcome(r),
        ),
{
    match engine.call_size_pair(request(target, op, args)) {
        Ok(v) => Ok(v),
        Err(message) => Err(Error::new(message)),
    }
}

/// Has the engine carry out an operation that gives a boolean and a list of
/// integers, and makes an error of its failure message where it fails.
pub fn ask_flag_ints<E: Engine>(engine: &mut E, target: Handle, op: Op, args: Vec<Arg>) -> (r:
    core::result::Result<(bool, Vec<i64>), Error>)
    ensures
        sent(
            old(engine).trace(),
            final(engine).trace(),
            target,
            op,
            args_view(args@),
            Shape::FlagInts,
            flag_ints_outcome(r),
        ),
{
    match engine.call_flag_ints(request(target, op, args)) {
        Ok(v) => Ok(v),
        Err(message) => Err(Error::new(message)),
    }
}

/// Has the engine carry out an operation that gives an edge identifier, and
/// makes an error of its failure message where it fails.
pub fn ask_uid<E: Engine>(engine: &mut E, target: Handle, op: Op, args: Vec<Arg>) -> (r:
    core::result::Result<RawEdgeUid, Error>)
    ensures
        sent(
            old(engine).trace(),
            final(engine).trace(),
            target,
            op,
            args_view(args@),
            Shape::Uid,
            uid_outcome(r),
        ),
{
    match engine.call_uid(request(target, op, args)) {
        Ok(v) => Ok(v),
        Err(message) => Err(Error::new(message)),
    }
}

/// Has the engine carry out an operation that gives a field value, and makes
/// an error of its failure message where it fails.
pub fn ask_field<E: Engine>(engine: &mut E, target: Handle, op: Op, args: Vec<Arg>) -> (r:
    core::result::Result<RawFieldData, Error>)
    ensures
        sent(
            old(engine).trace(),
            final(engine).trace(),
            target,
            op,
            args_view(args@),
            Shape::Field,
            field_outcome(r),
        ),
{
    match engine.call_field(request(target, op, args)) {
        Ok(v) => Ok(v),
        Err(message) => Err(Error::new(message)),
    }
}

/// Has the engine carry out an operation that gives a list of field values, and
/// makes an error of its failure message where it fails.
pub fn ask_fields<E: Engine>(engine: &mut E, target: Handle, op: Op, args: Vec<Arg>) -> (r:
    core::result::Result<Vec<RawFieldData>, Error>)
    ensures
        sent(
            old(engine).trace(),
            final(engine).trace(),
            target,
            op,
            args_view(args@),
            Shape::Fields,
            fields_outcome(r),
        ),
{
    match engine.call_fields(request(target, op, args)) {
        Ok(v) => Ok(v),
        Err(message) => Err(Error::new(message)),
    }
}

/// Has the engine carry out an operation that gives a column of names and a
/// column of field values, and makes an error of its failure message where it
/// fails.
pub fn ask_named_fields<E: Engine>(engine: &mut E, target: Handle, op: Op, args: Vec<Arg>) -> (r:
    core::result::Result<(Vec<String>, Vec<RawFieldData>), Error>)
    ensures
        sent(
            old(engine).trace(),
            final(engine).trace(),
            target,
            op,
            args_view(args@),
            Shape::NamedFields,
            named_fields_outcome(r),
        ),
{
    match engine.call_named_fields(request(target, op, args)) {
        Ok(v) => Ok(v),
        Err(message) => Err(Error::new(message)),
    }
}

/// Has the engine carry out an operation that gives a list of field
/// descriptions, and makes an error of its failure message where it fails.
pub fn ask_specs<E: Engine>(engine: &mut E, target: Handle, op: Op, args: Vec<Arg>) -> (r:
    core::result::Result<Vec<RawFieldSpec>, Error>)
    ensures
        sent(
            old(engine).trace(),
            final(engine).trace(),
            target,
            op,
            args_view(args@),
            Shape::Specs,
            specs_outcome(r),
        ),
{
    match engine.call_specs(request(target, op, args)) {
        Ok(v) => Ok(v),
        Err(message) => Err(Error::new(message)),
    }
}

/// Has the engine carry out an operation that gives a list of index
/// descriptions, and makes an error of its failure message where it fails.
pub fn ask_indexes<E: Engine>(engine: &mut E, target: Handle, op: Op, args: Vec<Arg>) -> (r:
    core::result::Result<Vec<RawIndexSpec>, Error>)
    ensures
        sent(
            old(engine).trace(),
            final(engine).trace(),
            target,
            op,
            args_view(args@),
            Shape::Indexes,
            indexes_outcome(r),
        ),
{
    match engine.call_indexes(request(target, op, args)) {
        Ok(v) => Ok(v),
        Err(message) => Err(Error::new(message)),
    }
}

/// Has the engine carry out an operation that gives the record of an account,
/// and makes an error of its failure message where it fails.
pub fn ask_user<E: Engine>(engine: &mut E, target: Handle, op: Op, args: Vec<Arg>) -> (r:
    core::result::Result<RawUserInfo, Error>)
    ensures
        sent(
            old(engine).trace(),
            final(engine).trace(),
            target,
            op,
            args_view(args@),
            Shape::User,
            user_outcome(r),
        ),
{
    match engine.call_user(request(target, op, args)) {
        Ok(v) => Ok(v),
        Err(message) => Err(Error::new(message)),
    }
}

/// Has the engine carry out an operation that gives the record of a role, and
/// makes an error of its failure message where it fails.
pub fn ask_role<E: Engine>(engine: &mut E, target: Handle, op: Op, args: Vec<Arg>) -> (r:
    core::result::Result<RawRoleInfo, Error>)
    ensures
        sent(
            old(engine).trace(),
            final(engine).trace(),
            target,
            op,
            args_view(args@),
            Shape::Role,
            role_outcome(r),
        ),
{
    match engine.call_role(request(target, op, args)) {
        Ok(v) => Ok(v),
        Err(message) => Err(Error::new(message)),
    }
}

/// Has the engine carry out an operation that gives a column of graph names,
/// one of descriptions and one of sizes, and makes an error of its failure
/// message where it fails.
pub fn ask_graphs<E: Engine>(engine: &mut E, target: Handle, op: Op, args: Vec<Arg>) -> (r:
    core::result::Result<(Vec<String>, Vec<String>, Vec<usize>), Error>)
    ensures
        sent(
            old(engine).trace(),
            final(engine).trace(),
            target,
            op,
            args_view(args@),
            Shape::Graphs,
            graphs_outcome(r),
        ),
{
    match engine.call_graphs(request(target, op, args)) {
        Ok(v) => Ok(v),
        Err(message) => Err(Error::new(message)),
    }
}

/// Has the engine carry out an operation that gives a column of account names
/// and one of records, and makes an error of its failure message where it
/// fails.
pub fn ask_users<E: Engine>(engine: &mut E, target: Handle, op: Op, args: Vec<Arg>) -> (r:
    core::result::Result<(Vec<String>, Vec<RawUserInfo>), Error>)
    ensures
        sent(
            old(engine).trace(),
            final(engine).trace(),
            target,
            op,
            args_view(args@),
            Shape::Users,
            users_outcome(r),
        ),
{
    match engine.call_users(request(target, op, args)) {
        Ok(v) => Ok(v),
        Err(message) => Err(Error::new(message)),
    }
}

/// Has the engine carry out an operation that gives a column of role names and
/// one of records, and makes an error of its failure message where it fails.
pub fn ask_roles<E: Engine>(engine: &mut E, target: Handle, op: Op, args: Vec<Arg>) -> (r:
    core::result::Result<(Vec<String>, Vec<RawRoleInfo>), Error>)
    ensures
        sent(
            old(engine).trace(),
            final(engine).trace(),
            target,
            op,
            args_view(args@),
            Shape::Roles,
            roles_outcome(r),
        ),
{
    match engine.call_roles(request(target, op, args)) {
        Ok(v) => Ok(v),
        Err(message) => Err(Error::new(message)),
    }
}

/// Has the engine carry out an operation that gives a column of booleans and
/// two columns of texts, and makes an error of its failure message where it
/// fails.
pub fn ask_text_indexes<E: Engine>(engine: &mut E, target: Handle, op: Op, args: Vec<Arg>) -> (r:
    core::result::Result<(Vec<bool>, Vec<String>, Vec<String>), Error>)
    ensures
        sent(
            old(engine).trace(),
            final(engine).trace(),
            target,
            op,
            args_view(args@),
            Shape::TextIndexes,
            text_indexes_outcome(r),
        ),
{
    match engine.call_text_indexes(request(target, op, args)) {
        Ok(v) => Ok(v),
        Err(message) => Err(Error::new(message)),
    }
}

/// Has the engine carry out an operation that gives a column of vertex ids
/// and one of scores, and makes an error of its failure message where it
/// fails.
pub fn ask_hits<E: Engine>(engine: &mut E, target: Handle, op: Op, args: Vec<Arg>) -> (r:
    core::result::Result<(Vec<i64>, Vec<u32>), Error>)
    ensures
        sent(
            old(engine).trace(),
            final(engine).trace(),
            target,
            op,
            args_view(args@),
            Shape::Hits,
            hits_outcome(r),
        ),
{
    match engine.call_hits(request(target, op, args)) {
        Ok(v) => Ok(v),
        Err(message) => Err(Error::new(message)),
    }
}

/// Has the engine carry out an operation that gives a column of edge
/// identifiers and one of scores, and makes an error of its failure message
/// where it fails.
pub fn ask_edge_hits<E: Engine>(engine: &mut E, target: Handle, op: Op, args: Vec<Arg>) -> (r:
    core::result::Result<(Vec<RawEdgeUid>, Vec<u32>), Error>)
    ensures
        sent(
            old(engine).trace(),
            final(engine).trace(),
            target,
            op,
            args_view(args@),
            Shape::EdgeHits,
            edge_hits_outcome(r),
        ),
{
    match engine.call_edge_hits(request(target, op, args)) {
        Ok(v) => Ok(v),
        Err(message) => Err(Error::new(message)),
    }
}

} // verus!
