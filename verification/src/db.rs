//! The catalog of graphs and accounts, and the graphs that it opens.

use core::marker::PhantomData;
use vstd::prelude::*;

use crate::engine::{
    ask_code, ask_edge_hits, ask_flag, ask_flag_size, ask_graphs, ask_handle, ask_hits, ask_role,
    ask_roles, ask_size, ask_text, ask_text_indexes, ask_unit, ask_user, ask_users, called,
    flag_outcome, flag_size_outcome, sent, size_outcome, tell, text_outcome, unit_outcome,
    AnswerView, Arg, ArgView, Engine, Exchange, Handle, Kind, Op, RequestView, Shape,
};
use crate::field::{FieldData, FieldSpec};
use crate::keyed::{is_last, last_occurrences, selects, shorter};
use crate::marshal::{
    all_sendable, args0, args1, args2, args3, args5, fields_arg, firsts, firsts_arg, names_safe,
    raw_fields, raw_specs, seconds, seconds_arg, specs_arg, text_arg, texts_arg,
};
use crate::decode::read_id;
use crate::raw::{
    level_codes_ok, RawEdgeUid, RawRoleInfoView, RawUserInfoView, ACCESS_LEVEL_FULL,
};
use crate::role_info::RoleInfo;
use crate::text::{all_c_safe, c_safe, texts_of};
use crate::txn::TxnRead;
use crate::txn::{RoTxn, RwTxn};
use crate::types::{AccessLevel, EdgeUid};
use crate::user_info::UserInfo;
use crate::Result;

verus! {

/// The least size, in bytes, that a graph is created with.
pub const MINIMUM_GRAPH_MAX_SIZE: usize = 1048576;

/// The object that a request to open a catalog is addressed to: no catalog
/// yet.
pub open spec fn nowhere() -> Handle {
    Handle { kind: Kind::Galaxy, id: 0 }
}

/// The trace `before` with the two exchanges that give an engine object up:
/// the request to close it, answered by `answer`, and the request to destroy
/// it.
pub open spec fn released(
    before: Seq<Exchange>,
    after: Seq<Exchange>,
    target: Handle,
    closing: Op,
    answer: AnswerView,
) -> bool {
    after == before.push(
        Exchange {
            request: RequestView { target, op: closing, args: Seq::<ArgView>::empty() },
            shape: Shape::Unit,
            answer,
        },
    ).push(
        Exchange {
            request: RequestView { target, op: Op::Destroy, args: Seq::<ArgView>::empty() },
            shape: Shape::Done,
            answer: AnswerView::Done,
        },
    )
}

/// Gives the engine object `target` up: has the engine close it by
/// `closing`, then destroy it, whatever the closing gave.
pub fn release<E: Engine>(engine: &mut E, target: Handle, closing: Op) -> (r: Result<()>)
    ensures
        released(old(engine).trace(), final(engine).trace(), target, closing, unit_outcome(r)),
{
    let r = ask_unit(engine, target, closing, args0());
    tell(engine, target, Op::Destroy, args0());
    r
}

/// How a catalog is opened.
pub struct OpenOptions {
    durable: bool,
    create: bool,
}

impl Default for OpenOptions {
    /// Neither durable nor creating.
    fn default() -> (options: OpenOptions)
        ensures
            !options.is_durable(),
            !options.is_creating(),
    {
        OpenOptions::new()
    }
}

impl OpenOptions {
    /// Whether committed writes are forced to stable storage.
    pub closed spec fn is_durable(&self) -> bool {
        self.durable
    }

    /// Whether a catalog that is missing is created.
    pub closed spec fn is_creating(&self) -> bool {
        self.create
    }

    /// Neither durable nor creating.
    pub fn new() -> (options: OpenOptions)
        ensures
            !options.is_durable(),
            !options.is_creating(),
    {
        OpenOptions { durable: false, create: false }
    }

    /// Sets whether committed writes are forced to stable storage.
    pub fn durable(self, durable: bool) -> (options: OpenOptions)
        ensures
            options.is_durable() == durable,
            options.is_creating() == self.is_creating(),
    {
        let mut options = self;
        options.durable = durable;
        options
    }

    /// Sets whether a catalog that is missing is created.
    pub fn create(self, create: bool) -> (options: OpenOptions)
        ensures
            options.is_creating() == create,
            options.is_durable() == self.is_durable(),
    {
        let mut options = self;
        options.create = create;
        options
    }

    /// Opens the catalog in the directory `dir` for the account `username`.
    pub fn open<E: Engine>(
        self,
        engine: &mut E,
        dir: &str,
        username: &str,
        password: &str,
    ) -> (r: Result<Galaxy>)
        requires
            c_safe(dir@),
            c_safe(username@),
            c_safe(password@),
        ensures
            sent(
                old(engine).trace(),
                final(engine).trace(),
                nowhere(),
                Op::CreateWithUser,
                seq![
                    ArgView::Text(dir@),
                    ArgView::Text(username@),
                    ArgView::Text(password@),
                    ArgView::Flag(self.is_durable()),
                    ArgView::Flag(self.is_creating()),
                ],
                Shape::Handle,
                opened_galaxy(r),
            ),
            r matches Ok(galaxy) ==> galaxy.handle().kind == Kind::Galaxy,
    {
        let root = Handle { kind: Kind::Galaxy, id: 0 };
        let args = args5(
            text_arg(dir),
            text_arg(username),
            text_arg(password),
            Arg::Flag(self.durable),
            Arg::Flag(self.create),
        );
        match ask_handle(engine, root, Op::CreateWithUser, args) {
            Ok(id) => Ok(Galaxy { handle: Handle { kind: Kind::Galaxy, id } }),
            Err(e) => Err(e),
        }
    }
}

/// The answer that the result of opening a catalog stands for.
pub open spec fn opened_galaxy(r: Result<Galaxy>) -> AnswerView {
    match r {
        Ok(galaxy) => AnswerView::Handle(galaxy.handle().id),
        Err(e) => AnswerView::Failure(e@),
    }
}

/// The answer that the result of opening a graph stands for.
pub open spec fn opened_graph(r: Result<Graph<'_>>) -> AnswerView {
    match r {
        Ok(graph) => AnswerView::Handle(graph.handle().id),
        Err(e) => AnswerView::Failure(e@),
    }
}

/// A graph as the catalog lists it.
#[derive(Debug, Clone, PartialEq, Eq)]
pub struct ListGraph {
    pub name: String,
    pub desc: String,
    pub max_size: usize,
}

/// A full-text index as a graph lists it.
#[derive(Debug, Clone, PartialEq, Eq)]
pub struct ListIndex {
    pub is_vertex: bool,
    pub label_name: String,
    pub field_name: String,
}

/// A vertex that a full-text query found.
#[derive(Debug, Clone, Copy, PartialEq, Eq)]
pub struct QueryVertexFTIndex {
    /// The id of the vertex.
    pub vid: i64,
    /// The weight of the vertex for the query: the bits of a
    /// single-precision number.
    pub score: u32,
}

/// An edge that a full-text query found.
#[derive(Debug, Clone, Copy, PartialEq, Eq)]
pub struct QueryEdgeFTIndex {
    /// The key of the edge.
    pub euid: EdgeUid,
    /// The weight of the edge for the query: the bits of a single-precision
    /// number.
    pub score: u32,
}

/// An access level on a graph.
#[derive(Debug, Clone, PartialEq, Eq)]
pub struct GraphAccess {
    pub name: String,
    pub access_level: AccessLevel,
}

/// An account as the catalog lists it.
#[derive(Debug, Clone, PartialEq, Eq)]
pub struct ListUser {
    pub name: String,
    pub info: UserInfo,
}

/// A role as the catalog lists it.
#[derive(Debug, Clone)]
pub struct ListRole {
    pub name: String,
    pub info: RoleInfo,
}

/// Whether `graphs` lists what the three columns say: the rows that count,
/// in order.
pub open spec fn lists_graphs(
    graphs: Seq<ListGraph>,
    names: Seq<Seq<char>>,
    descs: Seq<Seq<char>>,
    sizes: Seq<usize>,
) -> bool {
    exists|rows: Seq<usize>|
        {
            &&& #[trigger] selects(
                rows,
                names,
                shorter(names.len() as int, shorter(descs.len() as int, sizes.len() as int)),
            )
            &&& graphs.len() == rows.len()
            &&& forall|k: int|
                0 <= k < rows.len() ==> {
                    &&& (#[trigger] graphs[k]).name@ == names[rows[k] as int]
                    &&& graphs[k].desc@ == descs[rows[k] as int]
                    &&& graphs[k].max_size == sizes[rows[k] as int]
                }
        }
}

/// Whether `users` lists what the two columns say: the rows that count, in
/// order.
pub open spec fn lists_users(
    users: Seq<ListUser>,
    names: Seq<Seq<char>>,
    infos: Seq<RawUserInfoView>,
) -> bool {
    exists|rows: Seq<usize>|
        {
            &&& #[trigger] selects(rows, names, shorter(names.len() as int, infos.len() as int))
            &&& users.len() == rows.len()
            &&& forall|k: int|
                0 <= k < rows.len() ==> {
                    &&& (#[trigger] users[k]).name@ == names[rows[k] as int]
                    &&& users[k].info.matches_raw(infos[rows[k] as int])
                }
        }
}

/// Whether `roles` lists what the two columns say: the rows that count, in
/// order.
pub open spec fn lists_roles(
    roles: Seq<ListRole>,
    names: Seq<Seq<char>>,
    infos: Seq<RawRoleInfoView>,
) -> bool {
    exists|rows: Seq<usize>|
        {
            &&& #[trigger] selects(rows, names, shorter(names.len() as int, infos.len() as int))
            &&& roles.len() == rows.len()
            &&& forall|k: int|
                0 <= k < rows.len() ==> {
                    &&& (#[trigger] roles[k]).name@ == names[rows[k] as int]
                    &&& roles[k].info.matches_raw(infos[rows[k] as int])
                }
        }
}

/// Whether every access level of every row that counts is one of the
/// engine's.
pub open spec fn roles_readable(names: Seq<Seq<char>>, infos: Seq<RawRoleInfoView>) -> bool {
    forall|i: int|
        is_last(names, shorter(names.len() as int, infos.len() as int), i) ==> level_codes_ok(
            (#[trigger] infos[i]).access_levels,
        )
}

/// Whether `indexes` lists what the three columns say, row by row, as far as
/// all three columns go.
pub open spec fn lists_indexes(
    indexes: Seq<ListIndex>,
    flags: Seq<bool>,
    labels: Seq<Seq<char>>,
    fields: Seq<Seq<char>>,
) -> bool {
    &&& indexes.len() == shorter(
        flags.len() as int,
        shorter(labels.len() as int, fields.len() as int),
    )
    &&& forall|i: int|
        0 <= i < indexes.len() ==> {
            &&& (#[trigger] indexes[i]).is_vertex == flags[i]
            &&& indexes[i].label_name@ == labels[i]
            &&& indexes[i].field_name@ == fields[i]
        }
}

/// Whether `found` lists the vertices of `vids` with the scores beside them,
/// row by row and in order, as far as both columns go.
pub open spec fn lists_hits(
    found: Seq<QueryVertexFTIndex>,
    vids: Seq<i64>,
    scores: Seq<u32>,
) -> bool {
    &&& found.len() == shorter(vids.len() as int, scores.len() as int)
    &&& forall|i: int|
        0 <= i < found.len() ==> #[trigger] found[i] == (QueryVertexFTIndex {
            vid: vids[i],
            score: scores[i],
        })
}

/// Whether `found` lists the edges of `uids` with the scores beside them, row
/// by row and in order, as far as both columns go.
pub open spec fn lists_edge_hits(
    found: Seq<QueryEdgeFTIndex>,
    uids: Seq<RawEdgeUid>,
    scores: Seq<u32>,
) -> bool {
    &&& found.len() == shorter(uids.len() as int, scores.len() as int)
    &&& forall|i: int|
        0 <= i < found.len() ==> {
            &&& (#[trigger] found[i]).euid.as_raw_spec() == uids[i]
            &&& found[i].score == scores[i]
        }
}

/// The names of `list`, in order.
pub open spec fn access_names(list: Seq<GraphAccess>) -> Seq<Seq<char>> {
    Seq::new(list.len(), |i: int| list[i].name@)
}

/// The codes of the access levels of `list`, in order.
pub open spec fn access_codes(list: Seq<GraphAccess>) -> Seq<u32> {
    Seq::new(list.len(), |i: int| list[i].access_level.code_spec())
}

/// The two arguments that hold `list`: its names and the codes of its
/// levels.
fn access_args(list: &[GraphAccess]) -> (columns: (Arg, Arg))
    ensures
        columns.0@ == ArgView::Texts(access_names(list@)),
        columns.1@ == ArgView::Codes(access_codes(list@)),
{
    let mut names: Vec<String> = Vec::new();
    let mut codes: Vec<u32> = Vec::new();
    let mut i: usize = 0;
    while i < list.len()
        invariant
            i <= list.len(),
            names.len() == i,
            codes.len() == i,
            forall|j: int| 0 <= j < i ==> names@[j]@ == list@[j].name@,
            forall|j: int| 0 <= j < i ==> codes@[j] == list@[j].access_level.code_spec(),
        decreases list.len() - i,
    {
        names.push(list[i].name.clone());
        codes.push(list[i].access_level.code());
        i = i + 1;
    }
    assert(names.deep_view() =~= access_names(list@));
    assert(codes@ =~= access_codes(list@));
    (Arg::Texts(names), Arg::Codes(codes))
}

/// The least of three lengths.
fn least(a: usize, b: usize, c: usize) -> (n: usize)
    ensures
        n == shorter(a as int, shorter(b as int, c as int)),
{
    let bc = if b <= c { b } else { c };
    if a <= bc {
        a
    } else {
        bc
    }
}

/// A change to a graph that is being put together.
pub struct ModGraphOptions<'gl> {
    desc: Option<String>,
    max_size: Option<usize>,
    galaxy: &'gl Galaxy,
}

impl<'gl> ModGraphOptions<'gl> {
    /// The description that the change gives, if it gives one.
    pub closed spec fn planned_desc(&self) -> Option<Seq<char>> {
        match self.desc {
            Some(d) => Some(d@),
            None => None,
        }
    }

    /// The greatest size that the change gives, if it gives one.
    pub closed spec fn planned_max_size(&self) -> Option<usize> {
        self.max_size
    }

    /// The description that goes to the engine: the one that the change
    /// gives, else the empty one.
    pub open spec fn desc_to_send(&self) -> Seq<char> {
        match self.planned_desc() {
            Some(d) => d,
            None => Seq::<char>::empty(),
        }
    }

    /// The size that goes to the engine: the one that the change gives, else
    /// zero.
    pub open spec fn max_size_to_send(&self) -> usize {
        match self.planned_max_size() {
            Some(n) => n,
            None => 0usize,
        }
    }

    /// The catalog that the change is made in.
    pub closed spec fn catalog(&self) -> Handle {
        self.galaxy.handle()
    }

    /// The change that also gives the description `new_desc`.
    pub fn mod_desc(self, new_desc: String) -> (options: ModGraphOptions<'gl>)
        ensures
            options.planned_desc() == Some(new_desc@),
            options.planned_max_size() == self.planned_max_size(),
            options.catalog() == self.catalog(),
    {
        let mut options = self;
        options.desc = Some(new_desc);
        options
    }

    /// The change that also gives the greatest size `new_max_size`.
    pub fn mod_max_size(self, new_max_size: usize) -> (options: ModGraphOptions<'gl>)
        ensures
            options.planned_max_size() == Some(new_max_size),
            options.planned_desc() == self.planned_desc(),
            options.catalog() == self.catalog(),
    {
        let mut options = self;
        options.max_size = Some(new_max_size);
        options
    }

    /// Makes the change to `graph`. What the change does not give goes to the
    /// engine as an empty description and a size of zero, marked as not to be
    /// used.
    pub fn apply<E: Engine>(self, engine: &mut E, graph: &str) -> (r: Result<bool>)
        requires
            c_safe(graph@),
            self.planned_desc() matches Some(d) ==> c_safe(d),
        ensures
            sent(
                old(engine).trace(),
                final(engine).trace(),
                self.catalog(),
                Op::ModGraph,
                seq![
                    ArgView::Text(graph@),
                    ArgView::Flag(self.planned_desc() is Some),
                    ArgView::Text(self.desc_to_send()),
                    ArgView::Flag(self.planned_max_size() is Some),
                    ArgView::Size(self.max_size_to_send()),
                ],
                Shape::Flag,
                flag_outcome(r),
            ),
    {
        let ghost text_to_send = self.desc_to_send();
        let ModGraphOptions { desc, max_size, galaxy } = self;
        let mod_desc = desc.is_some();
        let text = match desc {
            Some(d) => d,
            None => String::new(),
        };
        let mod_size = max_size.is_some();
        let size = match max_size {
            Some(n) => n,
            None => 0,
        };
        assert(text@ =~= text_to_send);
        galaxy._mod_graph(engine, graph, mod_desc, text.as_str(), mod_size, size)
    }
}

/// The catalog: the graphs of one directory and the accounts and roles that
/// may use them.
pub struct Galaxy {
    handle: Handle,
}

impl Galaxy {
    /// The engine object that this catalog is.
    pub closed spec fn handle(&self) -> Handle {
        self.handle
    }

    /// The engine object that this catalog is.
    pub fn as_raw(&self) -> (handle: Handle)
        ensures
            handle == self.handle(),
    {
        self.handle
    }

    /// Opens the catalog in the directory `dir` for the account `username`,
    /// neither durable nor creating.
    pub fn open<E: Engine>(engine: &mut E, dir: &str, username: &str, password: &str) -> (r:
        Result<Galaxy>)
        requires
            c_safe(dir@),
            c_safe(username@),
            c_safe(password@),
        ensures
            sent(
                old(engine).trace(),
                final(engine).trace(),
                nowhere(),
                Op::CreateWithUser,
                seq![
                    ArgView::Text(dir@),
                    ArgView::Text(username@),
                    ArgView::Text(password@),
                    ArgView::Flag(false),
                    ArgView::Flag(false),
                ],
                Shape::Handle,
                opened_galaxy(r),
            ),
            r matches Ok(galaxy) ==> galaxy.handle().kind == Kind::Galaxy,
    {
        OpenOptions::new().open(engine, dir, username, password)
    }

    /// Gives the catalog up: has the engine close it, then destroy it. The
    /// result is what the closing gave.
    pub fn close<E: Engine>(self, engine: &mut E) -> (r: Result<()>)
        ensures
            released(
                old(engine).trace(),
                final(engine).trace(),
                self.handle(),
                Op::Close,
                unit_outcome(r),
            ),
    {
        release(engine, self.handle, Op::Close)
    }

    /// Makes `user` the account that the catalog acts for, if `password` is
    /// that account's password.
    pub fn set_current_user<E: Engine>(
        &self,
        engine: &mut E,
        user: &str,
        password: &str,
    ) -> (r: Result<()>)
        requires
            c_safe(user@),
            c_safe(password@),
        ensures
            sent(
                old(engine).trace(),
                final(engine).trace(),
                self.handle(),
                Op::SetCurrentUser,
                seq![ArgView::Text(user@), ArgView::Text(password@)],
                Shape::Unit,
                unit_outcome(r),
            ),
    {
        ask_unit(engine, self.handle, Op::SetCurrentUser, args2(text_arg(user), text_arg(password)))
    }

    /// Makes `user` the account that the catalog acts for, without asking for
    /// a password.
    pub fn set_user_without_auth<E: Engine>(&self, engine: &mut E, user: &str) -> (r: Result<()>)
        requires
            c_safe(user@),
        ensures
            sent(
                old(engine).trace(),
                final(engine).trace(),
                self.handle(),
                Op::SetUser,
                seq![ArgView::Text(user@)],
                Shape::Unit,
                unit_outcome(r),
            ),
    {
        ask_unit(engine, self.handle, Op::SetUser, args1(text_arg(user)))
    }

    /// Creates the graph `name`, which may grow to `max_size` bytes and to no
    /// less than [`MINIMUM_GRAPH_MAX_SIZE`].
    pub fn create_graph<E: Engine>(
        &self,
        engine: &mut E,
        name: &str,
        desc: &str,
        max_size: usize,
    ) -> (r: Result<bool>)
        requires
            c_safe(name@),
            c_safe(desc@),
        ensures
            sent(
                old(engine).trace(),
                final(engine).trace(),
                self.handle(),
                Op::CreateGraph,
                seq![
                    ArgView::Text(name@),
                    ArgView::Text(desc@),
                    ArgView::Size(
                        if max_size >= MINIMUM_GRAPH_MAX_SIZE {
                            max_size
                        } else {
                            MINIMUM_GRAPH_MAX_SIZE
                        },
                    ),
                ],
                Shape::Flag,
                flag_outcome(r),
            ),
    {
        let size = if max_size >= MINIMUM_GRAPH_MAX_SIZE {
            max_size
        } else {
            MINIMUM_GRAPH_MAX_SIZE
        };
        ask_flag(
            engine,
            self.handle,
            Op::CreateGraph,
            args3(text_arg(name), text_arg(desc), Arg::Size(size)),
        )
    }

    /// Deletes the graph `graph`. The answer says whether there was such a
    /// graph.
    pub fn delete_graph<E: Engine>(&self, engine: &mut E, graph: &str) -> (r: Result<bool>)
        requires
            c_safe(graph@),
        ensures
            sent(
                old(engine).trace(),
                final(engine).trace(),
                self.handle(),
                Op::DeleteGraph,
                seq![ArgView::Text(graph@)],
                Shape::Flag,
                flag_outcome(r),
            ),
    {
        ask_flag(engine, self.handle, Op::DeleteGraph, args1(text_arg(graph)))
    }

    /// Changes the description of `graph` where `mod_desc` is set, and its
    /// greatest size where `mod_size` is set.
    pub fn _mod_graph<E: Engine>(
        &self,
        engine: &mut E,
        graph: &str,
        mod_desc: bool,
        desc: &str,
        mod_size: bool,
        new_max_size: usize,
    ) -> (r: Result<bool>)
        requires
            c_safe(graph@),
            c_safe(desc@),
        ensures
            sent(
                old(engine).trace(),
                final(engine).trace(),
                self.handle(),
                Op::ModGraph,
                seq![
                    ArgView::Text(graph@),
                    ArgView::Flag(mod_desc),
                    ArgView::Text(desc@),
                    ArgView::Flag(mod_size),
                    ArgView::Size(new_max_size),
                ],
                Shape::Flag,
                flag_outcome(r),
            ),
    {
        ask_flag(engine, self.handle, Op::ModGraph, args5(
            text_arg(graph),
            Arg::Flag(mod_desc),
            text_arg(desc),
            Arg::Flag(mod_size),
            Arg::Size(new_max_size),
        ))
    }

    /// A change to a graph of this catalog, which gives nothing yet.
    pub fn mod_graph(&self) -> (options: ModGraphOptions<'_>)
        ensures
            options.planned_desc() is None,
            options.planned_max_size() is None,
            options.catalog() == self.handle(),
    {
        ModGraphOptions { desc: None, max_size: None, galaxy: self }
    }

    /// The graphs of the catalog.
    pub fn list_graphs<E: Engine>(&self, engine: &mut E) -> (r: Result<Vec<ListGraph>>)
        ensures
            called(
                old(engine).trace(),
                final(engine).trace(),
                self.handle(),
                Op::ListGraphs,
                Seq::<ArgView>::empty(),
                Shape::Graphs,
            ),
            match r {
                Ok(graphs) => final(engine).trace().last().answer matches AnswerView::Graphs(
                    columns
                )
                    && lists_graphs(graphs@, columns.0, columns.1, columns.2),
                Err(e) => final(engine).trace().last().answer == AnswerView::Failure(e@),
            },
    {
        let ghost before = engine.trace();
        let answer = ask_graphs(engine, self.handle, Op::ListGraphs, args0());
        proof {
            crate::engine::lemma_sent_called(
                before,
                engine.trace(),
                self.handle,
                Op::ListGraphs,
                Seq::<ArgView>::empty(),
                Shape::Graphs,
                crate::engine::graphs_outcome(answer),
            );
        }
        match answer {
            Ok((names, descs, sizes)) => {
                let n = least(names.len(), descs.len(), sizes.len());
                let rows = last_occurrences(&names, n);
                let mut graphs: Vec<ListGraph> = Vec::new();
                let mut k: usize = 0;
                while k < rows.len()
                    invariant
                        k <= rows.len(),
                        graphs@.len() == k,
                        n <= names.len(),
                        n <= descs.len(),
                        n <= sizes.len(),
                        forall|m: int| 0 <= m < rows@.len() ==> #[trigger] rows@[m] < n,
                        forall|m: int|
                            0 <= m < k ==> {
                                &&& (#[trigger] graphs@[m]).name@ == names@[rows@[m] as int]@
                                &&& graphs@[m].desc@ == descs@[rows@[m] as int]@
                                &&& graphs@[m].max_size == sizes@[rows@[m] as int]
                            },
                    decreases rows.len() - k,
                {
                    let at = rows[k];
                    graphs.push(
                        ListGraph {
                            name: names[at].clone(),
                            desc: descs[at].clone(),
                            max_size: sizes[at],
                        },
                    );
                    k = k + 1;
                }
                proof {
                    assert(names.deep_view().len() == names@.len());
                    assert(descs.deep_view().len() == descs@.len());
                    assert(selects(rows@, names.deep_view(), n as int));
                    assert forall|m: int| 0 <= m < rows@.len() implies {
                        &&& (#[trigger] graphs@[m]).name@ == names.deep_view()[rows@[m] as int]
                        &&& graphs@[m].desc@ == descs.deep_view()[rows@[m] as int]
                        &&& graphs@[m].max_size == sizes@[rows@[m] as int]
                    } by {}
                    assert(lists_graphs(graphs@, names.deep_view(), descs.deep_view(), sizes@));
                }
                Ok(graphs)
            },
            Err(e) => Err(e),
        }
    }

    /// Creates the account `username`. The answer says whether the account
    /// was created; an account that may not create accounts gets the engine's
    /// refusal as the error.
    pub fn create_user<E: Engine>(
        &self,
        engine: &mut E,
        username: &str,
        password: &str,
        desc: &str,
    ) -> (r: Result<bool>)
        requires
            c_safe(username@),
            c_safe(password@),
            c_safe(desc@),
        ensures
            sent(
                old(engine).trace(),
                final(engine).trace(),
                self.handle(),
                Op::CreateUser,
                seq![
                    ArgView::Text(username@),
                    ArgView::Text(password@),
                    ArgView::Text(desc@),
                ],
                Shape::Flag,
                flag_outcome(r),
            ),
    {
        ask_flag(
            engine,
            self.handle,
            Op::CreateUser,
            args3(text_arg(username), text_arg(password), text_arg(desc)),
        )
    }

    /// Deletes the account `username`.
    pub fn delete_user<E: Engine>(&self, engine: &mut E, username: &str) -> (r: Result<bool>)
        requires
            c_safe(username@),
        ensures
            sent(
                old(engine).trace(),
                final(engine).trace(),
                self.handle(),
                Op::DeleteUser,
                seq![ArgView::Text(username@)],
                Shape::Flag,
                flag_outcome(r),
            ),
    {
        ask_flag(engine, self.handle, Op::DeleteUser, args1(text_arg(username)))
    }

    /// Gives the account `username` the password `new_password`. An account
    /// changes its own password by giving `old_password`.
    pub fn set_password<E: Engine>(
        &self,
        engine: &mut E,
        username: &str,
        old_password: &str,
        new_password: &str,
    ) -> (r: Result<bool>)
        requires
            c_safe(username@),
            c_safe(old_password@),
            c_safe(new_password@),
        ensures
            sent(
                old(engine).trace(),
                final(engine).trace(),
                self.handle(),
                Op::SetPassword,
                seq![
                    ArgView::Text(username@),
                    ArgView::Text(old_password@),
                    ArgView::Text(new_password@),
                ],
                Shape::Flag,
                flag_outcome(r),
            ),
    {
        ask_flag(engine, self.handle, Op::SetPassword, args3(
            text_arg(username),
            text_arg(old_password),
            text_arg(new_password),
        ))
    }

    /// Gives the account `username` the description `desc`.
    pub fn set_user_desc<E: Engine>(
        &self,
        engine: &mut E,
        username: &str,
        desc: &str,
    ) -> (r: Result<bool>)
        requires
            c_safe(username@),
            c_safe(desc@),
        ensures
            sent(
                old(engine).trace(),
                final(engine).trace(),
                self.handle(),
                Op::SetUserDesc,
                seq![ArgView::Text(username@), ArgView::Text(desc@)],
                Shape::Flag,
                flag_outcome(r),
            ),
    {
        ask_flag(engine, self.handle, Op::SetUserDesc, args2(text_arg(username), text_arg(desc)))
    }

    /// Gives the account `username` the roles `roles`, in place of those it
    /// had.
    pub fn set_user_roles<E: Engine>(
        &self,
        engine: &mut E,
        username: &str,
        roles: &[&str],
    ) -> (r: Result<bool>)
        requires
            c_safe(username@),
            all_c_safe(texts_of(roles@)),
        ensures
            sent(
                old(engine).trace(),
                final(engine).trace(),
                self.handle(),
                Op::SetUserRoles,
                seq![ArgView::Text(username@), ArgView::Texts(texts_of(roles@))],
                Shape::Flag,
                flag_outcome(r),
            ),
    {
        ask_flag(engine, self.handle, Op::SetUserRoles, args2(text_arg(username), texts_arg(roles)))
    }

    /// Gives the account `username` the access level `access` on `graph`.
    pub fn set_user_graph_access<E: Engine>(
        &self,
        engine: &mut E,
        username: &str,
        graph: &str,
        access: AccessLevel,
    ) -> (r: Result<bool>)
        requires
            c_safe(username@),
            c_safe(graph@),
        ensures
            sent(
                old(engine).trace(),
                final(engine).trace(),
                self.handle(),
                Op::SetUserGraphAccess,
                seq![
                    ArgView::Text(username@),
                    ArgView::Text(graph@),
                    ArgView::Code(access.code_spec()),
                ],
                Shape::Flag,
                flag_outcome(r),
            ),
    {
        ask_flag(
            engine,
            self.handle,
            Op::SetUserGraphAccess,
            args3(text_arg(username), text_arg(graph), Arg::Code(access.code())),
        )
    }

    /// Disables the account `username`.
    pub fn disable_user<E: Engine>(&self, engine: &mut E, username: &str) -> (r: Result<bool>)
        requires
            c_safe(username@),
        ensures
            sent(
                old(engine).trace(),
                final(engine).trace(),
                self.handle(),
                Op::DisableUser,
                seq![ArgView::Text(username@)],
                Shape::Flag,
                flag_outcome(r),
            ),
    {
        ask_flag(engine, self.handle, Op::DisableUser, args1(text_arg(username)))
    }

    /// Enables the account `username`.
    pub fn enable_user<E: Engine>(&self, engine: &mut E, username: &str) -> (r: Result<bool>)
        requires
            c_safe(username@),
        ensures
            sent(
                old(engine).trace(),
                final(engine).trace(),
                self.handle(),
                Op::EnableUser,
                seq![ArgView::Text(username@)],
                Shape::Flag,
                flag_outcome(r),
            ),
    {
        ask_flag(engine, self.handle, Op::EnableUser, args1(text_arg(username)))
    }

    /// The accounts of the catalog.
    pub fn list_users<E: Engine>(&self, engine: &mut E) -> (r: Result<Vec<ListUser>>)
        ensures
            called(
                old(engine).trace(),
                final(engine).trace(),
                self.handle(),
                Op::ListUsers,
                Seq::<ArgView>::empty(),
                Shape::Users,
            ),
            match r {
                Ok(users) => final(engine).trace().last().answer matches AnswerView::Users(columns)
                    && lists_users(users@, columns.0, columns.1),
                Err(e) => final(engine).trace().last().answer == AnswerView::Failure(e@),
            },
    {
        let ghost before = engine.trace();
        let answer = ask_users(engine, self.handle, Op::ListUsers, args0());
        proof {
            crate::engine::lemma_sent_called(
                before,
                engine.trace(),
                self.handle,
                Op::ListUsers,
                Seq::<ArgView>::empty(),
                Shape::Users,
                crate::engine::users_outcome(answer),
            );
        }
        match answer {
            Ok((names, infos)) => {
                let n = if names.len() <= infos.len() {
                    names.len()
                } else {
                    infos.len()
                };
                let rows = last_occurrences(&names, n);
                let mut users: Vec<ListUser> = Vec::new();
                let mut k: usize = 0;
                while k < rows.len()
                    invariant
                        k <= rows.len(),
                        users@.len() == k,
                        n <= names.len(),
                        n <= infos.len(),
                        forall|m: int| 0 <= m < rows@.len() ==> #[trigger] rows@[m] < n,
                        forall|m: int|
                            0 <= m < k ==> {
                                &&& (#[trigger] users@[m]).name@ == names@[rows@[m] as int]@
                                &&& users@[m].info.matches_raw(infos@[rows@[m] as int]@)
                            },
                    decreases rows.len() - k,
                {
                    let at = rows[k];
                    users.push(
                        ListUser { name: names[at].clone(), info: UserInfo::from_raw(&infos[at]) }
                    );
                    k = k + 1;
                }
                proof {
                    let columns = crate::engine::users_view(infos@);
                    assert(names.deep_view().len() == names@.len());
                    assert(columns.len() == infos@.len());
                    assert(
                        n as int == shorter(names.deep_view().len() as int, columns.len() as int)
                    );
                    assert(selects(rows@, names.deep_view(), n as int));
                    assert forall|m: int| 0 <= m < rows@.len() implies {
                        &&& (#[trigger] users@[m]).name@ == names.deep_view()[rows@[m] as int]
                        &&& users@[m].info.matches_raw(columns[rows@[m] as int])
                    } by {
                        assert(columns[rows@[m] as int] == infos@[rows@[m] as int]@);
                    }
                    assert(lists_users(users@, names.deep_view(), columns));
                }
                Ok(users)
            },
            Err(e) => Err(e),
        }
    }

    /// The record of the account `username`.
    pub fn get_user_info<E: Engine>(&self, engine: &mut E, username: &str) -> (r: Result<UserInfo>)
        requires
            c_safe(username@),
        ensures
            called(
                old(engine).trace(),
                final(engine).trace(),
                self.handle(),
                Op::GetUserInfo,
                seq![ArgView::Text(username@)],
                Shape::User,
            ),
            match r {
                Ok(info) => final(engine).trace().last().answer matches AnswerView::User(raw)
                    && info.matches_raw(raw),
                Err(e) => final(engine).trace().last().answer == AnswerView::Failure(e@),
            },
    {
        let ghost before = engine.trace();
        let answer = ask_user(engine, self.handle, Op::GetUserInfo, args1(text_arg(username)));
        proof {
            crate::engine::lemma_sent_called(
                before,
                engine.trace(),
                self.handle,
                Op::GetUserInfo,
                seq![ArgView::Text(username@)],
                Shape::User,
                crate::engine::user_outcome(answer),
            );
        }
        match answer {
            Ok(raw) => Ok(UserInfo::from_raw(&raw)),
            Err(e) => Err(e),
        }
    }

    /// Creates the role `role`.
    pub fn create_role<E: Engine>(
        &self,
        engine: &mut E,
        role: &str,
        desc: &str,
    ) -> (r: Result<bool>)
        requires
            c_safe(role@),
            c_safe(desc@),
        ensures
            sent(
                old(engine).trace(),
                final(engine).trace(),
                self.handle(),
                Op::CreateRole,
                seq![ArgView::Text(role@), ArgView::Text(desc@)],
                Shape::Flag,
                flag_outcome(r),
            ),
    {
        ask_flag(engine, self.handle, Op::CreateRole, args2(text_arg(role), text_arg(desc)))
    }

    /// Deletes the role `role`.
    pub fn delete_role<E: Engine>(&self, engine: &mut E, role: &str) -> (r: Result<bool>)
        requires
            c_safe(role@),
        ensures
            sent(
                old(engine).trace(),
                final(engine).trace(),
                self.handle(),
                Op::DeleteRole,
                seq![ArgView::Text(role@)],
                Shape::Flag,
                flag_outcome(r),
            ),
    {
        ask_flag(engine, self.handle, Op::DeleteRole, args1(text_arg(role)))
    }

    /// Disables the role `role`.
    pub fn disable_role<E: Engine>(&self, engine: &mut E, role: &str) -> (r: Result<bool>)
        requires
            c_safe(role@),
        ensures
            sent(
                old(engine).trace(),
                final(engine).trace(),
                self.handle(),
                Op::DisableRole,
                seq![ArgView::Text(role@)],
                Shape::Flag,
                flag_outcome(r),
            ),
    {
        ask_flag(engine, self.handle, Op::DisableRole, args1(text_arg(role)))
    }

    /// Enables the role `role`.
    pub fn enable_role<E: Engine>(&self, engine: &mut E, role: &str) -> (r: Result<bool>)
        requires
            c_safe(role@),
        ensures
            sent(
                old(engine).trace(),
                final(engine).trace(),
                self.handle(),
                Op::EnableRole,
                seq![ArgView::Text(role@)],
                Shape::Flag,
                flag_outcome(r),
            ),
    {
        ask_flag(engine, self.handle, Op::EnableRole, args1(text_arg(role)))
    }

    /// Gives the role `role` the description `desc`.
    pub fn set_role_desc<E: Engine>(
        &self,
        engine: &mut E,
        role: &str,
        desc: &str,
    ) -> (r: Result<bool>)
        requires
            c_safe(role@),
            c_safe(desc@),
        ensures
            sent(
                old(engine).trace(),
                final(engine).trace(),
                self.handle(),
                Op::SetRoleDesc,
                seq![ArgView::Text(role@), ArgView::Text(desc@)],
                Shape::Flag,
                flag_outcome(r),
            ),
    {
        ask_flag(engine, self.handle, Op::SetRoleDesc, args2(text_arg(role), text_arg(desc)))
    }

    /// Gives the role `role` the access levels of `graph_access`, in place of
    /// those it had.
    pub fn set_role_access_rights<E: Engine>(
        &self,
        engine: &mut E,
        role: &str,
        graph_access: &[GraphAccess],
    ) -> (r: Result<bool>)
        requires
            c_safe(role@),
            all_c_safe(access_names(graph_access@)),
        ensures
            sent(
                old(engine).trace(),
                final(engine).trace(),
                self.handle(),
                Op::SetRoleAccessRights,
                seq![
                    ArgView::Text(role@),
                    ArgView::Texts(access_names(graph_access@)),
                    ArgView::Codes(access_codes(graph_access@)),
                ],
                Shape::Flag,
                flag_outcome(r),
            ),
    {
        let (names, codes) = access_args(graph_access);
        ask_flag(engine, self.handle, Op::SetRoleAccessRights, args3(text_arg(role), names, codes))
    }

    /// Gives the role `role` the access levels of `graph_access`, beside
    /// those it had on other graphs.
    pub fn set_role_access_rights_incremental<E: Engine>(
        &self,
        engine: &mut E,
        role: &str,
        graph_access: &[GraphAccess],
    ) -> (r: Result<bool>)
        requires
            c_safe(role@),
            all_c_safe(access_names(graph_access@)),
        ensures
            sent(
                old(engine).trace(),
                final(engine).trace(),
                self.handle(),
                Op::SetRoleAccessRightsIncremental,
                seq![
                    ArgView::Text(role@),
                    ArgView::Texts(access_names(graph_access@)),
                    ArgView::Codes(access_codes(graph_access@)),
                ],
                Shape::Flag,
                flag_outcome(r),
            ),
    {
        let (names, codes) = access_args(graph_access);
        ask_flag(
            engine,
            self.handle,
            Op::SetRoleAccessRightsIncremental,
            args3(text_arg(role), names, codes),
        )
    }

    /// The record of the role `role`. A record with an access level that is
    /// none of the engine's is an invalid parameter.
    pub fn get_role_info<E: Engine>(&self, engine: &mut E, role: &str) -> (r: Result<RoleInfo>)
        requires
            c_safe(role@),
        ensures
            called(
                old(engine).trace(),
                final(engine).trace(),
                self.handle(),
                Op::GetRoleInfo,
                seq![ArgView::Text(role@)],
                Shape::Role,
            ),
            match r {
                Ok(info) => final(engine).trace().last().answer matches AnswerView::Role(raw)
                    && level_codes_ok(raw.access_levels) && info.matches_raw(raw),
                Err(e) => match final(engine).trace().last().answer {
                    AnswerView::Role(raw) => !level_codes_ok(raw.access_levels) && e@
                        == "Invalid parameter."@,
                    answer => answer == AnswerView::Failure(e@),
                },
            },
    {
        let ghost before = engine.trace();
        let answer = ask_role(engine, self.handle, Op::GetRoleInfo, args1(text_arg(role)));
        proof {
            crate::engine::lemma_sent_called(
                before,
                engine.trace(),
                self.handle,
                Op::GetRoleInfo,
                seq![ArgView::Text(role@)],
                Shape::Role,
                crate::engine::role_outcome(answer),
            );
        }
        match answer {
            Ok(raw) => RoleInfo::try_from_raw(&raw),
            Err(e) => Err(e),
        }
    }

    /// The roles of the catalog. A record that counts with an access level
    /// that is none of the engine's is an invalid parameter.
    pub fn list_roles<E: Engine>(&self, engine: &mut E) -> (r: Result<Vec<ListRole>>)
        ensures
            called(
                old(engine).trace(),
                final(engine).trace(),
                self.handle(),
                Op::ListRoles,
                Seq::<ArgView>::empty(),
                Shape::Roles,
            ),
            match r {
                Ok(roles) => final(engine).trace().last().answer matches AnswerView::Roles(columns)
                    && roles_readable(columns.0, columns.1) && lists_roles(
                    roles@,
                    columns.0,
                    columns.1,
                ),
                Err(e) => match final(engine).trace().last().answer {
                    AnswerView::Roles(columns) => !roles_readable(columns.0, columns.1) && e@
                        == "Invalid parameter."@,
                    answer => answer == AnswerView::Failure(e@),
                },
            },
    {
        let ghost before = engine.trace();
        let answer = ask_roles(engine, self.handle, Op::ListRoles, args0());
        let ghost before = before;
        proof {
            crate::engine::lemma_sent_called(
                before,
                engine.trace(),
                self.handle,
                Op::ListRoles,
                Seq::<ArgView>::empty(),
                Shape::Roles,
                crate::engine::roles_outcome(answer),
            );
        }
        match answer {
            Ok((names, infos)) => {
                let n = if names.len() <= infos.len() {
                    names.len()
                } else {
                    infos.len()
                };
                let ghost columns = crate::engine::roles_view(infos@);
                let rows = last_occurrences(&names, n);
                let mut roles: Vec<ListRole> = Vec::new();
                let mut k: usize = 0;
                assert(names.deep_view().len() == names@.len());
                while k < rows.len()
                    invariant
                        k <= rows.len(),
                        roles@.len() == k,
                        n <= names.len(),
                        n <= infos.len(),
                        n == shorter(names.deep_view().len() as int, columns.len() as int),
                        columns == crate::engine::roles_view(infos@),
                        before == old(engine).trace(),
                        called(
                            before,
                            engine.trace(),
                            self.handle(),
                            Op::ListRoles,
                            Seq::<ArgView>::empty(),
                            Shape::Roles,
                        ),
                        engine.trace().last().answer == AnswerView::Roles(
                            (names.deep_view(), columns),
                        ),
                        selects(rows@, names.deep_view(), n as int),
                        forall|m: int| 0 <= m < rows@.len() ==> #[trigger] rows@[m] < n,
                        forall|m: int|
                            0 <= m < k ==> {
                                &&& (#[trigger] roles@[m]).name@ == names@[rows@[m] as int]@
                                &&& roles@[m].info.matches_raw(columns[rows@[m] as int])
                                &&& level_codes_ok(columns[rows@[m] as int].access_levels)
                            },
                    decreases rows.len() - k,
                {
                    let at = rows[k];
                    match RoleInfo::try_from_raw(&infos[at]) {
                        Ok(info) => {
                            roles.push(ListRole { name: names[at].clone(), info });
                        },
                        Err(e) => {
                            proof {
                                assert(
                                    is_last(names.deep_view(), n as int, rows@[k as int] as int)
                                );
                                assert(!level_codes_ok(columns[at as int].access_levels));
                            }
                            return Err(e);
                        },
                    }
                    k = k + 1;
                }
                proof {
                    assert forall|m: int| 0 <= m < rows@.len() implies {
                        &&& (#[trigger] roles@[m]).name@ == names.deep_view()[rows@[m] as int]
                        &&& roles@[m].info.matches_raw(columns[rows@[m] as int])
                    } by {}
                    assert(lists_roles(roles@, names.deep_view(), columns));
                    assert forall|i: int| is_last(
                        names.deep_view(),
                        n as int,
                        i,
                    ) implies level_codes_ok(
                        (#[trigger] columns[i]).access_levels,
                    ) by {
                        let m = choose|m: int| 0 <= m < rows@.len() && #[trigger] rows@[m] == i;
                        assert(roles@[m].name@ == names@[rows@[m] as int]@);
                        assert(level_codes_ok(columns[rows@[m] as int].access_levels));
                    }
                }
                Ok(roles)
            },
            Err(e) => Err(e),
        }
    }

    /// The access level that the account `username` has on `graph`. A level
    /// that is none of the engine's is an invalid parameter.
    pub fn get_access_level<E: Engine>(&self, engine: &mut E, username: &str, graph: &str) -> (r:
        Result<AccessLevel>)
        requires
            c_safe(username@),
            c_safe(graph@),
        ensures
            called(
                old(engine).trace(),
                final(engine).trace(),
                self.handle(),
                Op::GetAccessLevel,
                seq![ArgView::Text(username@), ArgView::Text(graph@)],
                Shape::Code,
            ),
            match r {
                Ok(level) => final(engine).trace().last().answer == AnswerView::Code(
                    level.code_spec(),
                ),
                Err(e) => match final(engine).trace().last().answer {
                    AnswerView::Code(
                        code
                    ) => code > ACCESS_LEVEL_FULL && e@ == "Invalid parameter."@,
                    answer => answer == AnswerView::Failure(e@),
                },
            },
    {
        let ghost before = engine.trace();
        let answer = ask_code(
            engine,
            self.handle,
            Op::GetAccessLevel,
            args2(text_arg(username), text_arg(graph)),
        );
        proof {
            crate::engine::lemma_sent_called(
                before,
                engine.trace(),
                self.handle,
                Op::GetAccessLevel,
                seq![ArgView::Text(username@), ArgView::Text(graph@)],
                Shape::Code,
                crate::engine::code_outcome(answer),
            );
        }
        match answer {
            Ok(code) => AccessLevel::try_from(code),
            Err(e) => Err(e),
        }
    }

    /// Opens the graph `graph`, for reading only where `read_only` is set.
    /// The graph cannot outlive the catalog.
    pub fn open_graph<E: Engine>(&self, engine: &mut E, graph: &str, read_only: bool) -> (r: Result<
        Graph<'_>,
    >)
        requires
            c_safe(graph@),
        ensures
            sent(
                old(engine).trace(),
                final(engine).trace(),
                self.handle(),
                Op::OpenGraph,
                seq![ArgView::Text(graph@), ArgView::Flag(read_only)],
                Shape::Handle,
                opened_graph(r),
            ),
            r matches Ok(g) ==> g.handle().kind == Kind::GraphDb,
    {
        match ask_handle(
            engine,
            self.handle,
            Op::OpenGraph,
            args2(text_arg(graph), Arg::Flag(read_only)),
        ) {
            Ok(id) => Ok(Graph { handle: Handle { kind: Kind::GraphDb, id }, galaxy: PhantomData }),
            Err(e) => Err(e),
        }
    }
}

/// A graph that a catalog opened. It borrows the catalog, so it cannot
/// outlive it.
pub struct Graph<'gl> {
    handle: Handle,
    galaxy: PhantomData<&'gl Galaxy>,
}

impl<'gl> Graph<'gl> {
    /// The engine object that this graph is.
    pub closed spec fn handle(&self) -> Handle {
        self.handle
    }

    /// The engine object that this graph is.
    pub fn as_raw(&self) -> (handle: Handle)
        ensures
            handle == self.handle(),
    {
        self.handle
    }

    /// The graph that the engine object `id` is. The id must be one that the
    /// engine gave for a graph and that no other value of this type holds.
    pub fn from_id(id: u64) -> (graph: Graph<'gl>)
        ensures
            graph.handle() == (Handle { kind: Kind::GraphDb, id }),
    {
        Graph { handle: Handle { kind: Kind::GraphDb, id }, galaxy: PhantomData }
    }

    /// Gives the graph up: has the engine close it, then destroy it. The
    /// result is what the closing gave.
    pub fn close<E: Engine>(self, engine: &mut E) -> (r: Result<()>)
        ensures
            released(
                old(engine).trace(),
                final(engine).trace(),
                self.handle(),
                Op::Close,
                unit_outcome(r),
            ),
    {
        release(engine, self.handle, Op::Close)
    }

    /// Begins a read-only transaction. Any number of them can be open at the
    /// same time. The transaction borrows the graph, so it cannot outlive it.
    pub fn create_ro_txn<E: Engine>(&self, engine: &mut E) -> (r: Result<RoTxn<'_>>)
        ensures
            called(
                old(engine).trace(),
                final(engine).trace(),
                self.handle(),
                Op::CreateReadTxn,
                Seq::<ArgView>::empty(),
                Shape::Handle,
            ),
            match r {
                Ok(made) => {
                    &&& made.handle().kind == Kind::Transaction
                    &&& final(engine).trace().last().answer == AnswerView::Handle(made.handle().id)
                },
                Err(e) => final(engine).trace().last().answer == AnswerView::Failure(e@),
            },
    {
        match read_id(engine, self.handle, Op::CreateReadTxn, args0()) {
            Ok(id) => Ok(RoTxn::from_raw(id)),
            Err(e) => Err(e),
        }
    }

    /// Begins a read-write transaction. One that is not optimistic is alone:
    /// while it is open, the engine makes every other caller that begins one
    /// wait. Optimistic ones run side by side, and the engine finds what
    /// conflicts when they commit.
    pub fn create_rw_txn<E: Engine>(
        &self,
        engine: &mut E,
        optimistic: bool,
    ) -> (r: Result<RwTxn<'_>>)
        ensures
            called(
                old(engine).trace(),
                final(engine).trace(),
                self.handle(),
                Op::CreateWriteTxn,
                seq![ArgView::Flag(optimistic)],
                Shape::Handle,
            ),
            match r {
                Ok(made) => {
                    &&& made.handle().kind == Kind::Transaction
                    &&& final(engine).trace().last().answer == AnswerView::Handle(made.handle().id)
                },
                Err(e) => final(engine).trace().last().answer == AnswerView::Failure(e@),
            },
    {
        match read_id(engine, self.handle, Op::CreateWriteTxn, args1(Arg::Flag(optimistic))) {
            Ok(id) => Ok(RwTxn::from_raw(id)),
            Err(e) => Err(e),
        }
    }

    /// A second read-only transaction with the same view of the graph as
    /// `txn`, for another thread to use.
    pub fn fork_ro_txn<E: Engine>(&self, engine: &mut E, txn: &RoTxn<'_>) -> (r: Result<RoTxn<'_>>)
        ensures
            called(
                old(engine).trace(),
                final(engine).trace(),
                self.handle(),
                Op::ForkTxn,
                seq![ArgView::Object(txn.handle())],
                Shape::Handle,
            ),
            match r {
                Ok(made) => {
                    &&& made.handle().kind == Kind::Transaction
                    &&& final(engine).trace().last().answer == AnswerView::Handle(made.handle().id)
                },
                Err(e) => final(engine).trace().last().answer == AnswerView::Failure(e@),
            },
    {
        match read_id(engine, self.handle, Op::ForkTxn, args1(Arg::Object(txn.as_raw()))) {
            Ok(id) => Ok(RoTxn::from_raw(id)),
            Err(e) => Err(e),
        }
    }

    /// Has the engine write what it buffered to disk.
    pub fn flush<E: Engine>(&self, engine: &mut E) -> (r: Result<()>)
        ensures
            sent(
                old(engine).trace(),
                final(engine).trace(),
                self.handle(),
                Op::Flush,
                Seq::<ArgView>::empty(),
                Shape::Unit,
                unit_outcome(r),
            ),
    {
        ask_unit(engine, self.handle, Op::Flush, args0())
    }

    /// Drops all that the graph holds: labels, indexes, vertices and edges.
    pub fn drop_all_data<E: Engine>(&self, engine: &mut E) -> (r: Result<()>)
        ensures
            sent(
                old(engine).trace(),
                final(engine).trace(),
                self.handle(),
                Op::DropAllData,
                Seq::<ArgView>::empty(),
                Shape::Unit,
                unit_outcome(r),
            ),
    {
        ask_unit(engine, self.handle, Op::DropAllData, args0())
    }

    /// Drops all vertices and edges; labels and indexes stay.
    pub fn drop_all_vertex<E: Engine>(&self, engine: &mut E) -> (r: Result<()>)
        ensures
            sent(
                old(engine).trace(),
                final(engine).trace(),
                self.handle(),
                Op::DropAllVertex,
                Seq::<ArgView>::empty(),
                Shape::Unit,
                unit_outcome(r),
            ),
    {
        ask_unit(engine, self.handle, Op::DropAllVertex, args0())
    }

    /// An estimate of the number of vertices: the next vertex id that the
    /// engine will give.
    pub fn estimate_num_vertices<E: Engine>(&self, engine: &mut E) -> (r: Result<usize>)
        ensures
            sent(
                old(engine).trace(),
                final(engine).trace(),
                self.handle(),
                Op::EstimateNumVertices,
                Seq::<ArgView>::empty(),
                Shape::Size,
                size_outcome(r),
            ),
    {
        ask_size(engine, self.handle, Op::EstimateNumVertices, args0())
    }

    /// Adds the vertex label `label` with the fields `field_specs`, of which
    /// `primary_field` is the primary one.
    pub fn add_vertex_label<E: Engine>(
        &self,
        engine: &mut E,
        label: &str,
        field_specs: &[FieldSpec],
        primary_field: &str,
    ) -> (r: Result<bool>)
        requires
            c_safe(label@),
            names_safe(field_specs@),
            c_safe(primary_field@),
        ensures
            sent(
                old(engine).trace(),
                final(engine).trace(),
                self.handle(),
                Op::AddVertexLabel,
                seq![
                    ArgView::Text(label@),
                    ArgView::Specs(raw_specs(field_specs@)),
                    ArgView::Text(primary_field@),
                ],
                Shape::Flag,
                flag_outcome(r),
            ),
    {
        ask_flag(engine, self.handle, Op::AddVertexLabel, args3(
            text_arg(label),
            specs_arg(field_specs),
            text_arg(primary_field),
        ))
    }

    /// Deletes the vertex label `label` and every vertex that has it. The
    /// answer holds whether the label was deleted and how many vertices went
    /// with it, as the engine counts them.
    pub fn delete_vertex_label<E: Engine>(
        &self,
        engine: &mut E,
        label: &str,
    ) -> (r: Result<(bool, usize)>)
        requires
            c_safe(label@),
        ensures
            sent(
                old(engine).trace(),
                final(engine).trace(),
                self.handle(),
                Op::DeleteVertexLabel,
                seq![ArgView::Text(label@)],
                Shape::FlagSize,
                flag_size_outcome(r),
            ),
    {
        ask_flag_size(engine, self.handle, Op::DeleteVertexLabel, args1(text_arg(label)))
    }

    /// Deletes the fields `del_fields` from the vertex label `label`. The
    /// answer holds whether the label was altered and how many vertices were
    /// changed.
    pub fn alter_vertex_label_del_fields<E: Engine>(
        &self,
        engine: &mut E,
        label: &str,
        del_fields: &[&str],
    ) -> (r: Result<(bool, usize)>)
        requires
            c_safe(label@),
            all_c_safe(texts_of(del_fields@)),
        ensures
            sent(
                old(engine).trace(),
                final(engine).trace(),
                self.handle(),
                Op::AlterVertexLabelDelFields,
                seq![
                    ArgView::Text(label@),
                    ArgView::Texts(texts_of(del_fields@)),
                ],
                Shape::FlagSize,
                flag_size_outcome(r),
            ),
    {
        ask_flag_size(
            engine,
            self.handle,
            Op::AlterVertexLabelDelFields,
            args2(text_arg(label), texts_arg(del_fields)),
        )
    }

    /// Adds the fields `add_fields` to the vertex label `label`; vertices
    /// that exist get `default_values` for them.
    pub fn alter_vertex_label_add_fields<E: Engine>(
        &self,
        engine: &mut E,
        label: &str,
        add_fields: &[FieldSpec],
        default_values: &[FieldData],
    ) -> (r: Result<(bool, usize)>)
        requires
            c_safe(label@),
            names_safe(add_fields@),
            all_sendable(default_values@),
        ensures
            sent(
                old(engine).trace(),
                final(engine).trace(),
                self.handle(),
                Op::AlterVertexLabelAddFields,
                seq![
                    ArgView::Text(label@),
                    ArgView::Specs(raw_specs(add_fields@)),
                    ArgView::Fields(raw_fields(default_values@)),
                ],
                Shape::FlagSize,
                flag_size_outcome(r),
            ),
    {
        ask_flag_size(engine, self.handle, Op::AlterVertexLabelAddFields, args3(
            text_arg(label),
            specs_arg(add_fields),
            fields_arg(default_values),
        ))
    }

    /// Changes the fields of the vertex label `label` to what `mod_fields`
    /// says of them.
    pub fn alter_vertex_label_mod_fields<E: Engine>(
        &self,
        engine: &mut E,
        label: &str,
        mod_fields: &[FieldSpec],
    ) -> (r: Result<(bool, usize)>)
        requires
            c_safe(label@),
            names_safe(mod_fields@),
        ensures
            sent(
                old(engine).trace(),
                final(engine).trace(),
                self.handle(),
                Op::AlterVertexLabelModFields,
                seq![
                    ArgView::Text(label@),
                    ArgView::Specs(raw_specs(mod_fields@)),
                ],
                Shape::FlagSize,
                flag_size_outcome(r),
            ),
    {
        ask_flag_size(
            engine,
            self.handle,
            Op::AlterVertexLabelModFields,
            args2(text_arg(label), specs_arg(mod_fields)),
        )
    }

    /// Adds the edge label `label` with the fields `field_specs`.
    /// `temporal_field` names the field that ranks edges, or is empty; each
    /// pair of `edge_constraints` names a source and a destination vertex
    /// label that an edge of this label may join.
    pub fn add_edge_label<E: Engine>(
        &self,
        engine: &mut E,
        label: &str,
        field_specs: &[FieldSpec],
        temporal_field: &str,
        edge_constraints: &[(&str, &str)],
    ) -> (r: Result<bool>)
        requires
            c_safe(label@),
            names_safe(field_specs@),
            c_safe(temporal_field@),
            all_c_safe(firsts(edge_constraints@)),
            all_c_safe(seconds(edge_constraints@)),
        ensures
            sent(
                old(engine).trace(),
                final(engine).trace(),
                self.handle(),
                Op::AddEdgeLabel,
                seq![
                    ArgView::Text(label@),
                    ArgView::Specs(raw_specs(field_specs@)),
                    ArgView::Text(temporal_field@),
                    ArgView::Texts(firsts(edge_constraints@)),
                    ArgView::Texts(seconds(edge_constraints@)),
                ],
                Shape::Flag,
                flag_outcome(r),
            ),
    {
        ask_flag(engine, self.handle, Op::AddEdgeLabel, args5(
            text_arg(label),
            specs_arg(field_specs),
            text_arg(temporal_field),
            firsts_arg(edge_constraints),
            seconds_arg(edge_constraints),
        ))
    }

    /// Deletes the edge label `label` and every edge that has it. The answer
    /// holds whether the label was deleted and how many edges went with it.
    pub fn delete_edge_label<E: Engine>(
        &self,
        engine: &mut E,
        label: &str,
    ) -> (r: Result<(bool, usize)>)
        requires
            c_safe(label@),
        ensures
            sent(
                old(engine).trace(),
                final(engine).trace(),
                self.handle(),
                Op::DeleteEdgeLabel,
                seq![ArgView::Text(label@)],
                Shape::FlagSize,
                flag_size_outcome(r),
            ),
    {
        ask_flag_size(engine, self.handle, Op::DeleteEdgeLabel, args1(text_arg(label)))
    }

    /// Changes the pairs of vertex labels that an edge of the label `label`
    /// may join to `constraints`.
    pub fn alter_label_mod_edge_constraints<E: Engine>(
        &self,
        engine: &mut E,
        label: &str,
        constraints: &[(&str, &str)],
    ) -> (r: Result<bool>)
        requires
            c_safe(label@),
            all_c_safe(firsts(constraints@)),
            all_c_safe(seconds(constraints@)),
        ensures
            sent(
                old(engine).trace(),
                final(engine).trace(),
                self.handle(),
                Op::AlterLabelModEdgeConstraints,
                seq![
                    ArgView::Text(label@),
                    ArgView::Texts(firsts(constraints@)),
                    ArgView::Texts(seconds(constraints@)),
                ],
                Shape::Flag,
                flag_outcome(r),
            ),
    {
        ask_flag(engine, self.handle, Op::AlterLabelModEdgeConstraints, args3(
            text_arg(label),
            firsts_arg(constraints),
            seconds_arg(constraints),
        ))
    }

    /// Deletes the fields `del_fields` from the edge label `label`.
    pub fn alter_edge_label_del_fields<E: Engine>(
        &self,
        engine: &mut E,
        label: &str,
        del_fields: &[&str],
    ) -> (r: Result<(bool, usize)>)
        requires
            c_safe(label@),
            all_c_safe(texts_of(del_fields@)),
        ensures
            sent(
                old(engine).trace(),
                final(engine).trace(),
                self.handle(),
                Op::AlterEdgeLabelDelFields,
                seq![
                    ArgView::Text(label@),
                    ArgView::Texts(texts_of(del_fields@)),
                ],
                Shape::FlagSize,
                flag_size_outcome(r),
            ),
    {
        ask_flag_size(
            engine,
            self.handle,
            Op::AlterEdgeLabelDelFields,
            args2(text_arg(label), texts_arg(del_fields)),
        )
    }

    /// Adds the fields `add_fields` to the edge label `label`; edges that
    /// exist get `default_values` for them.
    pub fn alter_edge_label_add_fields<E: Engine>(
        &self,
        engine: &mut E,
        label: &str,
        add_fields: &[FieldSpec],
        default_values: &[FieldData],
    ) -> (r: Result<(bool, usize)>)
        requires
            c_safe(label@),
            names_safe(add_fields@),
            all_sendable(default_values@),
        ensures
            sent(
                old(engine).trace(),
                final(engine).trace(),
                self.handle(),
                Op::AlterEdgeLabelAddFields,
                seq![
                    ArgView::Text(label@),
                    ArgView::Specs(raw_specs(add_fields@)),
                    ArgView::Fields(raw_fields(default_values@)),
                ],
                Shape::FlagSize,
                flag_size_outcome(r),
            ),
    {
        ask_flag_size(engine, self.handle, Op::AlterEdgeLabelAddFields, args3(
            text_arg(label),
            specs_arg(add_fields),
            fields_arg(default_values),
        ))
    }

    /// Changes the fields of the edge label `label` to what `mod_fields` says
    /// of them.
    pub fn alter_edge_label_mod_fields<E: Engine>(
        &self,
        engine: &mut E,
        label: &str,
        mod_fields: &[FieldSpec],
    ) -> (r: Result<(bool, usize)>)
        requires
            c_safe(label@),
            names_safe(mod_fields@),
        ensures
            sent(
                old(engine).trace(),
                final(engine).trace(),
                self.handle(),
                Op::AlterEdgeLabelModFields,
                seq![
                    ArgView::Text(label@),
                    ArgView::Specs(raw_specs(mod_fields@)),
                ],
                Shape::FlagSize,
                flag_size_outcome(r),
            ),
    {
        ask_flag_size(
            engine,
            self.handle,
            Op::AlterEdgeLabelModFields,
            args2(text_arg(label), specs_arg(mod_fields)),
        )
    }

    /// Builds an index on the field `field` of the vertex label `label`; the
    /// call returns when the index is built.
    pub fn add_vertex_index<E: Engine>(
        &self,
        engine: &mut E,
        label: &str,
        field: &str,
        is_unique: bool,
    ) -> (r: Result<bool>)
        requires
            c_safe(label@),
            c_safe(field@),
        ensures
            sent(
                old(engine).trace(),
                final(engine).trace(),
                self.handle(),
                Op::AddVertexIndex,
                seq![
                    ArgView::Text(label@),
                    ArgView::Text(field@),
                    ArgView::Flag(is_unique),
                ],
                Shape::Flag,
                flag_outcome(r),
            ),
    {
        ask_flag(
            engine,
            self.handle,
            Op::AddVertexIndex,
            args3(text_arg(label), text_arg(field), Arg::Flag(is_unique)),
        )
    }

    /// Builds an index on the field `field` of the edge label `label`; the
    /// call returns when the index is built.
    pub fn add_edge_index<E: Engine>(
        &self,
        engine: &mut E,
        label: &str,
        field: &str,
        is_unique: bool,
    ) -> (r: Result<bool>)
        requires
            c_safe(label@),
            c_safe(field@),
        ensures
            sent(
                old(engine).trace(),
                final(engine).trace(),
                self.handle(),
                Op::AddEdgeIndex,
                seq![
                    ArgView::Text(label@),
                    ArgView::Text(field@),
                    ArgView::Flag(is_unique),
                ],
                Shape::Flag,
                flag_outcome(r),
            ),
    {
        ask_flag(
            engine,
            self.handle,
            Op::AddEdgeIndex,
            args3(text_arg(label), text_arg(field), Arg::Flag(is_unique)),
        )
    }

    /// Whether the field `field` of the vertex label `label` has an index
    /// that is ready.
    pub fn is_vertex_indexed<E: Engine>(
        &self,
        engine: &mut E,
        label: &str,
        field: &str,
    ) -> (r: Result<bool>)
        requires
            c_safe(label@),
            c_safe(field@),
        ensures
            sent(
                old(engine).trace(),
                final(engine).trace(),
                self.handle(),
                Op::IsVertexIndexed,
                seq![ArgView::Text(label@), ArgView::Text(field@)],
                Shape::Flag,
                flag_outcome(r),
            ),
    {
        ask_flag(engine, self.handle, Op::IsVertexIndexed, args2(text_arg(label), text_arg(field)))
    }

    /// Whether the field `field` of the edge label `label` has an index that
    /// is ready.
    pub fn is_edge_indexed<E: Engine>(
        &self,
        engine: &mut E,
        label: &str,
        field: &str,
    ) -> (r: Result<bool>)
        requires
            c_safe(label@),
            c_safe(field@),
        ensures
            sent(
                old(engine).trace(),
                final(engine).trace(),
                self.handle(),
                Op::IsEdgeIndexed,
                seq![ArgView::Text(label@), ArgView::Text(field@)],
                Shape::Flag,
                flag_outcome(r),
            ),
    {
        ask_flag(engine, self.handle, Op::IsEdgeIndexed, args2(text_arg(label), text_arg(field)))
    }

    /// Deletes the index on the field `field` of the vertex label `label`.
    pub fn delete_vertex_index<E: Engine>(
        &self,
        engine: &mut E,
        label: &str,
        field: &str,
    ) -> (r: Result<bool>)
        requires
            c_safe(label@),
            c_safe(field@),
        ensures
            sent(
                old(engine).trace(),
                final(engine).trace(),
                self.handle(),
                Op::DeleteVertexIndex,
                seq![ArgView::Text(label@), ArgView::Text(field@)],
                Shape::Flag,
                flag_outcome(r),
            ),
    {
        ask_flag(
            engine,
            self.handle,
            Op::DeleteVertexIndex,
            args2(text_arg(label), text_arg(field)),
        )
    }

    /// Deletes the index on the field `field` of the edge label `label`.
    pub fn delete_edge_index<E: Engine>(
        &self,
        engine: &mut E,
        label: &str,
        field: &str,
    ) -> (r: Result<bool>)
        requires
            c_safe(label@),
            c_safe(field@),
        ensures
            sent(
                old(engine).trace(),
                final(engine).trace(),
                self.handle(),
                Op::DeleteEdgeIndex,
                seq![ArgView::Text(label@), ArgView::Text(field@)],
                Shape::Flag,
                flag_outcome(r),
            ),
    {
        ask_flag(engine, self.handle, Op::DeleteEdgeIndex, args2(text_arg(label), text_arg(field)))
    }

    /// The description of the graph.
    pub fn get_description<E: Engine>(&self, engine: &mut E) -> (r: Result<String>)
        ensures
            sent(
                old(engine).trace(),
                final(engine).trace(),
                self.handle(),
                Op::GetDescription,
                Seq::<ArgView>::empty(),
                Shape::Text,
                text_outcome(r),
            ),
    {
        ask_text(engine, self.handle, Op::GetDescription, args0())
    }

    /// The greatest size that the graph may have.
    pub fn get_max_size<E: Engine>(&self, engine: &mut E) -> (r: Result<usize>)
        ensures
            sent(
                old(engine).trace(),
                final(engine).trace(),
                self.handle(),
                Op::GetMaxSize,
                Seq::<ArgView>::empty(),
                Shape::Size,
                size_outcome(r),
            ),
    {
        ask_size(engine, self.handle, Op::GetMaxSize, args0())
    }

    /// Adds a full-text index on the field `field` of the vertex label
    /// `label`.
    pub fn add_vertex_full_text_index<E: Engine>(
        &self,
        engine: &mut E,
        label: &str,
        field: &str,
    ) -> (r: Result<bool>)
        requires
            c_safe(label@),
            c_safe(field@),
        ensures
            sent(
                old(engine).trace(),
                final(engine).trace(),
                self.handle(),
                Op::AddVertexFullTextIndex,
                seq![ArgView::Text(label@), ArgView::Text(field@)],
                Shape::Flag,
                flag_outcome(r),
            ),
    {
        ask_flag(
            engine,
            self.handle,
            Op::AddVertexFullTextIndex,
            args2(text_arg(label), text_arg(field)),
        )
    }

    /// Adds a full-text index on the field `field` of the edge label `label`.
    pub fn add_edge_full_text_index<E: Engine>(
        &self,
        engine: &mut E,
        label: &str,
        field: &str,
    ) -> (r: Result<bool>)
        requires
            c_safe(label@),
            c_safe(field@),
        ensures
            sent(
                old(engine).trace(),
                final(engine).trace(),
                self.handle(),
                Op::AddEdgeFullTextIndex,
                seq![ArgView::Text(label@), ArgView::Text(field@)],
                Shape::Flag,
                flag_outcome(r),
            ),
    {
        ask_flag(
            engine,
            self.handle,
            Op::AddEdgeFullTextIndex,
            args2(text_arg(label), text_arg(field)),
        )
    }

    /// Deletes the full-text index on the field `field` of the vertex label
    /// `label`.
    pub fn delete_vertex_full_text_index<E: Engine>(
        &self,
        engine: &mut E,
        label: &str,
        field: &str,
    ) -> (r: Result<bool>)
        requires
            c_safe(label@),
            c_safe(field@),
        ensures
            sent(
                old(engine).trace(),
                final(engine).trace(),
                self.handle(),
                Op::DeleteVertexFullTextIndex,
                seq![ArgView::Text(label@), ArgView::Text(field@)],
                Shape::Flag,
                flag_outcome(r),
            ),
    {
        ask_flag(
            engine,
            self.handle,
            Op::DeleteVertexFullTextIndex,
            args2(text_arg(label), text_arg(field)),
        )
    }

    /// Deletes the full-text index on the field `field` of the edge label
    /// `label`.
    pub fn delete_edge_full_text_index<E: Engine>(
        &self,
        engine: &mut E,
        label: &str,
        field: &str,
    ) -> (r: Result<bool>)
        requires
            c_safe(label@),
            c_safe(field@),
        ensures
            sent(
                old(engine).trace(),
                final(engine).trace(),
                self.handle(),
                Op::DeleteEdgeFullTextIndex,
                seq![ArgView::Text(label@), ArgView::Text(field@)],
                Shape::Flag,
                flag_outcome(r),
            ),
    {
        ask_flag(
            engine,
            self.handle,
            Op::DeleteEdgeFullTextIndex,
            args2(text_arg(label), text_arg(field)),
        )
    }

    /// Rebuilds the full-text indexes of the vertex labels `vertex_labels`
    /// and of the edge labels `edge_labels`.
    pub fn rebuild_full_text_index<E: Engine>(
        &self,
        engine: &mut E,
        vertex_labels: &[&str],
        edge_labels: &[&str],
    ) -> (r: Result<()>)
        requires
            all_c_safe(texts_of(vertex_labels@)),
            all_c_safe(texts_of(edge_labels@)),
        ensures
            sent(
                old(engine).trace(),
                final(engine).trace(),
                self.handle(),
                Op::RebuildFullTextIndex,
                seq![
                    ArgView::Texts(texts_of(vertex_labels@)),
                    ArgView::Texts(texts_of(edge_labels@)),
                ],
                Shape::Unit,
                unit_outcome(r),
            ),
    {
        ask_unit(
            engine,
            self.handle,
            Op::RebuildFullTextIndex,
            args2(texts_arg(vertex_labels), texts_arg(edge_labels)),
        )
    }

    /// The `topn` vertices of the label `label` that fit the query `query`
    /// best, each with its score, in the order in which the engine gives
    /// them. The query is written in the syntax of the engine's full-text
    /// index.
    pub fn query_vertex_by_full_text_index<E: Engine>(
        &self,
        engine: &mut E,
        label: &str,
        query: &str,
        topn: i32,
    ) -> (r: Result<Vec<QueryVertexFTIndex>>)
        requires
            c_safe(label@),
            c_safe(query@),
        ensures
            called(
                old(engine).trace(),
                final(engine).trace(),
                self.handle(),
                Op::QueryVertexByFullTextIndex,
                seq![ArgView::Text(label@), ArgView::Text(query@), ArgView::Int(topn as i64)],
                Shape::Hits,
            ),
            match r {
                Ok(found) => final(engine).trace().last().answer matches AnswerView::Hits(columns)
                    && lists_hits(found@, columns.0, columns.1),
                Err(e) => final(engine).trace().last().answer == AnswerView::Failure(e@),
            },
    {
        let ghost before = engine.trace();
        let answer = ask_hits(
            engine,
            self.handle,
            Op::QueryVertexByFullTextIndex,
            args3(text_arg(label), text_arg(query), Arg::Int(topn as i64)),
        );
        proof {
            crate::engine::lemma_sent_called(
                before,
                engine.trace(),
                self.handle,
                Op::QueryVertexByFullTextIndex,
                seq![ArgView::Text(label@), ArgView::Text(query@), ArgView::Int(topn as i64)],
                Shape::Hits,
                crate::engine::hits_outcome(answer),
            );
        }
        match answer {
            Ok((vids, scores)) => {
                let n = if vids.len() <= scores.len() {
                    vids.len()
                } else {
                    scores.len()
                };
                let mut found: Vec<QueryVertexFTIndex> = Vec::new();
                let mut i: usize = 0;
                while i < n
                    invariant
                        i <= n,
                        n <= vids.len(),
                        n <= scores.len(),
                        found@.len() == i,
                        forall|j: int|
                            0 <= j < i ==> #[trigger] found@[j] == (QueryVertexFTIndex {
                                vid: vids@[j],
                                score: scores@[j],
                            }),
                    decreases n - i,
                {
                    found.push(QueryVertexFTIndex { vid: vids[i], score: scores[i] });
                    i = i + 1;
                }
                Ok(found)
            },
            Err(e) => Err(e),
        }
    }

    /// The `topn` edges of the label `label` that fit the query `query` best,
    /// each with its score, in the order in which the engine gives them. The
    /// query is written in the syntax of the engine's full-text index.
    pub fn query_edge_by_full_text_index<E: Engine>(
        &self,
        engine: &mut E,
        label: &str,
        query: &str,
        topn: i32,
    ) -> (r: Result<Vec<QueryEdgeFTIndex>>)
        requires
            c_safe(label@),
            c_safe(query@),
        ensures
            called(
                old(engine).trace(),
                final(engine).trace(),
                self.handle(),
                Op::QueryEdgeByFullTextIndex,
                seq![ArgView::Text(label@), ArgView::Text(query@), ArgView::Int(topn as i64)],
                Shape::EdgeHits,
            ),
            match r {
                Ok(found) => final(engine).trace().last().answer matches AnswerView::EdgeHits(
                    columns,
                ) && lists_edge_hits(found@, columns.0, columns.1),
                Err(e) => final(engine).trace().last().answer == AnswerView::Failure(e@),
            },
    {
        let ghost before = engine.trace();
        let answer = ask_edge_hits(
            engine,
            self.handle,
            Op::QueryEdgeByFullTextIndex,
            args3(text_arg(label), text_arg(query), Arg::Int(topn as i64)),
        );
        proof {
            crate::engine::lemma_sent_called(
                before,
                engine.trace(),
                self.handle,
                Op::QueryEdgeByFullTextIndex,
                seq![ArgView::Text(label@), ArgView::Text(query@), ArgView::Int(topn as i64)],
                Shape::EdgeHits,
                crate::engine::edge_hits_outcome(answer),
            );
        }
        match answer {
            Ok((uids, scores)) => {
                let n = if uids.len() <= scores.len() {
                    uids.len()
                } else {
                    scores.len()
                };
                let mut found: Vec<QueryEdgeFTIndex> = Vec::new();
                let mut i: usize = 0;
                while i < n
                    invariant
                        i <= n,
                        n <= uids.len(),
                        n <= scores.len(),
                        found@.len() == i,
                        forall|j: int|
                            0 <= j < i ==> {
                                &&& (#[trigger] found@[j]).euid.as_raw_spec() == uids@[j]
                                &&& found@[j].score == scores@[j]
                            },
                    decreases n - i,
                {
                    found.push(
                        QueryEdgeFTIndex { euid: EdgeUid::from_raw(&uids[i]), score: scores[i] },
                    );
                    i = i + 1;
                }
                Ok(found)
            },
            Err(e) => Err(e),
        }
    }

    /// The full-text indexes of the graph.
    pub fn list_full_text_indexes<E: Engine>(&self, engine: &mut E) -> (r: Result<Vec<ListIndex>>)
        ensures
            called(
                old(engine).trace(),
                final(engine).trace(),
                self.handle(),
                Op::ListFullTextIndexes,
                Seq::<ArgView>::empty(),
                Shape::TextIndexes,
            ),
            match r {
                Ok(indexes) => final(engine).trace().last().answer matches AnswerView::TextIndexes(
                    columns,
                ) && lists_indexes(indexes@, columns.0, columns.1, columns.2),
                Err(e) => final(engine).trace().last().answer == AnswerView::Failure(e@),
            },
    {
        let ghost before = engine.trace();
        let answer = ask_text_indexes(engine, self.handle, Op::ListFullTextIndexes, args0());
        proof {
            crate::engine::lemma_sent_called(
                before,
                engine.trace(),
                self.handle,
                Op::ListFullTextIndexes,
                Seq::<ArgView>::empty(),
                Shape::TextIndexes,
                crate::engine::text_indexes_outcome(answer),
            );
        }
        match answer {
            Ok((flags, labels, fields)) => {
                let n = least(flags.len(), labels.len(), fields.len());
                let mut indexes: Vec<ListIndex> = Vec::new();
                let mut i: usize = 0;
                while i < n
                    invariant
                        i <= n,
                        n <= flags.len(),
                        n <= labels.len(),
                        n <= fields.len(),
                        indexes@.len() == i,
                        forall|j: int|
                            0 <= j < i ==> {
                                &&& (#[trigger] indexes@[j]).is_vertex == flags@[j]
                                &&& indexes@[j].label_name@ == labels@[j]@
                                &&& indexes@[j].field_name@ == fields@[j]@
                            },
                    decreases n - i,
                {
                    indexes.push(
                        ListIndex {
                            is_vertex: flags[i],
                            label_name: labels[i].clone(),
                            field_name: fields[i].clone(),
                        },
                    );
                    i = i + 1;
                }
                Ok(indexes)
            },
            Err(e) => Err(e),
        }
    }
}

} // verus!
