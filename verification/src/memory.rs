//! An engine that holds vertex labels and vertices in memory.
//!
//! A [`Memory`] holds the vertex labels and the vertices of one graph, each
//! vertex with its id and its label, and the cursors that were made over the
//! vertices. It answers the requests that add and delete a vertex label, add
//! a vertex, make a vertex cursor, move it, ask whether it is at a vertex,
//! read the id of the vertex that it is at and delete that vertex, and moves
//! its cursors as [`crate::model`] says. Every other request it refuses as an
//! invalid parameter.
//!
//! A `Memory` begins without labels and vertices. What it holds and what it
//! answers follows from the requests that it was handed: its trace is the
//! one that [`trace_of`] gives for them, and its state the one that
//! [`state_of`] gives for its trace.

use vstd::prelude::*;

use crate::engine::{
    code_reply, edge_hits_reply, field_reply, fields_reply, flag_ints_reply, flag_outcome, flag_reply,
    flag_size_outcome, flag_size_reply, graphs_reply, handle_reply, hits_reply, indexes_reply, int_outcome,
    int_reply, named_fields_reply, role_reply, roles_reply, sent, short_reply, size_pair_reply,
    size_reply, sizes_reply, specs_reply, text_indexes_reply, text_reply, texts_reply,
    uid_reply, unit_reply, user_reply, users_reply, AnswerView, Arg, ArgView, Engine, Exchange,
    Handle, Kind, Op, Request, RequestView, Shape,
};
use crate::model::{advance, ascending, find, first, least_above, next_above, seek, valid};
use crate::raw::{
    RawEdgeUid, RawFieldData, RawFieldSpec, RawIndexSpec, RawRoleInfo, RawUserInfo,
};
use crate::script::Answer;

verus! {

/// What a `Memory` holds: its vertex labels; the ids of its vertices,
/// ascending, and beside each the label of the vertex; and where each of its
/// cursors is. The cursor with the id `n` is the one at `n - 1`.
pub struct State {
    pub labels: Seq<Seq<char>>,
    pub keys: Seq<i64>,
    pub owners: Seq<Seq<char>>,
    pub cursors: Seq<Option<i64>>,
}

/// The message of the failure of a request that a `Memory` does not answer.
pub open spec fn invalid_parameter() -> Seq<char> {
    "Invalid parameter."@
}

/// The message of the failure of a read through a cursor that is at no
/// vertex.
pub open spec fn invalid_iterator() -> Seq<char> {
    "Invalid iterator."@
}

/// What a request that a `Memory` does not answer gets: nothing, no, or the
/// failure of an invalid parameter, as the operation can give.
pub open spec fn refusal(shape: Shape) -> AnswerView {
    match shape {
        Shape::Done => AnswerView::Done,
        Shape::Probe => AnswerView::Probe(false),
        _ => AnswerView::Failure(invalid_parameter()),
    }
}

/// Whether `answer` is one that an operation of the shape `shape` can give.
pub open spec fn fits(answer: AnswerView, shape: Shape) -> bool {
    match shape {
        Shape::Done => answer is Done,
        Shape::Probe => answer is Probe,
        Shape::Unit => answer is Unit || answer is Failure,
        Shape::Flag => answer is Flag || answer is Failure,
        Shape::Size => answer is Size || answer is Failure,
        Shape::Int => answer is Int || answer is Failure,
        Shape::Short => answer is Short || answer is Failure,
        Shape::Code => answer is Code || answer is Failure,
        Shape::Text => answer is Text || answer is Failure,
        Shape::Texts => answer is Texts || answer is Failure,
        Shape::Sizes => answer is Sizes || answer is Failure,
        Shape::Handle => answer is Handle || answer is Failure,
        Shape::FlagSize => answer is FlagSize || answer is Failure,
        Shape::SizePair => answer is SizePair || answer is Failure,
        Shape::FlagInts => answer is FlagInts || answer is Failure,
        Shape::Uid => answer is Uid || answer is Failure,
        Shape::Field => answer is Field || answer is Failure,
        Shape::Fields => answer is Fields || answer is Failure,
        Shape::NamedFields => answer is NamedFields || answer is Failure,
        Shape::Specs => answer is Specs || answer is Failure,
        Shape::Indexes => answer is Indexes || answer is Failure,
        Shape::User => answer is User || answer is Failure,
        Shape::Role => answer is Role || answer is Failure,
        Shape::Graphs => answer is Graphs || answer is Failure,
        Shape::Users => answer is Users || answer is Failure,
        Shape::Roles => answer is Roles || answer is Failure,
        Shape::TextIndexes => answer is TextIndexes || answer is Failure,
        Shape::Hits => answer is Hits || answer is Failure,
        Shape::EdgeHits => answer is EdgeHits || answer is Failure,
    }
}

/// Whether the state is one that a `Memory` can be in: the ids of the
/// vertices ascend, and every vertex has its label beside it.
pub open spec fn sound(state: State) -> bool {
    &&& ascending(state.keys)
    &&& state.owners.len() == state.keys.len()
}

/// The state of a `Memory` that was handed no request yet: no label, no
/// vertex and no cursor.
pub open spec fn start() -> State {
    State {
        labels: Seq::empty(),
        keys: Seq::empty(),
        owners: Seq::empty(),
        cursors: Seq::empty(),
    }
}

/// The number of the texts of `owners` that are `label`.
pub open spec fn count_of(owners: Seq<Seq<char>>, label: Seq<char>) -> nat
    decreases owners.len(),
{
    if owners.len() == 0 {
        0
    } else {
        count_of(owners.drop_last(), label) + if owners.last() == label {
            1nat
        } else {
            0nat
        }
    }
}

/// The texts of `owners` that are not `label`, in order.
pub open spec fn texts_left(owners: Seq<Seq<char>>, label: Seq<char>) -> Seq<Seq<char>>
    decreases owners.len(),
{
    if owners.len() == 0 {
        Seq::empty()
    } else if owners.last() == label {
        texts_left(owners.drop_last(), label)
    } else {
        texts_left(owners.drop_last(), label).push(owners.last())
    }
}

/// The keys of `keys` whose text beside them in `owners` is not `label`, in
/// order.
pub open spec fn keys_left(keys: Seq<i64>, owners: Seq<Seq<char>>, label: Seq<char>) -> Seq<i64>
    decreases keys.len(),
{
    if keys.len() == 0 || owners.len() == 0 {
        Seq::empty()
    } else if owners.last() == label {
        keys_left(keys.drop_last(), owners.drop_last(), label)
    } else {
        keys_left(keys.drop_last(), owners.drop_last(), label).push(keys.last())
    }
}

/// The id that the next vertex gets: zero for the first, and one more than
/// the greatest id for every other. There is none where the greatest id is
/// the greatest number.
pub open spec fn next_id(keys: Seq<i64>) -> Option<i64> {
    if keys.len() == 0 {
        Some(0i64)
    } else if keys.last() < i64::MAX {
        Some((keys.last() + 1) as i64)
    } else {
        None
    }
}

/// The cursor that `target` names, if it names one of `state`.
pub open spec fn cursor_of(state: State, target: Handle) -> Option<int> {
    if target.kind == Kind::VertexIterator && 1 <= target.id <= state.cursors.len() {
        Some(target.id - 1)
    } else {
        None
    }
}

/// Where the key `k` stands among `keys`.
pub open spec fn place(keys: Seq<i64>, k: i64) -> int {
    choose|i: int| 0 <= i < keys.len() && keys[i] == k
}

/// The label of the vertex of `state` that has the id `k`.
pub open spec fn owner_at(state: State, k: i64) -> Seq<char> {
    state.owners[place(state.keys, k)]
}

/// What a graph of a `Memory` does on a request, and what it answers.
pub open spec fn react_graph(state: State, request: RequestView, shape: Shape) -> (
    State,
    AnswerView,
) {
    let labelled = request.args.len() >= 1 && request.args[0] is Text;
    if request.op == Op::AddVertexLabel && shape == Shape::Flag && labelled {
        let label = request.args[0]->Text_0;
        if state.labels.contains(label) {
            (state, AnswerView::Flag(false))
        } else {
            (State { labels: state.labels.push(label), ..state }, AnswerView::Flag(true))
        }
    } else if request.op == Op::DeleteVertexLabel && shape == Shape::FlagSize && labelled
        && request.args.len() == 1 && state.keys.len() <= usize::MAX {
        let label = request.args[0]->Text_0;
        if state.labels.contains(label) {
            (
                State {
                    labels: texts_left(state.labels, label),
                    keys: keys_left(state.keys, state.owners, label),
                    owners: texts_left(state.owners, label),
                    cursors: state.cursors,
                },
                AnswerView::FlagSize((true, count_of(state.owners, label) as usize)),
            )
        } else {
            (state, AnswerView::FlagSize((false, 0usize)))
        }
    } else {
        (state, refusal(shape))
    }
}

/// What a transaction of a `Memory` does on a request, and what it answers.
pub open spec fn react_txn(state: State, request: RequestView, shape: Shape) -> (
    State,
    AnswerView,
) {
    let labelled = request.args.len() >= 1 && request.args[0] is Text;
    if request.op == Op::GetVertexIterator && shape == Shape::Handle && request.args.len() == 0
        && state.cursors.len() < u64::MAX {
        (
            State { cursors: state.cursors.push(first(state.keys)), ..state },
            AnswerView::Handle((state.cursors.len() + 1) as u64),
        )
    } else if request.op == Op::AddVertexWithFieldData && shape == Shape::Int && labelled
        && state.labels.contains(request.args[0]->Text_0) && next_id(state.keys) is Some {
        (
            State {
                keys: state.keys.push(next_id(state.keys)->Some_0),
                owners: state.owners.push(request.args[0]->Text_0),
                ..state
            },
            AnswerView::Int(next_id(state.keys)->Some_0),
        )
    } else {
        (state, refusal(shape))
    }
}

/// What the cursor `c` of a `Memory` does on a request, and what it
/// answers.
pub open spec fn react_cursor(state: State, c: int, request: RequestView, shape: Shape) -> (
    State,
    AnswerView,
) {
    let plain = request.args.len() == 0;
    let at = state.cursors[c];
    if request.op == Op::IsValid && shape == Shape::Probe && plain {
        (state, AnswerView::Probe(valid(state.keys, at)))
    } else if request.op == Op::Next && shape == Shape::Flag && plain {
        let to = advance(state.keys, at);
        (State { cursors: state.cursors.update(c, to), ..state }, AnswerView::Flag(to is Some))
    } else if request.op == Op::Goto && shape == Shape::Flag && request.args.len() == 2
        && request.args[0] is Int && request.args[1] is Flag {
        let to = seek(state.keys, request.args[0]->Int_0, request.args[1]->Flag_0);
        (State { cursors: state.cursors.update(c, to), ..state }, AnswerView::Flag(to is Some))
    } else if request.op == Op::GetId && shape == Shape::Int && plain {
        if valid(state.keys, at) {
            (state, AnswerView::Int(at->Some_0))
        } else {
            (state, AnswerView::Failure(invalid_iterator()))
        }
    } else if request.op == Op::Delete && shape == Shape::SizePair && plain {
        if valid(state.keys, at) {
            let k = at->Some_0;
            (
                State {
                    labels: state.labels,
                    keys: state.keys.remove(place(state.keys, k)),
                    owners: state.owners.remove(place(state.keys, k)),
                    cursors: state.cursors.update(c, least_above(state.keys, k as int)),
                },
                AnswerView::SizePair((0usize, 0usize)),
            )
        } else {
            (state, AnswerView::Failure(invalid_iterator()))
        }
    } else {
        (state, refusal(shape))
    }
}


/// What a `Memory` in the state `state` does with a request that comes by
/// the method of the shape `shape`: the state that it is in afterwards, and
/// what it answers.
pub open spec fn react(state: State, request: RequestView, shape: Shape) -> (State, AnswerView) {
    if request.target.kind == Kind::GraphDb {
        react_graph(state, request, shape)
    } else if request.target.kind == Kind::Transaction {
        react_txn(state, request, shape)
    } else if cursor_of(state, request.target) is Some {
        react_cursor(state, cursor_of(state, request.target)->Some_0, request, shape)
    } else {
        (state, refusal(shape))
    }
}

/// The state of a `Memory` after the requests of `log`, each with the shape
/// that it came by.
pub open spec fn run(log: Seq<(RequestView, Shape)>) -> State
    decreases log.len(),
{
    if log.len() == 0 {
        start()
    } else {
        react(run(log.drop_last()), log.last().0, log.last().1).0
    }
}

/// The trace of a `Memory` after the requests of `log`: each request with
/// what the `Memory` answered to it in the state that the requests before it
/// had left.
pub open spec fn trace_of(log: Seq<(RequestView, Shape)>) -> Seq<Exchange> {
    Seq::new(
        log.len(),
        |i: int|
            Exchange {
                request: log[i].0,
                shape: log[i].1,
                answer: react(run(log.take(i)), log[i].0, log[i].1).1,
            },
    )
}

/// The requests of `trace`, each with the shape that it came by.
pub open spec fn log_from(trace: Seq<Exchange>) -> Seq<(RequestView, Shape)> {
    Seq::new(trace.len(), |i: int| (trace[i].request, trace[i].shape))
}

/// Whether `trace` is the trace of a `Memory`: each answer is what a
/// `Memory` answers after the requests before it.
pub open spec fn faithful(trace: Seq<Exchange>) -> bool {
    trace == trace_of(log_from(trace))
}

/// The state of a `Memory` whose trace is `trace`.
pub open spec fn state_of(trace: Seq<Exchange>) -> State {
    run(log_from(trace))
}

/// The requests with the shapes that they came by.
pub open spec fn log_of(requests: Seq<Request>, shapes: Seq<Shape>) -> Seq<(RequestView, Shape)> {
    Seq::new(requests.len(), |i: int| (requests[i]@, shapes[i]))
}

/// Whether the parts of a `Memory` go together: the vertices ascend, and
/// they and the cursors are what the requests made of them.
pub open spec fn consistent(state: State, requests: Seq<Request>, shapes: Seq<Shape>) -> bool {
    &&& sound(state)
    &&& shapes.len() == requests.len()
    &&& state == run(log_of(requests, shapes))
}

/// One request more takes the state one step further and adds one exchange
/// to the trace.
pub proof fn lemma_one_more(log: Seq<(RequestView, Shape)>, request: RequestView, shape: Shape)
    ensures
        run(log.push((request, shape))) == react(run(log), request, shape).0,
        trace_of(log.push((request, shape))) == trace_of(log).push(
            Exchange { request, shape, answer: react(run(log), request, shape).1 },
        ),
{
    let longer = log.push((request, shape));
    assert(longer.drop_last() =~= log);
    assert forall|i: int| 0 <= i < log.len() implies trace_of(longer)[i] == trace_of(log)[i] by {
        assert(longer.take(i) =~= log.take(i));
    }
    assert(longer.take(log.len() as int) =~= log);
    assert(trace_of(longer) =~= trace_of(log).push(
        Exchange { request, shape, answer: react(run(log), request, shape).1 },
    ));
}

/// The trace that follows from a log is the trace of a `Memory`, and its
/// requests are those of the log.
pub proof fn lemma_trace_faithful(log: Seq<(RequestView, Shape)>)
    ensures
        log_from(trace_of(log)) == log,
        faithful(trace_of(log)),
        state_of(trace_of(log)) == run(log),
{
    assert(log_from(trace_of(log)) =~= log);
}

/// What one exchange more of a `Memory` is: the answer is what the `Memory`
/// answers in the state that the trace before had left, and the state
/// afterwards is the one that the request leaves.
pub proof fn law_exchange(before: Seq<Exchange>, after: Seq<Exchange>, last: Exchange)
    requires
        faithful(before),
        faithful(after),
        after == before.push(last),
    ensures
        last.answer == react(state_of(before), last.request, last.shape).1,
        state_of(after) == react(state_of(before), last.request, last.shape).0,
{
    let log = log_from(before);
    assert(log_from(after) =~= log.push((last.request, last.shape)));
    lemma_one_more(log, last.request, last.shape);
    assert(after[before.len() as int] == last);
}

/// What a `Memory` answers is an answer that the operation can give.
pub proof fn lemma_react_fits(state: State, request: RequestView, shape: Shape)
    ensures
        fits(react(state, request, shape).1, shape),
{
}

/// Ascending keys stay ascending where one of them is taken out.
pub proof fn lemma_remove_ascending(keys: Seq<i64>, i: int)
    requires
        ascending(keys),
        0 <= i < keys.len(),
    ensures
        ascending(keys.remove(i)),
{
    let shorter = keys.remove(i);
    assert forall|a: int, b: int| 0 <= a < b < shorter.len() implies shorter[a] < shorter[b] by {
        let x = if a < i { a } else { a + 1 };
        let y = if b < i { b } else { b + 1 };
        assert(shorter[a] == keys[x]);
        assert(shorter[b] == keys[y]);
    }
}

/// The request without arguments for `op` on `target`.
pub open spec fn bare(target: Handle, op: Op) -> RequestView {
    RequestView { target, op, args: Seq::<ArgView>::empty() }
}

/// The vertex cursor with the id `id`.
pub open spec fn cursor(id: nat) -> Handle {
    Handle { kind: Kind::VertexIterator, id: id as u64 }
}

/// The state after `steps` steps of the cursor `cursor`.
pub open spec fn stepped(state: State, cursor: Handle, steps: nat) -> State
    decreases steps,
{
    if steps == 0 {
        state
    } else {
        react(stepped(state, cursor, (steps - 1) as nat), bare(cursor, Op::Next), Shape::Flag).0
    }
}

/// A cursor that a `Memory` makes is at the first vertex, or at none where
/// there is no vertex, and it is the next of the `Memory`'s cursors.
pub proof fn law_made(before: Seq<Exchange>, after: Seq<Exchange>, txn: Handle)
    requires
        faithful(before),
        faithful(after),
        crate::engine::called(
            before,
            after,
            txn,
            Op::GetVertexIterator,
            Seq::<ArgView>::empty(),
            Shape::Handle,
        ),
        txn.kind == Kind::Transaction,
        state_of(before).cursors.len() < u64::MAX,
    ensures
        after.last().answer == AnswerView::Handle((state_of(before).cursors.len() + 1) as u64),
        state_of(after) == (State {
            cursors: state_of(before).cursors.push(first(state_of(before).keys)),
            ..state_of(before)
        }),
        cursor_of(state_of(after), cursor(state_of(before).cursors.len() + 1)) == Some(
            state_of(before).cursors.len() as int,
        ),
{
    assert(after =~= before.push(after.last()));
    law_exchange(before, after, after.last());
}

/// Through a cursor of a `Memory` the answer to whether it is at a vertex is
/// whether the vertex that it was put at is still there, and asking moves
/// nothing.
pub proof fn law_is_valid(before: Seq<Exchange>, after: Seq<Exchange>, at: Handle, out: bool)
    requires
        faithful(before),
        faithful(after),
        sent(
            before,
            after,
            at,
            Op::IsValid,
            Seq::<ArgView>::empty(),
            Shape::Probe,
            AnswerView::Probe(out),
        ),
        cursor_of(state_of(before), at) is Some,
    ensures
        out == valid(
            state_of(before).keys,
            state_of(before).cursors[cursor_of(state_of(before), at)->Some_0],
        ),
        state_of(after) == state_of(before),
{
    law_exchange(before, after, after.last());
}

/// A step of a cursor of a `Memory` puts it where [`advance`] says, and the
/// answer is whether it is at a vertex then. The step cannot fail, and it
/// moves no other cursor and no vertex.
pub proof fn law_step(
    before: Seq<Exchange>,
    after: Seq<Exchange>,
    at: Handle,
    r: crate::Result<bool>,
)
    requires
        faithful(before),
        faithful(after),
        sent(
            before,
            after,
            at,
            Op::Next,
            Seq::<ArgView>::empty(),
            Shape::Flag,
            flag_outcome(r),
        ),
        cursor_of(state_of(before), at) is Some,
    ensures
        ({
            let state = state_of(before);
            let c = cursor_of(state, at)->Some_0;
            let to = advance(state.keys, state.cursors[c]);
            &&& r matches Ok(moved)
            &&& moved == (to is Some)
            &&& state_of(after) == State { cursors: state.cursors.update(c, to), ..state }
        }),
{
    law_exchange(before, after, after.last());
}

/// A seek of a cursor of a `Memory` puts it where [`seek`] says, and the
/// answer is whether it is at a vertex then. The seek cannot fail, and it
/// moves no other cursor and no vertex.
pub proof fn law_goto(
    before: Seq<Exchange>,
    after: Seq<Exchange>,
    at: Handle,
    vid: i64,
    nearest: bool,
    r: crate::Result<bool>,
)
    requires
        faithful(before),
        faithful(after),
        sent(
            before,
            after,
            at,
            Op::Goto,
            seq![ArgView::Int(vid), ArgView::Flag(nearest)],
            Shape::Flag,
            flag_outcome(r),
        ),
        cursor_of(state_of(before), at) is Some,
    ensures
        ({
            let state = state_of(before);
            let c = cursor_of(state, at)->Some_0;
            let to = seek(state.keys, vid, nearest);
            &&& r matches Ok(found)
            &&& found == (to is Some)
            &&& state_of(after) == State { cursors: state.cursors.update(c, to), ..state }
        }),
{
    law_exchange(before, after, after.last());
}

/// Through a cursor of a `Memory` that is at a vertex the id that is read is
/// the id of that vertex. Through one that is at none the read fails as the
/// read through an invalid iterator. Reading moves nothing.
pub proof fn law_id(before: Seq<Exchange>, after: Seq<Exchange>, at: Handle, r: crate::Result<i64>)
    requires
        faithful(before),
        faithful(after),
        sent(before, after, at, Op::GetId, Seq::<ArgView>::empty(), Shape::Int, int_outcome(r)),
        cursor_of(state_of(before), at) is Some,
    ensures
        ({
            let state = state_of(before);
            let place = state.cursors[cursor_of(state, at)->Some_0];
            &&& valid(state.keys, place) ==> r == Ok::<i64, crate::Error>(place->Some_0)
            &&& !valid(state.keys, place) ==> r is Err && r->Err_0@ == invalid_iterator()
            &&& state_of(after) == state
        }),
{
    law_exchange(before, after, after.last());
}

/// Deleting a vertex label that a `Memory` holds cannot fail. The answer is
/// yes and the number of the vertices that have the label. Afterwards the
/// label and these vertices are gone: every other vertex is there with its
/// label, and a cursor that was at one of the deleted vertices is at none.
pub proof fn law_delete_label(
    before: Seq<Exchange>,
    after: Seq<Exchange>,
    graph: Handle,
    label: Seq<char>,
    r: crate::Result<(bool, usize)>,
)
    requires
        faithful(before),
        faithful(after),
        sent(
            before,
            after,
            graph,
            Op::DeleteVertexLabel,
            seq![ArgView::Text(label)],
            Shape::FlagSize,
            flag_size_outcome(r),
        ),
        graph.kind == Kind::GraphDb,
        state_of(before).labels.contains(label),
        state_of(before).keys.len() <= usize::MAX,
    ensures
        ({
            let state = state_of(before);
            let left = state_of(after);
            &&& r == Ok::<(bool, usize), crate::Error>(
                (true, count_of(state.owners, label) as usize),
            )
            &&& count_of(state.owners, label) + left.keys.len() == state.keys.len()
            &&& left.keys == keys_left(state.keys, state.owners, label)
            &&& left.owners == texts_left(state.owners, label)
            &&& !left.owners.contains(label)
            &&& left.cursors == state.cursors
            &&& forall|c: int|
                0 <= c < state.cursors.len() && valid(state.keys, state.cursors[c])
                    && owner_at(state, state.cursors[c]->Some_0) == label ==> !valid(
                    left.keys,
                    #[trigger] left.cursors[c],
                )
        }),
{
    law_exchange(before, after, after.last());
    lemma_run_sound(log_from(before));
    let state = state_of(before);
    lemma_left(state.keys, state.owners, label);
    assert forall|c: int|
        0 <= c < state.cursors.len() && valid(state.keys, state.cursors[c]) && owner_at(
            state,
            state.cursors[c]->Some_0,
        ) == label implies !valid(
        keys_left(state.keys, state.owners, label),
        #[trigger] state.cursors[c],
    ) by {
        let k = state.cursors[c]->Some_0;
        lemma_gone(state.keys, state.owners, label, place(state.keys, k));
    }
}

/// The key of a vertex of the label is not among the keys that are left.
pub proof fn lemma_gone(keys: Seq<i64>, owners: Seq<Seq<char>>, label: Seq<char>, at: int)
    requires
        ascending(keys),
        owners.len() == keys.len(),
        0 <= at < keys.len(),
        owners[at] == label,
    ensures
        !keys_left(keys, owners, label).contains(keys[at]),
    decreases keys.len(),
{
    let last = keys.len() - 1;
    lemma_left(keys.drop_last(), owners.drop_last(), label);
    let before = keys_left(keys.drop_last(), owners.drop_last(), label);
    let left = keys_left(keys, owners, label);
    if at < last {
        lemma_gone(keys.drop_last(), owners.drop_last(), label, at);
        if left.contains(keys[at]) {
            let j = choose|j: int| 0 <= j < left.len() && left[j] == keys[at];
            if j < before.len() {
                assert(before[j] == keys[at]);
                assert(before.contains(keys[at]));
            } else {
                assert(left[j] == keys[last]);
                assert(keys[at] < keys[last]);
            }
            assert(false);
        }
    } else {
        if left.contains(keys[at]) {
            let j = choose|j: int| 0 <= j < left.len() && left[j] == keys[at];
            assert(before[j] == keys[last]);
            assert(keys.drop_last().contains(before[j]));
            let i = choose|i: int| 0 <= i < last && keys.drop_last()[i] == before[j];
            assert(keys[i] < keys[last]);
            assert(false);
        }
    }
}

/// Where steps put a cursor of a `Memory`: where [`crate::model::walk`] puts
/// it. The steps move no vertex.
pub proof fn lemma_stepped(state: State, at: Handle, steps: nat)
    requires
        cursor_of(state, at) is Some,
    ensures
        stepped(state, at, steps) == (State {
            cursors: state.cursors.update(
                cursor_of(state, at)->Some_0,
                crate::model::walk(state.keys, state.cursors[cursor_of(state, at)->Some_0], steps),
            ),
            ..state
        }),
    decreases steps,
{
    let c = cursor_of(state, at)->Some_0;
    if steps == 0 {
        assert(state.cursors.update(c, state.cursors[c]) =~= state.cursors);
    } else {
        lemma_stepped(state, at, (steps - 1) as nat);
        let earlier = stepped(state, at, (steps - 1) as nat);
        lemma_walk_split(state.keys, state.cursors[c], (steps - 1) as nat);
        assert(earlier.cursors.update(
            c,
            advance(earlier.keys, earlier.cursors[c]),
        ) =~= state.cursors.update(c, crate::model::walk(state.keys, state.cursors[c], steps)));
    }
}

/// One step more puts a cursor one step further.
pub proof fn lemma_walk_split(keys: Seq<i64>, at: Option<i64>, steps: nat)
    ensures
        crate::model::walk(keys, at, steps + 1) == advance(
            keys,
            crate::model::walk(keys, at, steps),
        ),
    decreases steps,
{
    reveal_with_fuel(crate::model::walk, 2);
    if steps > 0 {
        lemma_walk_split(keys, advance(keys, at), (steps - 1) as nat);
        assert(crate::model::walk(keys, at, steps + 1) == crate::model::walk(
            keys,
            advance(keys, at),
            steps,
        ));
        assert(crate::model::walk(keys, at, steps) == crate::model::walk(
            keys,
            advance(keys, at),
            (steps - 1) as nat,
        ));
    }
}

/// Over a `Memory` with one vertex or more, a cursor that was just made is
/// at a vertex. After fewer steps than there are vertices it is at a vertex
/// still: at the one that as many vertices stand before as it took steps. The
/// step that follows as many steps as there are vertices, less one, is the
/// first that answers no, and it puts the cursor at none. A step of a cursor
/// that is at none answers no and changes nothing.
pub proof fn law_cursor_walk(state: State, txn: Handle, steps: nat)
    requires
        ascending(state.keys),
        state.keys.len() >= 1,
        txn.kind == Kind::Transaction,
        state.cursors.len() < u64::MAX,
    ensures
        ({
            let made = react(state, bare(txn, Op::GetVertexIterator), Shape::Handle);
            let at = cursor(state.cursors.len() + 1);
            let c = state.cursors.len() as int;
            let reached = stepped(made.0, at, steps);
            let n = state.keys.len();
            &&& made.1 == AnswerView::Handle(at.id)
            &&& react(made.0, bare(at, Op::IsValid), Shape::Probe).1 == AnswerView::Probe(true)
            &&& reached.keys == state.keys
            &&& reached.owners == state.owners
            &&& steps < n ==> reached.cursors[c] == Some(state.keys[steps as int])
            &&& steps >= n ==> reached.cursors[c] == None::<i64>
            &&& react(reached, bare(at, Op::IsValid), Shape::Probe).1 == AnswerView::Probe(
                steps < n,
            )
            &&& react(reached, bare(at, Op::Next), Shape::Flag).1 == AnswerView::Flag(
                steps + 1 < n,
            )
            &&& steps >= n ==> react(reached, bare(at, Op::Next), Shape::Flag).0 == reached
        }),
{
    let made = react(state, bare(txn, Op::GetVertexIterator), Shape::Handle);
    let at = cursor(state.cursors.len() + 1);
    let c = state.cursors.len() as int;
    let n = state.keys.len();
    assert(cursor_of(made.0, at) == Some(c));
    assert(made.0.cursors[c] == first(state.keys));
    lemma_stepped(made.0, at, steps);
    crate::model::law_walk(state.keys, steps);
    crate::model::law_walk(state.keys, steps + 1);
    lemma_walk_split(state.keys, first(state.keys), steps);
    let reached = stepped(made.0, at, steps);
    assert(cursor_of(reached, at) == Some(c));
    assert(reached.cursors[c] == crate::model::walk(state.keys, first(state.keys), steps));
    if steps >= n {
        assert(reached.cursors.update(c, None::<i64>) =~= reached.cursors);
    }
}

/// What is left where the vertices of a label are taken out: the keys that
/// are left ascend, each of them is one of the keys, every vertex that is
/// left has its label beside it, and the vertices that are left and those
/// of the label are all the vertices.
pub proof fn lemma_left(keys: Seq<i64>, owners: Seq<Seq<char>>, label: Seq<char>)
    requires
        ascending(keys),
        owners.len() == keys.len(),
    ensures
        ascending(keys_left(keys, owners, label)),
        texts_left(owners, label).len() == keys_left(keys, owners, label).len(),
        count_of(owners, label) + keys_left(keys, owners, label).len() == keys.len(),
        forall|j: int|
            0 <= j < keys_left(keys, owners, label).len() ==> keys.contains(
                #[trigger] keys_left(keys, owners, label)[j],
            ),
        !texts_left(owners, label).contains(label),
    decreases keys.len(),
{
    if keys.len() > 0 {
        let shorter = keys.drop_last();
        lemma_left(shorter, owners.drop_last(), label);
        let before = keys_left(shorter, owners.drop_last(), label);
        let left = keys_left(keys, owners, label);
        assert forall|j: int| 0 <= j < before.len() implies keys.contains(#[trigger] before[j])
            && before[j] < keys.last() by {
            assert(shorter.contains(before[j]));
            let at = choose|at: int| 0 <= at < shorter.len() && shorter[at] == before[j];
            assert(keys[at] == before[j]);
            assert(keys[at] < keys[keys.len() - 1]);
        }
        if owners.last() != label {
            assert(keys.contains(keys.last())) by {
                assert(keys[keys.len() - 1] == keys.last());
            }
            assert forall|j: int| 0 <= j < left.len() implies keys.contains(#[trigger] left[j]) by {
                if j < before.len() {
                    assert(left[j] == before[j]);
                }
            }
            assert forall|a: int, b: int| 0 <= a < b < left.len() implies left[a] < left[b] by {
                if b < before.len() {
                    assert(before[a] < before[b]);
                } else {
                    assert(left[a] == before[a]);
                }
            }
            let texts = texts_left(owners, label);
            let texts_before = texts_left(owners.drop_last(), label);
            assert forall|j: int| 0 <= j < texts.len() implies texts[j] != label by {
                if j < texts_before.len() {
                    assert(texts_before.contains(texts_before[j]));
                }
            }
        }
    }
}

/// No request takes a `Memory` out of the states that it can be in.
pub proof fn lemma_react_sound(state: State, request: RequestView, shape: Shape)
    requires
        sound(state),
    ensures
        sound(react(state, request, shape).0),
{
    let next = react(state, request, shape).0;
    if request.target.kind == Kind::GraphDb {
        if request.args.len() >= 1 && request.args[0] is Text {
            lemma_left(state.keys, state.owners, request.args[0]->Text_0);
        }
    } else if request.target.kind == Kind::Transaction {
        if next.keys != state.keys {
            let n = state.keys.len() as int;
            assert forall|a: int, b: int| 0 <= a < b < next.keys.len() implies next.keys[a]
                < next.keys[b] by {
                if b == n {
                    if a < n - 1 {
                        assert(state.keys[a] < state.keys[n - 1]);
                    }
                } else {
                    assert(state.keys[a] < state.keys[b]);
                }
            }
        }
    } else if cursor_of(state, request.target) is Some {
        let at = state.cursors[cursor_of(state, request.target)->Some_0];
        if valid(state.keys, at) {
            lemma_remove_ascending(state.keys, place(state.keys, at->Some_0));
        }
    }
}

/// Whatever a `Memory` was asked, it is in a state that it can be in.
pub proof fn lemma_run_sound(log: Seq<(RequestView, Shape)>)
    ensures
        sound(run(log)),
    decreases log.len(),
{
    if log.len() > 0 {
        lemma_run_sound(log.drop_last());
        lemma_react_sound(run(log.drop_last()), log.last().0, log.last().1);
    }
}

/// What a `Memory` keeps of its graph.
struct Store {
    labels: Vec<String>,
    keys: Vec<i64>,
    owners: Vec<String>,
    cursors: Vec<Option<i64>>,
}

impl View for Store {
    type V = State;

    closed spec fn view(&self) -> State {
        State {
            labels: self.labels.deep_view(),
            keys: self.keys@,
            owners: self.owners.deep_view(),
            cursors: self.cursors@,
        }
    }
}

/// The label that the request names first, if it names one.
fn label_of(request: &Request) -> (label: Option<&String>)
    ensures
        label is Some == (request@.args.len() >= 1 && request@.args[0] is Text),
        label matches Some(text) ==> text@ == request@.args[0]->Text_0,
{
    assert(request@.args.len() == request.args@.len());
    if request.args.len() >= 1 {
        assert(request@.args[0] == request.args@[0]@);
        match &request.args[0] {
            Arg::Text(text) => Some(text),
            _ => None,
        }
    } else {
        None
    }
}

/// Whether `label` is one of `texts`.
fn holds(texts: &Vec<String>, label: &String) -> (yes: bool)
    ensures
        yes == texts.deep_view().contains(label@),
{
    let mut i: usize = 0;
    while i < texts.len()
        invariant
            i <= texts.len(),
            forall|j: int| 0 <= j < i ==> texts.deep_view()[j] != label@,
        decreases texts.len() - i,
    {
        if texts[i] == *label {
            assert(texts.deep_view()[i as int] == label@);
            return true;
        }
        i = i + 1;
    }
    false
}

/// The texts of `texts` that are not `label`, in order.
fn without_label(texts: &Vec<String>, label: &String) -> (left: Vec<String>)
    ensures
        left.deep_view() == texts_left(texts.deep_view(), label@),
{
    let ghost all = texts.deep_view();
    let mut left: Vec<String> = Vec::new();
    let mut i: usize = 0;
    assert(all.take(0) =~= Seq::<Seq<char>>::empty());
    assert(left.deep_view() =~= texts_left(all.take(0), label@));
    while i < texts.len()
        invariant
            i <= texts.len(),
            all == texts.deep_view(),
            left.deep_view() == texts_left(all.take(i as int), label@),
        decreases texts.len() - i,
    {
        let ghost before = left.deep_view();
        proof {
            assert(all.take(i + 1).drop_last() =~= all.take(i as int));
            assert(all.take(i + 1).last() == texts@[i as int]@);
        }
        if texts[i] != *label {
            left.push(texts[i].clone());
            assert(left.deep_view() =~= before.push(texts@[i as int]@));
        }
        i = i + 1;
    }
    assert(all.take(texts.len() as int) =~= all);
    left
}

/// The keys of `keys` whose text beside them in `owners` is not `label`, in
/// order, and the number of the others.
fn without_owner(keys: &Vec<i64>, owners: &Vec<String>, label: &String) -> (left: (Vec<i64>, usize))
    requires
        owners@.len() == keys@.len(),
    ensures
        left.0@ == keys_left(keys@, owners.deep_view(), label@),
        left.1 == count_of(owners.deep_view(), label@),
{
    let ghost texts = owners.deep_view();
    let mut left: Vec<i64> = Vec::new();
    let mut count: usize = 0;
    let mut i: usize = 0;
    assert(texts.take(0) =~= Seq::<Seq<char>>::empty());
    assert(keys@.take(0) =~= Seq::<i64>::empty());
    while i < keys.len()
        invariant
            i <= keys@.len(),
            owners@.len() == keys@.len(),
            texts == owners.deep_view(),
            left@ == keys_left(keys@.take(i as int), texts.take(i as int), label@),
            count == count_of(texts.take(i as int), label@),
            count <= i,
        decreases keys.len() - i,
    {
        proof {
            assert(texts.take(i + 1).drop_last() =~= texts.take(i as int));
            assert(texts.take(i + 1).last() == owners@[i as int]@);
            assert(keys@.take(i + 1).drop_last() =~= keys@.take(i as int));
            assert(keys@.take(i + 1).last() == keys@[i as int]);
        }
        if owners[i] == *label {
            count = count + 1;
        } else {
            left.push(keys[i]);
        }
        i = i + 1;
    }
    assert(texts.take(keys@.len() as int) =~= texts);
    assert(keys@.take(keys@.len() as int) =~= keys@);
    (left, count)
}

/// What the request asks for, where it is one that a `Memory` answers.
fn decide(store: &mut Store, request: &Request, shape: Shape) -> (answer: Answer)
    requires
        sound(old(store)@),
    ensures
        (final(store)@, answer@) == react(old(store)@, request@, shape),
{
    let ghost state = store@;
    let ghost view = request@;
    let plain = request.args.len() == 0;
    assert(view.args.len() == request.args@.len());
    let target = request.target;
    let label = label_of(request);
    if target.kind == Kind::GraphDb {
        if request.op == Op::AddVertexLabel && shape == Shape::Flag {
            if let Some(label) = label {
                if holds(&store.labels, label) {
                    return Answer::Flag(false);
                }
                store.labels.push(label.clone());
                assert(store@.labels =~= state.labels.push(label@));
                return Answer::Flag(true);
            }
        }
        if request.op == Op::DeleteVertexLabel && shape == Shape::FlagSize && request.args.len()
            == 1 {
            if let Some(label) = label {
                assert(state.keys.len() == store.keys.len());
                if !holds(&store.labels, label) {
                    return Answer::FlagSize((false, 0));
                }
                let labels = without_label(&store.labels, label);
                let owners = without_label(&store.owners, label);
                let (keys, count) = without_owner(&store.keys, &store.owners, label);
                store.labels = labels;
                store.owners = owners;
                store.keys = keys;
                return Answer::FlagSize((true, count));
            }
        }
        return refuse(shape);
    }
    if target.kind == Kind::Transaction {
        if request.op == Op::GetVertexIterator && shape == Shape::Handle && plain && (
        store.cursors.len() as u64) < u64::MAX {
            let at = if store.keys.len() > 0 {
                Some(store.keys[0])
            } else {
                None
            };
            let id = store.cursors.len() as u64 + 1;
            store.cursors.push(at);
            return Answer::Handle(id);
        }
        if request.op == Op::AddVertexWithFieldData && shape == Shape::Int {
            if let Some(label) = label {
                if holds(&store.labels, label) {
                    let n = store.keys.len();
                    let id = if n == 0 {
                        0
                    } else if store.keys[n - 1] < i64::MAX {
                        store.keys[n - 1] + 1
                    } else {
                        return refuse(shape);
                    };
                    store.keys.push(id);
                    store.owners.push(label.clone());
                    assert(store@.owners =~= state.owners.push(label@));
                    return Answer::Int(id);
                }
            }
        }
        return refuse(shape);
    }
    if target.kind == Kind::VertexIterator && 1 <= target.id && target.id
        <= store.cursors.len() as u64 {
        let c = (target.id - 1) as usize;
        let at = store.cursors[c];
        assert(cursor_of(state, view.target) == Some(c as int));
        if request.op == Op::IsValid && shape == Shape::Probe && plain {
            return Answer::Probe(is_at(&store.keys, at));
        }
        if request.op == Op::Next && shape == Shape::Flag && plain {
            let to = match at {
                Some(k) => if find(&store.keys, k).is_some() {
                    next_above(&store.keys, k)
                } else {
                    None
                },
                None => None,
            };
            store.cursors.set(c, to);
            return Answer::Flag(to.is_some());
        }
        if request.op == Op::Goto && shape == Shape::Flag && request.args.len() == 2 {
            assert(view.args[0] == request.args@[0]@);
            assert(view.args[1] == request.args@[1]@);
            match (&request.args[0], &request.args[1]) {
                (Arg::Int(k), Arg::Flag(nearest)) => {
                    let to = if find(&store.keys, *k).is_some() {
                        Some(*k)
                    } else if *nearest {
                        next_above(&store.keys, *k)
                    } else {
                        None
                    };
                    store.cursors.set(c, to);
                    return Answer::Flag(to.is_some());
                },
                _ => {
                    return refuse(shape);
                },
            }
        }
        if request.op == Op::GetId && shape == Shape::Int && plain {
            if is_at(&store.keys, at) {
                match at {
                    Some(k) => {
                        return Answer::Int(k);
                    },
                    None => {
                        return vstd::pervasive::unreached();
                    },
                }
            }
            return Answer::Failure("Invalid iterator.".to_owned());
        }
        if request.op == Op::Delete && shape == Shape::SizePair && plain {
            match at {
                Some(k) => {
                    match find(&store.keys, k) {
                        Some(i) => {
                            let to = next_above(&store.keys, k);
                            proof {
                                assert(state.keys.contains(k));
                                let p = place(state.keys, k);
                                assert(0 <= p < state.keys.len() && state.keys[p] == k);
                                if p < i {
                                    assert(state.keys[p] < state.keys[i as int]);
                                }
                                if i < p {
                                    assert(state.keys[i as int] < state.keys[p]);
                                }
                            }
                            let removed = store.keys.remove(i);
                            let owner = store.owners.remove(i);
                            store.cursors.set(c, to);
                            assert(store@.owners =~= state.owners.remove(i as int));
                            return Answer::SizePair((0, 0));
                        },
                        None => {
                            return Answer::Failure("Invalid iterator.".to_owned());
                        },
                    }
                },
                None => {
                    return Answer::Failure("Invalid iterator.".to_owned());
                },
            }
        }
        return refuse(shape);
    }
    assert(cursor_of(state, view.target) is None);
    refuse(shape)
}

/// Whether a cursor at `at` is at a vertex.
fn is_at(keys: &Vec<i64>, at: Option<i64>) -> (yes: bool)
    ensures
        yes == valid(keys@, at),
{
    match at {
        Some(k) => find(keys, k).is_some(),
        None => false,
    }
}

/// The answer to a request that is not answered.
fn refuse(shape: Shape) -> (answer: Answer)
    ensures
        answer@ == refusal(shape),
{
    match shape {
        Shape::Done => Answer::Done,
        Shape::Probe => Answer::Probe(false),
        _ => Answer::Failure("Invalid parameter.".to_owned()),
    }
}

/// Takes one request: answers it and keeps it.
fn step(
    store: &mut Store,
    requests: &mut Vec<Request>,
    shapes: &mut Vec<Shape>,
    request: Request,
    shape: Shape,
) -> (answer: Answer)
    requires
        consistent(old(store)@, old(requests)@, old(shapes)@),
    ensures
        consistent(final(store)@, final(requests)@, final(shapes)@),
        final(requests)@ == old(requests)@.push(request),
        final(shapes)@ == old(shapes)@.push(shape),
        fits(answer@, shape),
        (final(store)@, answer@) == react(old(store)@, request@, shape),
        trace_of(log_of(final(requests)@, final(shapes)@)) == trace_of(
            log_of(old(requests)@, old(shapes)@),
        ).push(Exchange { request: request@, shape, answer: answer@ }),
{
    let ghost log = log_of(requests@, shapes@);
    let ghost view = request@;
    let answer = decide(store, &request, shape);
    requests.push(request);
    shapes.push(shape);
    proof {
        assert(log_of(requests@, shapes@) =~= log.push((view, shape)));
        lemma_one_more(log, view, shape);
        lemma_react_fits(run(log), view, shape);
        lemma_react_sound(run(log), view, shape);
    }
    answer
}

/// An engine that holds vertices in memory.
pub struct Memory {
    store: Store,
    requests: Vec<Request>,
    shapes: Vec<Shape>,
}

impl Memory {
    /// The parts of a `Memory` always go together.
    #[verifier::type_invariant]
    closed spec fn sound(&self) -> bool {
        consistent(self.store@, self.requests@, self.shapes@)
    }

    /// The labels, the vertices and the cursors as they are now.
    pub closed spec fn state(&self) -> State {
        self.store@
    }

    /// The requests so far, each with the shape that it came by.
    pub closed spec fn log(&self) -> Seq<(RequestView, Shape)> {
        log_of(self.requests@, self.shapes@)
    }

    /// An engine without labels and vertices.
    pub fn new() -> (memory: Memory)
        ensures
            memory.state() == start(),
            memory.trace() == Seq::<Exchange>::empty(),
    {
        let store = Store {
            labels: Vec::new(),
            keys: Vec::new(),
            owners: Vec::new(),
            cursors: Vec::new(),
        };
        let requests: Vec<Request> = Vec::new();
        let shapes: Vec<Shape> = Vec::new();
        assert(log_of(requests@, shapes@) =~= Seq::<(RequestView, Shape)>::empty());
        assert(store@.cursors =~= Seq::<Option<i64>>::empty());
        assert(store@.keys =~= Seq::<i64>::empty());
        assert(store@.labels =~= Seq::<Seq<char>>::empty());
        assert(store@.owners =~= Seq::<Seq<char>>::empty());
        let memory = Memory { store, requests, shapes };
        assert(memory.trace() =~= Seq::<Exchange>::empty());
        memory
    }

    /// The ids of the vertices that the engine holds now.
    pub fn vertices(&self) -> (keys: &Vec<i64>)
        ensures
            keys@ == self.state().keys,
            ascending(keys@),
            faithful(self.trace()),
            self.state() == state_of(self.trace()),
    {
        proof {
            use_type_invariant(self);
            lemma_trace_faithful(self.log());
        }
        &self.store.keys
    }

    /// The label of each vertex that the engine holds now, in the order of
    /// the vertices.
    pub fn owners(&self) -> (owners: &Vec<String>)
        ensures
            owners.deep_view() == self.state().owners,
            owners@.len() == self.state().keys.len(),
    {
        proof {
            use_type_invariant(self);
        }
        &self.store.owners
    }

    /// The vertex labels that the engine holds now.
    pub fn labels(&self) -> (labels: &Vec<String>)
        ensures
            labels.deep_view() == self.state().labels,
    {
        &self.store.labels
    }

    /// Where the cursor with the id `id` is: the id of the vertex that it is
    /// at, if it is at one.
    pub fn position(&self, id: u64) -> (at: Option<i64>)
        requires
            1 <= id <= self.state().cursors.len(),
        ensures
            at == self.state().cursors[id - 1],
            faithful(self.trace()),
            self.state() == state_of(self.trace()),
    {
        proof {
            use_type_invariant(self);
            lemma_trace_faithful(self.log());
        }
        let n = self.store.cursors.len();
        self.store.cursors[(id - 1) as usize]
    }

    /// The number of cursors that were made.
    pub fn cursors(&self) -> (n: usize)
        ensures
            n == self.state().cursors.len(),
    {
        self.store.cursors.len()
    }

    /// The requests that the engine was handed, in order.
    pub fn requests(&self) -> (requests: &Vec<Request>)
        ensures
            requests@.len() == self.trace().len(),
            forall|i: int|
                0 <= i < requests@.len() ==> (#[trigger] requests@[i])@ == self.trace()[i].request,
    {
        &self.requests
    }

    /// Takes one request that came by the method of the shape `shape`.
    fn serve(&mut self, request: Request, shape: Shape) -> (answer: Answer)
        ensures
            final(self).trace() == old(self).trace().push(
                Exchange { request: request@, shape, answer: answer@ },
            ),
            fits(answer@, shape),
            final(self).log() == old(self).log().push((request@, shape)),
            (final(self).state(), answer@) == react(old(self).state(), request@, shape),
    {
        proof {
            use_type_invariant(&*self);
        }
        let ghost view = request@;
        let ghost log = self.log();
        let mut taken = Memory::new();
        core::mem::swap(self, &mut taken);
        let Memory { store, requests, shapes } = taken;
        let mut store = store;
        let mut requests = requests;
        let mut shapes = shapes;
        let answer = step(&mut store, &mut requests, &mut shapes, request, shape);
        *self = Memory { store, requests, shapes };
        assert(self.log() =~= log.push((view, shape)));
        answer
    }
}

impl Engine for Memory {
    closed spec fn trace(&self) -> Seq<Exchange> {
        trace_of(log_of(self.requests@, self.shapes@))
    }

    /// Keeps the request.
    fn signal(&mut self, request: Request)
        ensures
            final(self).log() == old(self).log().push((request@, Shape::Done)),
            final(self).state() == react(old(self).state(), request@, Shape::Done).0,
    {
        let answer = self.serve(request, Shape::Done);
    }

    /// Says whether the cursor that the request names is at a vertex, where
    /// that is what the request asks.
    fn probe(&mut self, request: Request) -> (out: bool)
        ensures
            final(self).log() == old(self).log().push((request@, Shape::Probe)),
            (final(self).state(), AnswerView::Probe(out)) == react(
                old(self).state(),
                request@,
                Shape::Probe,
            ),
    {
        match self.serve(request, Shape::Probe) {
            Answer::Probe(b) => b,
            _ => vstd::pervasive::unreached(),
        }
    }

    /// Answers as [`react`] says.
    fn call_unit(&mut self, request: Request) -> (out: core::result::Result<(), String>)
        ensures
            final(self).log() == old(self).log().push((request@, Shape::Unit)),
            (final(self).state(), unit_reply(out)) == react(
                old(self).state(),
                request@,
                Shape::Unit,
            ),
    {
        match self.serve(request, Shape::Unit) {
            Answer::Unit => Ok(()),
            Answer::Failure(message) => Err(message),
            _ => vstd::pervasive::unreached(),
        }
    }

    /// Answers as [`react`] says.
    fn call_flag(&mut self, request: Request) -> (out: core::result::Result<bool, String>)
        ensures
            final(self).log() == old(self).log().push((request@, Shape::Flag)),
            (final(self).state(), flag_reply(out)) == react(
                old(self).state(),
                request@,
                Shape::Flag,
            ),
    {
        match self.serve(request, Shape::Flag) {
            Answer::Flag(v) => Ok(v),
            Answer::Failure(message) => Err(message),
            _ => vstd::pervasive::unreached(),
        }
    }

    /// Answers as [`react`] says.
    fn call_size(&mut self, request: Request) -> (out: core::result::Result<usize, String>)
        ensures
            final(self).log() == old(self).log().push((request@, Shape::Size)),
            (final(self).state(), size_reply(out)) == react(
                old(self).state(),
                request@,
                Shape::Size,
            ),
    {
        match self.serve(request, Shape::Size) {
            Answer::Size(v) => Ok(v),
            Answer::Failure(message) => Err(message),
            _ => vstd::pervasive::unreached(),
        }
    }

    /// Answers as [`react`] says.
    fn call_int(&mut self, request: Request) -> (out: core::result::Result<i64, String>)
        ensures
            final(self).log() == old(self).log().push((request@, Shape::Int)),
            (final(self).state(), int_reply(out)) == react(
                old(self).state(),
                request@,
                Shape::Int,
            ),
    {
        match self.serve(request, Shape::Int) {
            Answer::Int(v) => Ok(v),
            Answer::Failure(message) => Err(message),
            _ => vstd::pervasive::unreached(),
        }
    }

    /// Answers as [`react`] says.
    fn call_short(&mut self, request: Request) -> (out: core::result::Result<u16, String>)
        ensures
            final(self).log() == old(self).log().push((request@, Shape::Short)),
            (final(self).state(), short_reply(out)) == react(
                old(self).state(),
                request@,
                Shape::Short,
            ),
    {
        match self.serve(request, Shape::Short) {
            Answer::Short(v) => Ok(v),
            Answer::Failure(message) => Err(message),
            _ => vstd::pervasive::unreached(),
        }
    }

    /// Answers as [`react`] says.
    fn call_code(&mut self, request: Request) -> (out: core::result::Result<u32, String>)
        ensures
            final(self).log() == old(self).log().push((request@, Shape::Code)),
            (final(self).state(), code_reply(out)) == react(
                old(self).state(),
                request@,
                Shape::Code,
            ),
    {
        match self.serve(request, Shape::Code) {
            Answer::Code(v) => Ok(v),
            Answer::Failure(message) => Err(message),
            _ => vstd::pervasive::unreached(),
        }
    }

    /// Answers as [`react`] says.
    fn call_text(&mut self, request: Request) -> (out: core::result::Result<String, String>)
        ensures
            final(self).log() == old(self).log().push((request@, Shape::Text)),
            (final(self).state(), text_reply(out)) == react(
                old(self).state(),
                request@,
                Shape::Text,
            ),
    {
        match self.serve(request, Shape::Text) {
            Answer::Text(v) => Ok(v),
            Answer::Failure(message) => Err(message),
            _ => vstd::pervasive::unreached(),
        }
    }

    /// Answers as [`react`] says.
    fn call_texts(&mut self, request: Request) -> (out: core::result::Result<Vec<String>, String>)
        ensures
            final(self).log() == old(self).log().push((request@, Shape::Texts)),
            (final(self).state(), texts_reply(out)) == react(
                old(self).state(),
                request@,
                Shape::Texts,
            ),
    {
        match self.serve(request, Shape::Texts) {
            Answer::Texts(v) => Ok(v),
            Answer::Failure(message) => Err(message),
            _ => vstd::pervasive::unreached(),
        }
    }

    /// Answers as [`react`] says.
    fn call_sizes(&mut self, request: Request) -> (out: core::result::Result<Vec<usize>, String>)
        ensures
            final(self).log() == old(self).log().push((request@, Shape::Sizes)),
            (final(self).state(), sizes_reply(out)) == react(
                old(self).state(),
                request@,
                Shape::Sizes,
            ),
    {
        match self.serve(request, Shape::Sizes) {
            Answer::Sizes(v) => Ok(v),
            Answer::Failure(message) => Err(message),
            _ => vstd::pervasive::unreached(),
        }
    }

    /// Answers as [`react`] says.
    fn call_handle(&mut self, request: Request) -> (out: core::result::Result<u64, String>)
        ensures
            final(self).log() == old(self).log().push((request@, Shape::Handle)),
            (final(self).state(), handle_reply(out)) == react(
                old(self).state(),
                request@,
                Shape::Handle,
            ),
    {
        match self.serve(request, Shape::Handle) {
            Answer::Handle(v) => Ok(v),
            Answer::Failure(message) => Err(message),
            _ => vstd::pervasive::unreached(),
        }
    }

    /// Answers as [`react`] says.
    fn call_flag_size(&mut self, request: Request) -> (
        out: core::result::Result<(bool, usize), String>
    )
        ensures
            final(self).log() == old(self).log().push((request@, Shape::FlagSize)),
            (final(self).state(), flag_size_reply(out)) == react(
                old(self).state(),
                request@,
                Shape::FlagSize,
            ),
    {
        match self.serve(request, Shape::FlagSize) {
            Answer::FlagSize(v) => Ok(v),
            Answer::Failure(message) => Err(message),
            _ => vstd::pervasive::unreached(),
        }
    }

    /// Answers as [`react`] says.
    fn call_size_pair(&mut self, request: Request) -> (
        out: core::result::Result<(usize, usize), String>
    )
        ensures
            final(self).log() == old(self).log().push((request@, Shape::SizePair)),
            (final(self).state(), size_pair_reply(out)) == react(
                old(self).state(),
                request@,
                Shape::SizePair,
            ),
    {
        match self.serve(request, Shape::SizePair) {
            Answer::SizePair(v) => Ok(v),
            Answer::Failure(message) => Err(message),
            _ => vstd::pervasive::unreached(),
        }
    }

    /// Answers as [`react`] says.
    fn call_flag_ints(&mut self, request: Request) -> (
        out: core::result::Result<(bool, Vec<i64>), String>
    )
        ensures
            final(self).log() == old(self).log().push((request@, Shape::FlagInts)),
            (final(self).state(), flag_ints_reply(out)) == react(
                old(self).state(),
                request@,
                Shape::FlagInts,
            ),
    {
        match self.serve(request, Shape::FlagInts) {
            Answer::FlagInts(v) => Ok(v),
            Answer::Failure(message) => Err(message),
            _ => vstd::pervasive::unreached(),
        }
    }

    /// Answers as [`react`] says.
    fn call_uid(&mut self, request: Request) -> (out: core::result::Result<RawEdgeUid, String>)
        ensures
            final(self).log() == old(self).log().push((request@, Shape::Uid)),
            (final(self).state(), uid_reply(out)) == react(
                old(self).state(),
                request@,
                Shape::Uid,
            ),
    {
        match self.serve(request, Shape::Uid) {
            Answer::Uid(v) => Ok(v),
            Answer::Failure(message) => Err(message),
            _ => vstd::pervasive::unreached(),
        }
    }

    /// Answers as [`react`] says.
    fn call_field(&mut self, request: Request) -> (out: core::result::Result<RawFieldData, String>)
        ensures
            final(self).log() == old(self).log().push((request@, Shape::Field)),
            (final(self).state(), field_reply(out)) == react(
                old(self).state(),
                request@,
                Shape::Field,
            ),
    {
        match self.serve(request, Shape::Field) {
            Answer::Field(v) => Ok(v),
            Answer::Failure(message) => Err(message),
            _ => vstd::pervasive::unreached(),
        }
    }

    /// Answers as [`react`] says.
    fn call_fields(&mut self, request: Request) -> (
        out: core::result::Result<Vec<RawFieldData>, String>
    )
        ensures
            final(self).log() == old(self).log().push((request@, Shape::Fields)),
            (final(self).state(), fields_reply(out)) == react(
                old(self).state(),
                request@,
                Shape::Fields,
            ),
    {
        match self.serve(request, Shape::Fields) {
            Answer::Fields(v) => Ok(v),
            Answer::Failure(message) => Err(message),
            _ => vstd::pervasive::unreached(),
        }
    }

    /// Answers as [`react`] says.
    fn call_named_fields(&mut self, request: Request) -> (
        out: core::result::Result<(Vec<String>, Vec<RawFieldData>), String>
    )
        ensures
            final(self).log() == old(self).log().push((request@, Shape::NamedFields)),
            (final(self).state(), named_fields_reply(out)) == react(
                old(self).state(),
                request@,
                Shape::NamedFields,
            ),
    {
        match self.serve(request, Shape::NamedFields) {
            Answer::NamedFields(v) => Ok(v),
            Answer::Failure(message) => Err(message),
            _ => vstd::pervasive::unreached(),
        }
    }

    /// Answers as [`react`] says.
    fn call_specs(&mut self, request: Request) -> (
        out: core::result::Result<Vec<RawFieldSpec>, String>
    )
        ensures
            final(self).log() == old(self).log().push((request@, Shape::Specs)),
            (final(self).state(), specs_reply(out)) == react(
                old(self).state(),
                request@,
                Shape::Specs,
            ),
    {
        match self.serve(request, Shape::Specs) {
            Answer::Specs(v) => Ok(v),
            Answer::Failure(message) => Err(message),
            _ => vstd::pervasive::unreached(),
        }
    }

    /// Answers as [`react`] says.
    fn call_indexes(&mut self, request: Request) -> (
        out: core::result::Result<Vec<RawIndexSpec>, String>
    )
        ensures
            final(self).log() == old(self).log().push((request@, Shape::Indexes)),
            (final(self).state(), indexes_reply(out)) == react(
                old(self).state(),
                request@,
                Shape::Indexes,
            ),
    {
        match self.serve(request, Shape::Indexes) {
            Answer::Indexes(v) => Ok(v),
            Answer::Failure(message) => Err(message),
            _ => vstd::pervasive::unreached(),
        }
    }

    /// Answers as [`react`] says.
    fn call_user(&mut self, request: Request) -> (out: core::result::Result<RawUserInfo, String>)
        ensures
            final(self).log() == old(self).log().push((request@, Shape::User)),
            (final(self).state(), user_reply(out)) == react(
                old(self).state(),
                request@,
                Shape::User,
            ),
    {
        match self.serve(request, Shape::User) {
            Answer::User(v) => Ok(v),
            Answer::Failure(message) => Err(message),
            _ => vstd::pervasive::unreached(),
        }
    }

    /// Answers as [`react`] says.
    fn call_role(&mut self, request: Request) -> (out: core::result::Result<RawRoleInfo, String>)
        ensures
            final(self).log() == old(self).log().push((request@, Shape::Role)),
            (final(self).state(), role_reply(out)) == react(
                old(self).state(),
                request@,
                Shape::Role,
            ),
    {
        match self.serve(request, Shape::Role) {
            Answer::Role(v) => Ok(v),
            Answer::Failure(message) => Err(message),
            _ => vstd::pervasive::unreached(),
        }
    }

    /// Answers as [`react`] says.
    fn call_graphs(&mut self, request: Request) -> (
        out: core::result::Result<(Vec<String>, Vec<String>, Vec<usize>), String>
    )
        ensures
            final(self).log() == old(self).log().push((request@, Shape::Graphs)),
            (final(self).state(), graphs_reply(out)) == react(
                old(self).state(),
                request@,
                Shape::Graphs,
            ),
    {
        match self.serve(request, Shape::Graphs) {
            Answer::Graphs(v) => Ok(v),
            Answer::Failure(message) => Err(message),
            _ => vstd::pervasive::unreached(),
        }
    }

    /// Answers as [`react`] says.
    fn call_users(&mut self, request: Request) -> (
        out: core::result::Result<(Vec<String>, Vec<RawUserInfo>), String>
    )
        ensures
            final(self).log() == old(self).log().push((request@, Shape::Users)),
            (final(self).state(), users_reply(out)) == react(
                old(self).state(),
                request@,
                Shape::Users,
            ),
    {
        match self.serve(request, Shape::Users) {
            Answer::Users(v) => Ok(v),
            Answer::Failure(message) => Err(message),
            _ => vstd::pervasive::unreached(),
        }
    }

    /// Answers as [`react`] says.
    fn call_roles(&mut self, request: Request) -> (
        out: core::result::Result<(Vec<String>, Vec<RawRoleInfo>), String>
    )
        ensures
            final(self).log() == old(self).log().push((request@, Shape::Roles)),
            (final(self).state(), roles_reply(out)) == react(
                old(self).state(),
                request@,
                Shape::Roles,
            ),
    {
        match self.serve(request, Shape::Roles) {
            Answer::Roles(v) => Ok(v),
            Answer::Failure(message) => Err(message),
            _ => vstd::pervasive::unreached(),
        }
    }

    /// Answers as [`react`] says.
    fn call_text_indexes(&mut self, request: Request) -> (
        out: core::result::Result<(Vec<bool>, Vec<String>, Vec<String>), String>
    )
        ensures
            final(self).log() == old(self).log().push((request@, Shape::TextIndexes)),
            (final(self).state(), text_indexes_reply(out)) == react(
                old(self).state(),
                request@,
                Shape::TextIndexes,
            ),
    {
        match self.serve(request, Shape::TextIndexes) {
            Answer::TextIndexes(v) => Ok(v),
            Answer::Failure(message) => Err(message),
            _ => vstd::pervasive::unreached(),
        }
    }

    fn call_hits(&mut self, request: Request) -> (
        out: core::result::Result<(Vec<i64>, Vec<u32>), String>
    )
        ensures
            final(self).log() == old(self).log().push((request@, Shape::Hits)),
            (final(self).state(), hits_reply(out)) == react(
                old(self).state(),
                request@,
                Shape::Hits,
            ),
    {
        match self.serve(request, Shape::Hits) {
            Answer::Hits(v) => Ok(v),
            Answer::Failure(message) => Err(message),
            _ => vstd::pervasive::unreached(),
        }
    }

    fn call_edge_hits(&mut self, request: Request) -> (
        out: core::result::Result<(Vec<RawEdgeUid>, Vec<u32>), String>
    )
        ensures
            final(self).log() == old(self).log().push((request@, Shape::EdgeHits)),
            (final(self).state(), edge_hits_reply(out)) == react(
                old(self).state(),
                request@,
                Shape::EdgeHits,
            ),
    {
        match self.serve(request, Shape::EdgeHits) {
            Answer::EdgeHits(v) => Ok(v),
            Answer::Failure(message) => Err(message),
            _ => vstd::pervasive::unreached(),
        }
    }

}

} // verus!
