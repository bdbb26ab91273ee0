//! Tables keyed by name.
//!
//! The engine hands a table out as parallel columns: one of names and one or
//! more of what belongs to each name. Where a name comes twice, the later
//! row stands for it. So of a column of names only the last occurrence of
//! each name counts; the rows that count are taken in the order in which
//! they stand.

use vstd::prelude::*;

verus! {

/// Whether the name at `i` comes no more among the first `n` names after
/// `i`.
pub open spec fn is_last(names: Seq<Seq<char>>, n: int, i: int) -> bool {
    &&& 0 <= i < n
    &&& forall|j: int| i < j < n ==> names[j] != names[i]
}

/// Whether `rows` lists the rows that count among the first `n` names: the
/// last occurrence of each name, and no other row, in ascending order.
pub open spec fn selects(rows: Seq<usize>, names: Seq<Seq<char>>, n: int) -> bool {
    &&& forall|k: int| 0 <= k < rows.len() ==> is_last(names, n, #[trigger] rows[k] as int)
    &&& forall|k: int, l: int| 0 <= k < l < rows.len() ==> rows[k] < rows[l]
    &&& forall|i: int| is_last(names, n, i) ==> exists|k: int|
        0 <= k < rows.len() && #[trigger] rows[k] == i
}

/// Whether one of `rows` is a row named `name`.
pub open spec fn has_row(rows: Seq<usize>, names: Seq<Seq<char>>, name: Seq<char>) -> bool {
    exists|k: int| 0 <= k < rows.len() && names[#[trigger] rows[k] as int] == name
}

/// The number of rows that parallel columns of these two lengths make.
pub open spec fn shorter(a: int, b: int) -> int {
    if a <= b {
        a
    } else {
        b
    }
}

/// The rows that count have distinct names, and every name has a row.
pub proof fn law_selected(rows: Seq<usize>, names: Seq<Seq<char>>, n: int)
    requires
        selects(rows, names, n),
        n <= names.len(),
    ensures
        forall|k: int, l: int|
            0 <= k < l < rows.len() ==> names[rows[k] as int] != names[rows[l] as int],
        forall|i: int|
            0 <= i < n ==> has_row(rows, names, #[trigger] names[i]),
{
    assert forall|k: int, l: int| 0 <= k < l < rows.len() implies names[rows[k] as int]
        != names[rows[l] as int] by {
        assert(is_last(names, n, rows[k] as int));
        assert(is_last(names, n, rows[l] as int));
        assert(rows[k] < rows[l]);
    }
    assert forall|i: int| 0 <= i < n implies has_row(rows, names, #[trigger] names[i]) by {
        lemma_has_last(names, n, i);
        let j = choose|j: int| is_last(names, n, j) && names[j] == names[i];
        let k = choose|k: int| 0 <= k < rows.len() && #[trigger] rows[k] == j;
        assert(names[rows[k] as int] == names[i]);
    }
}

/// Every name among the first `n` has a last occurrence.
pub proof fn lemma_has_last(names: Seq<Seq<char>>, n: int, i: int)
    requires
        0 <= i < n <= names.len(),
    ensures
        exists|j: int| is_last(names, n, j) && names[j] == names[i],
    decreases n - i,
{
    if is_last(names, n, i) {
        assert(is_last(names, n, i) && names[i] == names[i]);
    } else {
        let j = choose|j: int| i < j < n && names[j] == names[i];
        lemma_has_last(names, n, j);
        let l = choose|l: int| is_last(names, n, l) && names[l] == names[j];
        assert(is_last(names, n, l) && names[l] == names[i]);
    }
}

/// Whether the name at `i` comes again among the first `n` names after `i`.
fn comes_again(names: &Vec<String>, n: usize, i: usize) -> (again: bool)
    requires
        i < n <= names.len(),
    ensures
        again == !is_last(names.deep_view(), n as int, i as int),
{
    let mut j: usize = i + 1;
    while j < n
        invariant
            i < j <= n <= names.len(),
            forall|k: int| i < k < j ==> names.deep_view()[k] != names.deep_view()[i as int],
        decreases n - j,
    {
        if names[j] == names[i] {
            assert(names.deep_view()[j as int] == names.deep_view()[i as int]);
            return true;
        }
        j = j + 1;
    }
    false
}

/// The rows that count among the first `n` names.
pub fn last_occurrences(names: &Vec<String>, n: usize) -> (rows: Vec<usize>)
    requires
        n <= names.len(),
    ensures
        selects(rows@, names.deep_view(), n as int),
        rows@.len() <= n,
        forall|k: int| 0 <= k < rows@.len() ==> #[trigger] rows@[k] < n,
{
    let ghost all = names.deep_view();
    let mut rows: Vec<usize> = Vec::new();
    let mut i: usize = 0;
    while i < n
        invariant
            i <= n <= names.len(),
            all == names.deep_view(),
            rows@.len() <= i,
            forall|k: int| 0 <= k < rows@.len() ==> #[trigger] rows@[k] < i,
            forall|k: int| 0 <= k < rows@.len() ==> is_last(
                all,
                n as int,
                #[trigger] rows@[k] as int,
            ),
            forall|k: int, l: int| 0 <= k < l < rows@.len() ==> rows@[k] < rows@[l],
            forall|m: int|
                0 <= m < i && is_last(all, n as int, m) ==> exists|k: int|
                    0 <= k < rows@.len() && #[trigger] rows@[k] == m,
        decreases n - i,
    {
        let ghost before = rows@;
        if !comes_again(names, n, i) {
            rows.push(i);
            assert(rows@[before.len() as int] == i);
        }
        proof {
            assert forall|m: int| 0 <= m < i + 1 && is_last(all, n as int, m) implies exists|k: int|
                0 <= k < rows@.len() && #[trigger] rows@[k] == m by {
                if m < i {
                    let k = choose|k: int| 0 <= k < before.len() && #[trigger] before[k] == m;
                    assert(rows@[k] == m);
                } else {
                    assert(rows@[before.len() as int] == m);
                }
            }
        }
        i = i + 1;
    }
    rows
}

} // verus!
