//! How a cursor moves over keys.
//!
//! A cursor walks the keys of its elements in ascending order. It is at one
//! of the keys or at none. This module says, over a list of ascending keys,
//! where each move puts a cursor, and proves what follows for a walk from
//! the first key and for a seek. The engine [`crate::memory::Memory`] moves
//! its cursors so.

use vstd::prelude::*;

verus! {

/// Whether each key of `keys` is less than the next.
pub open spec fn ascending(keys: Seq<i64>) -> bool {
    forall|i: int, j: int| 0 <= i < j < keys.len() ==> keys[i] < keys[j]
}

/// The least index from `from` on whose key is greater than `k`, or the
/// length of `keys` where there is none.
pub open spec fn first_above(keys: Seq<i64>, k: int, from: int) -> int
    decreases keys.len() - from,
{
    if from < 0 || from >= keys.len() {
        keys.len() as int
    } else if keys[from] > k {
        from
    } else {
        first_above(keys, k, from + 1)
    }
}

/// The least key greater than `k`, if there is one.
pub open spec fn least_above(keys: Seq<i64>, k: int) -> Option<i64> {
    let at = first_above(keys, k, 0);
    if at < keys.len() {
        Some(keys[at])
    } else {
        None
    }
}

/// Whether a cursor at `at` is at an element: at a key that `keys` holds.
pub open spec fn valid(keys: Seq<i64>, at: Option<i64>) -> bool {
    at matches Some(k) && keys.contains(k)
}

/// Where a fresh cursor is: at the first key, or at none where there is no
/// key.
pub open spec fn first(keys: Seq<i64>) -> Option<i64> {
    if keys.len() > 0 {
        Some(keys[0])
    } else {
        None
    }
}

/// Where a step puts a cursor that is at `at`: at the next key, or at none
/// where it was at the last key or at none.
pub open spec fn advance(keys: Seq<i64>, at: Option<i64>) -> Option<i64> {
    match at {
        Some(k) => if keys.contains(k) {
            least_above(keys, k as int)
        } else {
            None
        },
        None => None,
    }
}

/// Where a seek for `k` puts a cursor: at `k` where `keys` holds it; else at
/// the least key above `k` where `nearest` is set, and at none where it is
/// not set or there is no such key.
pub open spec fn seek(keys: Seq<i64>, k: i64, nearest: bool) -> Option<i64> {
    if keys.contains(k) {
        Some(k)
    } else if nearest {
        least_above(keys, k as int)
    } else {
        None
    }
}

/// Where `steps` steps put a cursor that is at `at`.
pub open spec fn walk(keys: Seq<i64>, at: Option<i64>, steps: nat) -> Option<i64>
    decreases steps,
{
    if steps == 0 {
        at
    } else {
        walk(keys, advance(keys, at), (steps - 1) as nat)
    }
}

/// What `first_above` finds: every key before it, from `from` on, is at most
/// `k`, and the key at it is greater than `k`.
pub proof fn lemma_first_above(keys: Seq<i64>, k: int, from: int)
    requires
        0 <= from <= keys.len(),
    ensures
        from <= first_above(keys, k, from) <= keys.len(),
        forall|i: int| from <= i < first_above(keys, k, from) ==> keys[i] <= k,
        first_above(keys, k, from) < keys.len() ==> keys[first_above(keys, k, from)] > k,
    decreases keys.len() - from,
{
    if from < keys.len() && keys[from] <= k {
        lemma_first_above(keys, k, from + 1);
    }
}

/// The least key above `k` is a key above `k` that no key above `k` is
/// less than; where there is none, no key is above `k`.
pub proof fn lemma_least_above(keys: Seq<i64>, k: int)
    requires
        ascending(keys),
    ensures
        match least_above(keys, k) {
            Some(v) => keys.contains(v) && v > k && forall|i: int|
                0 <= i < keys.len() && keys[i] > k ==> v <= #[trigger] keys[i],
            None => forall|i: int| 0 <= i < keys.len() ==> #[trigger] keys[i] <= k,
        },
{
    lemma_first_above(keys, k, 0);
    let at = first_above(keys, k, 0);
    if at < keys.len() {
        assert(keys[at] == least_above(keys, k)->Some_0);
        assert forall|i: int| 0 <= i < keys.len() && keys[i] > k implies keys[at]
            <= #[trigger] keys[i] by {
            if i < at {
                assert(keys[i] <= k);
            }
        }
    }
}

/// After the key at `i` comes the key at `i + 1`, and after the last key
/// comes none.
pub proof fn lemma_next_key(keys: Seq<i64>, i: int)
    requires
        ascending(keys),
        0 <= i < keys.len(),
    ensures
        advance(keys, Some(keys[i])) == if i + 1 < keys.len() {
            Some(keys[i + 1])
        } else {
            None::<i64>
        },
{
    let k = keys[i] as int;
    lemma_first_above(keys, k, 0);
    let at = first_above(keys, k, 0);
    assert(keys.contains(keys[i]));
    if at < keys.len() {
        assert(keys[at] > k);
        if at <= i {
            if at < i {
                assert(keys[at] < keys[i]);
            }
            assert(false);
        }
        if at > i + 1 {
            assert(keys[i + 1] <= k);
            assert(keys[i] < keys[i + 1]);
            assert(false);
        }
    } else {
        if i + 1 < keys.len() {
            assert(keys[i + 1] <= k);
            assert(keys[i] < keys[i + 1]);
            assert(false);
        }
    }
}

/// A fresh cursor over one key or more is at an element. Steps take it from
/// key to key: after `i` steps it is at the key at `i`, so that it takes as
/// many steps as there are keys, and no fewer, to put it at none. A step of a
/// cursor that is at none leaves it at none.
pub proof fn law_walk(keys: Seq<i64>, i: nat)
    requires
        ascending(keys),
        keys.len() >= 1,
    ensures
        valid(keys, first(keys)),
        i < keys.len() ==> walk(keys, first(keys), i) == Some(keys[i as int]) && valid(
            keys,
            walk(keys, first(keys), i),
        ),
        i >= keys.len() ==> walk(keys, first(keys), i) == None::<i64>,
        advance(keys, None) == None::<i64>,
{
    assert(keys.contains(keys[0]));
    lemma_walk_from(keys, 0, i);
    if i < keys.len() {
        assert(keys.contains(keys[i as int]));
    }
}

/// Where `steps` steps put a cursor that is at the key at `from`.
pub proof fn lemma_walk_from(keys: Seq<i64>, from: int, steps: nat)
    requires
        ascending(keys),
        0 <= from < keys.len(),
    ensures
        walk(keys, Some(keys[from]), steps) == if from + steps < keys.len() {
            Some(keys[from + steps])
        } else {
            None::<i64>
        },
    decreases steps,
{
    if steps > 0 {
        lemma_next_key(keys, from);
        if from + 1 < keys.len() {
            lemma_walk_from(keys, from + 1, (steps - 1) as nat);
        } else {
            lemma_walk_none(keys, (steps - 1) as nat);
        }
    }
}

/// A cursor that is at none stays at none, however many steps it takes.
pub proof fn lemma_walk_none(keys: Seq<i64>, steps: nat)
    ensures
        walk(keys, None, steps) == None::<i64>,
    decreases steps,
{
    if steps > 0 {
        lemma_walk_none(keys, (steps - 1) as nat);
    }
}

/// A seek for a key that is there lands on it. A seek for a key that is not
/// there puts the cursor at none where `nearest` is not set; where it is
/// set, the cursor lands on the least key above the one sought, or is at
/// none where no key is above it.
pub proof fn law_seek(keys: Seq<i64>, k: i64, nearest: bool)
    requires
        ascending(keys),
    ensures
        keys.contains(k) ==> seek(keys, k, nearest) == Some(k),
        !keys.contains(k) && !nearest ==> seek(keys, k, nearest) == None::<i64>,
        !keys.contains(k) && nearest ==> match seek(keys, k, nearest) {
            Some(v) => keys.contains(v) && v > k && forall|i: int|
                0 <= i < keys.len() && keys[i] > k ==> v <= #[trigger] keys[i],
            None => forall|i: int| 0 <= i < keys.len() ==> #[trigger] keys[i] < k,
        },
        valid(keys, seek(keys, k, nearest)) == (seek(keys, k, nearest) is Some),
{
    lemma_least_above(keys, k as int);
    if !keys.contains(k) && nearest && seek(keys, k, nearest) is None {
        assert forall|i: int| 0 <= i < keys.len() implies #[trigger] keys[i] < k by {
            assert(keys[i] <= k);
            assert(keys.contains(keys[i]));
        }
    }
}

/// Where `k` is among ascending keys, if it is.
pub fn find(keys: &Vec<i64>, k: i64) -> (at: Option<usize>)
    ensures
        match at {
            Some(i) => i < keys@.len() && keys@[i as int] == k,
            None => !keys@.contains(k),
        },
{
    let mut i: usize = 0;
    while i < keys.len()
        invariant
            i <= keys.len(),
            forall|j: int| 0 <= j < i ==> keys@[j] != k,
        decreases keys.len() - i,
    {
        if keys[i] == k {
            return Some(i);
        }
        i = i + 1;
    }
    None
}

/// The index of the least key greater than `k`, or the number of keys where
/// there is none.
pub fn find_above(keys: &Vec<i64>, k: i64) -> (at: usize)
    ensures
        at == first_above(keys@, k as int, 0),
        at <= keys@.len(),
{
    let mut i: usize = 0;
    while i < keys.len() && keys[i] <= k
        invariant
            i <= keys.len(),
            first_above(keys@, k as int, 0) == first_above(keys@, k as int, i as int),
        decreases keys.len() - i,
    {
        i = i + 1;
    }
    i
}

/// The least key greater than `k`, if there is one.
pub fn next_above(keys: &Vec<i64>, k: i64) -> (next: Option<i64>)
    ensures
        next == least_above(keys@, k as int),
{
    let at = find_above(keys, k);
    if at < keys.len() {
        Some(keys[at])
    } else {
        None
    }
}

} // verus!
