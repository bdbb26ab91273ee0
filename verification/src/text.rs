//! Texts that cross the engine boundary.
//!
//! The engine takes every text as a NUL-terminated string, so a text that is
//! handed to it must hold no NUL character itself.

use vstd::prelude::*;

verus! {

/// Whether `s` can be handed to the engine: it holds no NUL character.
pub open spec fn c_safe(s: Seq<char>) -> bool {
    forall|i: int| 0 <= i < s.len() ==> s[i] != '\0'
}

/// Whether every text of `v` can be handed to the engine.
pub open spec fn all_c_safe(v: Seq<Seq<char>>) -> bool {
    forall|i: int| 0 <= i < v.len() ==> c_safe(#[trigger] v[i])
}

/// The texts that a list of string slices holds.
pub open spec fn texts_of(names: Seq<&str>) -> Seq<Seq<char>> {
    Seq::new(names.len(), |i: int| names[i]@)
}

/// Whether two string slices hold the same text.
pub fn same_text(a: &str, b: &str) -> (same: bool)
    ensures
        same == (a@ == b@),
{
    let x = a.to_owned();
    let y = b.to_owned();
    x == y
}

/// Whether `s` can be handed to the engine.
pub fn is_c_safe(s: &str) -> (safe: bool)
    ensures
        safe == c_safe(s@),
{
    let n = s.unicode_len();
    let mut i: usize = 0;
    while i < n
        invariant
            n == s@.len(),
            i <= n,
            forall|j: int| 0 <= j < i ==> s@[j] != '\0',
        decreases n - i,
    {
        if s.get_char(i) == '\0' {
            return false;
        }
        i = i + 1;
    }
    true
}

/// Owned copies of `names`, in order.
pub fn owned_texts(names: &[&str]) -> (v: Vec<String>)
    ensures
        v.deep_view() == texts_of(names@),
{
    let mut v: Vec<String> = Vec::new();
    let mut i: usize = 0;
    while i < names.len()
        invariant
            i <= names.len(),
            v.len() == i,
            forall|j: int| 0 <= j < i ==> v@[j]@ == names@[j]@,
        decreases names.len() - i,
    {
        v.push(names[i].to_owned());
        i = i + 1;
    }
    assert(v.deep_view() =~= texts_of(names@));
    v
}

/// Copies of `texts`, in order.
pub fn copy_texts(texts: &Vec<String>) -> (v: Vec<String>)
    ensures
        v.deep_view() == texts.deep_view(),
{
    let mut v: Vec<String> = Vec::new();
    let mut i: usize = 0;
    while i < texts.len()
        invariant
            i <= texts.len(),
            v.len() == i,
            forall|j: int| 0 <= j < i ==> v@[j]@ == texts@[j]@,
        decreases texts.len() - i,
    {
        v.push(texts[i].clone());
        i = i + 1;
    }
    assert(v.deep_view() =~= texts.deep_view());
    v
}

/// Whether the engine can take every text of `names`.
pub fn are_c_safe(names: &[&str]) -> (safe: bool)
    ensures
        safe == all_c_safe(texts_of(names@)),
{
    let mut i: usize = 0;
    while i < names.len()
        invariant
            i <= names.len(),
            forall|j: int| 0 <= j < i ==> c_safe(#[trigger] texts_of(names@)[j]),
        decreases names.len() - i,
    {
        if !is_c_safe(names[i]) {
            assert(!c_safe(texts_of(names@)[i as int]));
            return false;
        }
        i = i + 1;
    }
    true
}

} // verus!
