//! The order of texts: character by character, a shorter text before
//! every text that it begins.

use vstd::prelude::*;
use crate::text::{chars_of, views};

verus! {

/// Whether `a` comes before `b`, both taken from place `i` on.
pub open spec fn precedes_from(a: Seq<char>, b: Seq<char>, i: int) -> bool
    decreases a.len() - i,
{
    if i >= b.len() {
        false
    } else if i >= a.len() {
        true
    } else if a[i] != b[i] {
        a[i] < b[i]
    } else {
        precedes_from(a, b, i + 1)
    }
}

/// Whether `a` comes before `b`.
pub open spec fn precedes(a: Seq<char>, b: Seq<char>) -> bool {
    precedes_from(a, b, 0)
}

/// Whether each text comes before all that follow it.
pub open spec fn ascending(texts: Seq<Seq<char>>) -> bool {
    forall|i: int, j: int| 0 <= i < j < texts.len() ==> precedes(texts[i], texts[j])
}

/// What comes before something that comes before a third text comes
/// before the third.
pub proof fn lemma_precedes_transitive(a: Seq<char>, b: Seq<char>, c: Seq<char>, i: int)
    requires
        0 <= i,
        precedes_from(a, b, i),
        precedes_from(b, c, i),
    ensures
        precedes_from(a, c, i),
    decreases a.len() - i,
{
    if i < a.len() && a[i] == b[i] && b[i] == c[i] {
        lemma_precedes_transitive(a, b, c, i + 1);
    }
}

/// No text comes before itself.
pub proof fn lemma_precedes_irreflexive(a: Seq<char>, i: int)
    requires
        0 <= i,
    ensures
        !precedes_from(a, a, i),
    decreases a.len() - i,
{
    if i < a.len() {
        lemma_precedes_irreflexive(a, i + 1);
    }
}

/// No text occurs twice in an ascending list.
pub proof fn lemma_ascending_is_distinct(texts: Seq<Seq<char>>)
    requires
        ascending(texts),
    ensures
        texts.no_duplicates(),
{
    assert forall|i: int, j: int| 0 <= i < texts.len() && 0 <= j < texts.len() && i != j implies texts[i]
        != texts[j] by {
        lemma_precedes_irreflexive(texts[i], 0);
        if i < j {
            assert(precedes(texts[i], texts[j]));
        } else {
            assert(precedes(texts[j], texts[i]));
        }
    }
}

/// How one text stands to another.
#[derive(Debug, Clone, Copy, PartialEq, Eq, Structural)]
pub enum Rank {
    Before,
    Same,
    After,
}

/// How `a` stands to `b`.
pub fn rank_chars(a: &Vec<char>, b: &Vec<char>) -> (r: Rank)
    ensures
        match r {
            Rank::Before => precedes(a@, b@),
            Rank::Same => a@ == b@,
            Rank::After => precedes(b@, a@),
        },
{
    let mut i: usize = 0;
    while i < a.len() && i < b.len()
        invariant
            0 <= i <= a@.len(),
            i <= b@.len(),
            forall|k: int| 0 <= k < i ==> a@[k] == b@[k],
            precedes_from(a@, b@, i as int) == precedes(a@, b@),
            precedes_from(b@, a@, i as int) == precedes(b@, a@),
        decreases a@.len() - i,
    {
        let x = a[i];
        let y = b[i];
        if x < y {
            return Rank::Before;
        }
        if y < x {
            return Rank::After;
        }
        assert(precedes_from(a@, b@, i as int) == precedes_from(a@, b@, i + 1));
        assert(precedes_from(b@, a@, i as int) == precedes_from(b@, a@, i + 1));
        i += 1;
    }
    if i < b.len() {
        Rank::Before
    } else if i < a.len() {
        Rank::After
    } else {
        assert(a@ =~= b@);
        Rank::Same
    }
}

/// How `a` stands to `b`.
pub fn rank_texts(a: &str, b: &str) -> (r: Rank)
    ensures
        match r {
            Rank::Before => precedes(a@, b@),
            Rank::Same => a@ == b@,
            Rank::After => precedes(b@, a@),
        },
{
    let x = chars_of(a);
    let y = chars_of(b);
    rank_chars(&x, &y)
}

/// Puts `item` into an ascending list at its place, unless the list
/// holds it already.
pub fn insert_ascending(list: &mut Vec<String>, item: String)
    requires
        ascending(views(old(list)@)),
    ensures
        ascending(views(final(list)@)),
        views(final(list)@).to_set() == views(old(list)@).to_set().insert(item@),
{
    let ghost before = views(list@);
    let mut at: usize = 0;
    let mut found = false;
    while at < list.len() && !found
        invariant
            0 <= at <= list@.len(),
            views(list@) == before,
            ascending(before),
            forall|k: int| 0 <= k < at ==> precedes(#[trigger] before[k], item@),
            found ==> at < list@.len() && precedes(item@, before[at as int]),
        decreases list@.len() - at + if found { 0int } else { 1int },
    {
        assert(before[at as int] == list@[at as int]@);
        match rank_texts(list[at].as_str(), item.as_str()) {
            Rank::Before => {
                at += 1;
            },
            Rank::Same => {
                assert(before.to_set().insert(item@) =~= before.to_set());
                return ;
            },
            Rank::After => {
                found = true;
            },
        }
    }
    list.insert(at, item);
    proof {
        let after = views(list@);
        assert(after =~= before.insert(at as int, item@));
        assert forall|i: int, j: int| 0 <= i < j < after.len() implies precedes(
            after[i],
            after[j],
        ) by {
            if i == at {
                assert(after[j] == before[j - 1]);
                assert(found);
                if j - 1 > at {
                    assert(precedes(before[at as int], before[j - 1]));
                    lemma_precedes_transitive(item@, before[at as int], before[j - 1], 0);
                }
            } else if j == at {
                assert(after[i] == before[i]);
            } else if i < at && j > at {
                assert(after[i] == before[i]);
                assert(after[j] == before[j - 1]);
            } else if i > at {
                assert(after[i] == before[i - 1]);
                assert(after[j] == before[j - 1]);
            } else {
                assert(after[i] == before[i]);
                assert(after[j] == before[j]);
            }
        }
        assert forall|t: Seq<char>| after.to_set().contains(t) <==> before.to_set().insert(
            item@,
        ).contains(t) by {
            if after.contains(t) {
                let k = choose|k: int| 0 <= k < after.len() && after[k] == t;
                if k < at {
                    assert(before[k] == t);
                } else if k > at {
                    assert(before[k - 1] == t);
                }
            }
            if before.contains(t) {
                let k = choose|k: int| 0 <= k < before.len() && before[k] == t;
                if k < at {
                    assert(after[k] == t);
                } else {
                    assert(after[k + 1] == t);
                }
            }
            if t == item@ {
                assert(after[at as int] == t);
            }
        }
        assert(after.to_set() =~= before.to_set().insert(item@));
    }
}

/// The texts of `source` in ascending order, each once.
pub fn sorted_once(source: &Vec<String>) -> (out: Vec<String>)
    ensures
        ascending(views(out@)),
        views(out@).no_duplicates(),
        views(out@).to_set() == views(source@).to_set(),
{
    let mut out: Vec<String> = Vec::new();
    let mut i: usize = 0;
    assert(views(out@).to_set() =~= views(source@).take(0).to_set());
    while i < source.len()
        invariant
            0 <= i <= source@.len(),
            ascending(views(out@)),
            views(out@).to_set() == views(source@).take(i as int).to_set(),
        decreases source@.len() - i,
    {
        let item = source[i].clone();
        proof {
            let all = views(source@);
            assert(all[i as int] == item@);
            assert(all.take(i + 1) =~= all.take(i as int).push(item@));
            all.take(i as int).lemma_push_to_set_commute(item@);
        }
        insert_ascending(&mut out, item);
        i += 1;
    }
    proof {
        assert(views(source@).take(source@.len() as int) =~= views(source@));
        lemma_ascending_is_distinct(views(out@));
    }
    out
}

} // verus!
