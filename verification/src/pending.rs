//! Lists of signatures in which nothing occurs twice.
//!
//! They are lists and not hash sets: of a `HashSet<String>` vstd states
//! nothing that a proof could use, since it does not know how a `String` is
//! hashed. A list is searched from its start, so the cost of a look-up grows
//! with the number of signatures held.

use vstd::prelude::*;

verus! {

/// The signatures of `list` as sequences of characters, in the same order.
pub open spec fn texts(list: Seq<String>) -> Seq<Seq<char>> {
    Seq::new(list.len(), |i: int| list[i]@)
}

/// `list` without `sig`, the order of the others kept. Meant for a list that
/// holds `sig` once.
pub open spec fn without(list: Seq<Seq<char>>, sig: Seq<char>) -> Seq<Seq<char>> {
    list.remove(list.index_of(sig))
}

/// In a list without repetitions, a signature is found at one place only.
pub proof fn lemma_index_of_unique(list: Seq<Seq<char>>, i: int)
    requires
        list.no_duplicates(),
        0 <= i < list.len(),
    ensures
        list.index_of(list[i]) == i,
{
    let j = list.index_of(list[i]);
    assert(list.contains(list[i]));
    assert(list[j] == list[i]);
}

/// Taking a signature out of a list without repetitions leaves a list
/// without repetitions that holds the others and no longer holds it.
pub proof fn lemma_without(list: Seq<Seq<char>>, sig: Seq<char>)
    requires
        list.no_duplicates(),
        list.contains(sig),
    ensures
        without(list, sig).no_duplicates(),
        without(list, sig).len() == list.len() - 1,
        !without(list, sig).contains(sig),
        forall|other: Seq<char>|
            other != sig ==> (#[trigger] without(list, sig).contains(other) <==> list.contains(
                other,
            )),
{
    let k = list.index_of(sig);
    let rest = list.remove(k);
    assert forall|i: int, j: int| 0 <= i < rest.len() && 0 <= j < rest.len() && i != j implies rest[i]
        != rest[j] by {
        let a = if i < k { i } else { i + 1 };
        let b = if j < k { j } else { j + 1 };
        assert(rest[i] == list[a]);
        assert(rest[j] == list[b]);
    }
    if rest.contains(sig) {
        let i = choose|i: int| 0 <= i < rest.len() && rest[i] == sig;
        let a = if i < k { i } else { i + 1 };
        assert(rest[i] == list[a]);
        assert(list[a] == list[k]);
    }
    assert forall|other: Seq<char>| other != sig implies (#[trigger] rest.contains(other)
        <==> list.contains(other)) by {
        if rest.contains(other) {
            let i = choose|i: int| 0 <= i < rest.len() && rest[i] == other;
            let a = if i < k { i } else { i + 1 };
            assert(rest[i] == list[a]);
        }
        if list.contains(other) {
            let a = choose|a: int| 0 <= a < list.len() && list[a] == other;
            let i = if a < k { a } else { a - 1 };
            assert(rest[i] == list[a]);
        }
    }
}

/// Adding a signature that a list without repetitions does not hold leaves
/// it without repetitions.
pub proof fn lemma_push_new(list: Seq<Seq<char>>, sig: Seq<char>)
    requires
        list.no_duplicates(),
        !list.contains(sig),
    ensures
        list.push(sig).no_duplicates(),
        forall|other: Seq<char>| #[trigger]
            list.push(sig).contains(other) <==> (other == sig || list.contains(other)),
{
    let grown = list.push(sig);
    assert forall|i: int, j: int| 0 <= i < grown.len() && 0 <= j < grown.len() && i != j implies grown[i]
        != grown[j] by {
        if i < list.len() {
            assert(list.contains(grown[i]));
        }
        if j < list.len() {
            assert(list.contains(grown[j]));
        }
    }
    assert forall|other: Seq<char>| #[trigger]
        grown.contains(other) <==> (other == sig || list.contains(other)) by {
        if grown.contains(other) {
            let i = choose|i: int| 0 <= i < grown.len() && grown[i] == other;
            if i < list.len() {
                assert(list[i] == other);
            }
        }
        if list.contains(other) {
            let i = choose|i: int| 0 <= i < list.len() && list[i] == other;
            assert(grown[i] == other);
        }
        if other == sig {
            assert(grown[list.len() as int] == sig);
        }
    }
}

/// Where `sig` stands in `list`, if it does.
pub fn position(list: &Vec<String>, sig: &String) -> (found: Option<usize>)
    ensures
        found.is_some() <==> texts(list@).contains(sig@),
        found.is_some() ==> found.unwrap() < list.len() && list[found.unwrap() as int]@ == sig@,
{
    let mut i: usize = 0;
    while i < list.len()
        invariant
            i <= list.len(),
            forall|j: int| 0 <= j < i ==> list[j]@ != sig@,
        decreases list.len() - i,
    {
        if list[i].eq(sig) {
            assert(texts(list@)[i as int] == sig@);
            return Some(i);
        }
        i = i + 1;
    }
    assert(!texts(list@).contains(sig@)) by {
        if texts(list@).contains(sig@) {
            let j = choose|j: int| 0 <= j < texts(list@).len() && texts(list@)[j] == sig@;
            assert(list[j]@ == sig@);
        }
    }
    None
}

/// A copy of `list`, signature by signature.
pub fn copy_of(list: &Vec<String>) -> (copy: Vec<String>)
    ensures
        texts(copy@) == texts(list@),
{
    let mut copy: Vec<String> = Vec::new();
    let mut i: usize = 0;
    while i < list.len()
        invariant
            i <= list.len(),
            copy.len() == i,
            forall|j: int| 0 <= j < i ==> copy[j]@ == list[j]@,
        decreases list.len() - i,
    {
        copy.push(list[i].clone());
        i = i + 1;
    }
    assert(texts(copy@) =~= texts(list@));
    copy
}

} // verus!
