//! The order in which spellings are listed, and what a listing in that order
//! is good for: a spelling cannot stand in it twice, and the place where a
//! text would have to stand shows whether it is there.

use vstd::prelude::*;

verus! {

/// `a` comes before `b` in dictionary order, where the two agree on all
/// characters before position `from`. Characters are ordered by their code
/// points, and a text comes after each of its proper prefixes.
pub open spec fn precedes_from(a: Seq<char>, b: Seq<char>, from: int) -> bool
    decreases a.len() - from,
{
    if from < 0 || from >= b.len() {
        false
    } else if from >= a.len() {
        true
    } else if a[from] != b[from] {
        a[from] < b[from]
    } else {
        precedes_from(a, b, from + 1)
    }
}

/// `a` comes before `b` in dictionary order.
pub open spec fn precedes(a: Seq<char>, b: Seq<char>) -> bool {
    precedes_from(a, b, 0)
}

/// Each text of `texts` comes before the next one.
pub open spec fn ascending(texts: Seq<Seq<char>>) -> bool {
    forall|i: int| 0 <= i < texts.len() - 1 ==> precedes(#[trigger] texts[i], texts[i + 1])
}

/// Each of the texts at the positions from `from` up to `to`, without `to`,
/// comes before the next one. This says it position by position, in a form
/// that a given list can be held against by unfolding.
pub open spec fn ascending_between(texts: Seq<Seq<char>>, from: int, to: int) -> bool
    decreases to - from,
{
    from >= to || (precedes(texts[from], texts[from + 1]) && ascending_between(
        texts,
        from + 1,
        to,
    ))
}

/// What was said position by position holds of every position.
pub proof fn lemma_ascending_between(texts: Seq<Seq<char>>, from: int, to: int)
    requires
        ascending_between(texts, from, to),
    ensures
        forall|i: int| from <= i < to ==> precedes(#[trigger] texts[i], texts[i + 1]),
    decreases to - from,
{
    if from < to {
        lemma_ascending_between(texts, from + 1, to);
    }
}

/// No text comes before itself.
pub proof fn lemma_precedes_irreflexive(a: Seq<char>, from: int)
    ensures
        !precedes_from(a, a, from),
    decreases a.len() - from,
{
    if 0 <= from < a.len() {
        lemma_precedes_irreflexive(a, from + 1);
    }
}

/// What comes before a text also comes before all that the text comes before.
pub proof fn lemma_precedes_transitive(a: Seq<char>, b: Seq<char>, c: Seq<char>, from: int)
    requires
        precedes_from(a, b, from),
        precedes_from(b, c, from),
    ensures
        precedes_from(a, c, from),
    decreases a.len() - from,
{
    if from < a.len() && a[from] == b[from] && b[from] == c[from] {
        lemma_precedes_transitive(a, b, c, from + 1);
    }
}

/// In an ascending list, an earlier text comes before every later one.
pub proof fn lemma_ascending_orders_all(texts: Seq<Seq<char>>, i: int, j: int)
    requires
        ascending(texts),
        0 <= i < j < texts.len(),
    ensures
        precedes(texts[i], texts[j]),
    decreases j - i,
{
    if i + 1 < j {
        lemma_ascending_orders_all(texts, i + 1, j);
        lemma_precedes_transitive(texts[i], texts[i + 1], texts[j], 0);
    }
}

/// In an ascending list no text stands twice.
pub proof fn lemma_ascending_distinct(texts: Seq<Seq<char>>)
    requires
        ascending(texts),
    ensures
        forall|i: int, j: int| 0 <= i < j < texts.len() ==> texts[i] != texts[j],
{
    assert forall|i: int, j: int| 0 <= i < j < texts.len() implies texts[i] != texts[j] by {
        lemma_ascending_orders_all(texts, i, j);
        lemma_precedes_irreflexive(texts[i], 0);
    }
}

/// A text that comes before the first of an ascending list is not in it.
pub proof fn lemma_ascending_excludes_before(texts: Seq<Seq<char>>, text: Seq<char>)
    requires
        ascending(texts),
        texts.len() > 0,
        precedes(text, texts[0]),
    ensures
        forall|i: int| 0 <= i < texts.len() ==> texts[i] != text,
{
    assert forall|i: int| 0 <= i < texts.len() implies texts[i] != text by {
        if i > 0 {
            lemma_ascending_orders_all(texts, 0, i);
            lemma_precedes_transitive(text, texts[0], texts[i], 0);
        }
        lemma_precedes_irreflexive(text, 0);
    }
}

/// A text that comes after the last of an ascending list is not in it.
pub proof fn lemma_ascending_excludes_after(texts: Seq<Seq<char>>, text: Seq<char>)
    requires
        ascending(texts),
        texts.len() > 0,
        precedes(texts[texts.len() - 1], text),
    ensures
        forall|i: int| 0 <= i < texts.len() ==> texts[i] != text,
{
    let last = texts.len() - 1;
    assert forall|i: int| 0 <= i < texts.len() implies texts[i] != text by {
        if i < last {
            lemma_ascending_orders_all(texts, i, last);
            lemma_precedes_transitive(texts[i], texts[last], text, 0);
        }
        lemma_precedes_irreflexive(text, 0);
    }
}

/// A text that comes between two neighbours of an ascending list is not in
/// it.
pub proof fn lemma_ascending_excludes_between(texts: Seq<Seq<char>>, at: int, text: Seq<char>)
    requires
        ascending(texts),
        0 <= at < texts.len() - 1,
        precedes(texts[at], text),
        precedes(text, texts[at + 1]),
    ensures
        forall|i: int| 0 <= i < texts.len() ==> texts[i] != text,
{
    assert forall|i: int| 0 <= i < texts.len() implies texts[i] != text by {
        if i < at {
            lemma_ascending_orders_all(texts, i, at);
            lemma_precedes_transitive(texts[i], texts[at], text, 0);
        } else if i > at + 1 {
            lemma_ascending_orders_all(texts, at + 1, i);
            lemma_precedes_transitive(text, texts[at + 1], texts[i], 0);
        }
        lemma_precedes_irreflexive(text, 0);
    }
}

} // verus!
