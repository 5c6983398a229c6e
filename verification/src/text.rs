//! Operations on text, stated over sequences of characters.

use vstd::prelude::*;

verus! {

/// `pattern` stands in `text` at position `at`.
pub open spec fn occurs_at(text: Seq<char>, pattern: Seq<char>, at: int) -> bool {
    &&& 0 <= at
    &&& at + pattern.len() <= text.len()
    &&& text.subrange(at, at + pattern.len()) == pattern
}

/// `pattern` stands somewhere in `text`.
pub open spec fn occurs_in(text: Seq<char>, pattern: Seq<char>) -> bool {
    exists|at: int| occurs_at(text, pattern, at)
}

/// `text` with every occurrence of `from` replaced by `to`. Occurrences are
/// taken from left to right, and the search goes on behind each one that was
/// replaced. An empty `from` occurs nowhere.
pub open spec fn replaced(text: Seq<char>, from: Seq<char>, to: Seq<char>) -> Seq<char>
    decreases text.len(),
{
    if from.len() == 0 || text.len() == 0 {
        text
    } else if occurs_at(text, from, 0) {
        to + replaced(text.skip(from.len() as int), from, to)
    } else {
        seq![text[0]] + replaced(text.skip(1), from, to)
    }
}

/// Text shorter than the pattern is left as it is.
pub proof fn lemma_replaced_short(text: Seq<char>, from: Seq<char>, to: Seq<char>)
    requires
        text.len() < from.len(),
    ensures
        replaced(text, from, to) == text,
    decreases text.len(),
{
    if text.len() > 0 {
        lemma_replaced_short(text.skip(1), from, to);
    }
}

/// Replacing `from` by `to` cannot bring `from` about anew. That is so
/// where both begin with the same character, which stands nowhere else in
/// either of them, and they differ in the character after it.
pub open spec fn replaces_for_good(from: Seq<char>, to: Seq<char>) -> bool {
    &&& from.len() >= 2
    &&& to.len() >= 2
    &&& to[0] == from[0]
    &&& to[1] != from[1]
    &&& forall|k: int| 1 <= k < from.len() ==> #[trigger] from[k] != from[0]
    &&& forall|k: int| 1 <= k < to.len() ==> #[trigger] to[k] != from[0]
}

/// As far as the result of a replacement is free of the first character of
/// `from`, it is the text as it was.
pub proof fn lemma_replaced_keeps_start(
    text: Seq<char>,
    from: Seq<char>,
    to: Seq<char>,
    upto: int,
)
    requires
        replaces_for_good(from, to),
        0 <= upto <= replaced(text, from, to).len(),
        forall|i: int| 0 <= i < upto ==> replaced(text, from, to)[i] != from[0],
    ensures
        upto <= text.len(),
        forall|i: int| 0 <= i < upto ==> text[i] == replaced(text, from, to)[i],
    decreases text.len(),
{
    let result = replaced(text, from, to);
    if upto > 0 {
        assert(result[0] != from[0]);
        let rest = replaced(text.skip(1), from, to);
        assert forall|i: int| 0 <= i < upto - 1 implies rest[i] != from[0] by {
            assert(rest[i] == result[i + 1]);
        }
        lemma_replaced_keeps_start(text.skip(1), from, to, upto - 1);
        assert forall|i: int| 0 <= i < upto implies text[i] == result[i] by {
            if i > 0 {
                assert(text.skip(1)[i - 1] == rest[i - 1]);
            }
        }
    }
}

/// After a replacement for good, `from` stands nowhere in the result.
pub proof fn lemma_replaced_is_free(text: Seq<char>, from: Seq<char>, to: Seq<char>, at: int)
    requires
        replaces_for_good(from, to),
    ensures
        !occurs_at(replaced(text, from, to), from, at),
    decreases text.len(),
{
    let result = replaced(text, from, to);
    let m = from.len() as int;
    if occurs_at(result, from, at) {
        let found = result.subrange(at, at + m);
        if text.len() == 0 {
            // Nothing stands in an empty result.
        } else if occurs_at(text, from, 0) {
            // The result begins with `to`. In `to` itself `from` cannot begin:
            // not at its start, where the second character differs, and not
            // later, where the first character of `from` does not stand.
            let rest = replaced(text.skip(m), from, to);
            if at >= to.len() {
                lemma_replaced_is_free(text.skip(m), from, to, at - to.len());
                assert(rest.subrange(at - to.len(), at - to.len() + m) =~= found);
            }
        } else {
            // The result begins with the first character of the text.
            let rest = replaced(text.skip(1), from, to);
            if at >= 1 {
                lemma_replaced_is_free(text.skip(1), from, to, at - 1);
                assert(rest.subrange(at - 1, at - 1 + m) =~= found);
            } else {
                // Were `from` to stand at the start of the result, it would
                // have stood at the start of the text.
                assert forall|i: int| 0 <= i < m - 1 implies rest[i] != from[0] by {
                    assert(rest[i] == found[i + 1]);
                }
                lemma_replaced_keeps_start(text.skip(1), from, to, m - 1);
                assert(text.subrange(0, m) =~= from) by {
                    assert forall|i: int| 0 <= i < m implies text[i] == from[i] by {
                        if i > 0 {
                            assert(text.skip(1)[i - 1] == rest[i - 1]);
                        }
                    }
                }
            }
        }
    }
}

/// A text that is free of `pattern` stays so with something put before it
/// that is free of the first character of `pattern`.
pub proof fn lemma_free_behind(before: Seq<char>, text: Seq<char>, pattern: Seq<char>)
    requires
        pattern.len() > 0,
        forall|i: int| 0 <= i < before.len() ==> before[i] != pattern[0],
        !occurs_in(text, pattern),
    ensures
        !occurs_in(before + text, pattern),
{
    let whole = before + text;
    let m = pattern.len() as int;
    assert forall|at: int| !occurs_at(whole, pattern, at) by {
        if occurs_at(whole, pattern, at) {
            let found = whole.subrange(at, at + m);
            assert(found[0] == pattern[0]);
            assert(text.subrange(at - before.len(), at - before.len() + m) =~= found);
            assert(occurs_at(text, pattern, at - before.len()));
        }
    }
}

/// Whether `a` and `b` hold the same characters.
pub fn same_text(a: &str, b: &str) -> (same: bool)
    ensures
        same == (a@ == b@),
{
    let x = a.as_bytes();
    let y = b.as_bytes();
    proof {
        // The encoding can be undone, so equal bytes come from equal characters.
        vstd::utf8::encode_utf8_decode_utf8(a@);
        vstd::utf8::encode_utf8_decode_utf8(b@);
    }
    if x.len() != y.len() {
        return false;
    }
    let mut i: usize = 0;
    while i < x.len()
        invariant
            i <= x.len(),
            x.len() == y.len(),
            x@ == vstd::utf8::encode_utf8(a@),
            y@ == vstd::utf8::encode_utf8(b@),
            forall|k: int| 0 <= k < i ==> x@[k] == y@[k],
        decreases x.len() - i,
    {
        if x[i] != y[i] {
            return false;
        }
        i += 1;
    }
    assert(x@ =~= y@);
    true
}

/// A copy of `text` in which every occurrence of `from` is replaced by `to`.
///
/// The time taken grows with the square of the length of `text`.
pub fn replace_all(text: &str, from: &str, to: &str) -> (out: String)
    ensures
        out@ == replaced(text@, from@, to@),
{
    let n = text.unicode_len();
    let m = from.unicode_len();
    if m == 0 {
        return String::from_str(text);
    }
    let mut out = String::new();
    let mut i: usize = 0;
    assert(text@.skip(0) =~= text@);
    while m <= n - i
        invariant
            i <= n,
            n == text@.len(),
            m == from@.len(),
            m > 0,
            replaced(text@, from@, to@) == out@ + replaced(text@.skip(i as int), from@, to@),
        decreases n - i,
    {
        let ghost rest = text@.skip(i as int);
        let window = text.substring_char(i, i + m);
        assert(window@ =~= rest.subrange(0, m as int));
        if same_text(window, from) {
            out.append(to);
            assert(rest.skip(m as int) =~= text@.skip(i + m));
            i = i + m;
        } else {
            out.append(text.substring_char(i, i + 1));
            assert(rest.skip(1) =~= text@.skip(i + 1));
            i = i + 1;
        }
    }
    out.append(text.substring_char(i, n));
    proof {
        lemma_replaced_short(text@.skip(i as int), from@, to@);
    }
    out
}

} // verus!
