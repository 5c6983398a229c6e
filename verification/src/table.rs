//! A table from C type spellings to the types of the generated code.

use crate::text::same_text;
use vstd::prelude::*;

verus! {

/// One line of a table: a C type as a registry spells it, and the type that
/// the generated code uses for it.
pub type Entry = (&'static str, &'static str);

/// A lookup found no entry for `spelling`.
#[derive(Clone, Debug, PartialEq, Eq)]
pub struct UnresolvedType {
    /// The spelling that was looked up, as it was given.
    pub spelling: String,
}

impl UnresolvedType {
    /// The complaint to show to whoever keeps the table: it quotes the
    /// spelling, so that an entry for it can be added.
    pub fn message(&self) -> (text: String)
        ensures
            text@ == "Type conversion not implemented for `"@ + self.spelling@ + "`"@,
    {
        let mut text = String::from_str("Type conversion not implemented for `");
        text.append(self.spelling.as_str());
        text.append("`");
        text
    }
}

/// A list of entries holds one spelling twice.
#[derive(Clone, Debug, PartialEq, Eq)]
pub struct DuplicateSpelling {
    /// The spelling that stands in the list more than once.
    pub spelling: String,
    /// The position of the first entry that repeats the spelling of an
    /// earlier one.
    pub position: usize,
}

/// A table from spellings to targets in which each spelling stands once.
#[derive(Debug)]
pub struct TypeTable {
    entries: Vec<Entry>,
}

/// The entries as pairs of texts: the spelling, then the target.
pub open spec fn pairs_of(entries: Seq<Entry>) -> Seq<(Seq<char>, Seq<char>)> {
    Seq::new(entries.len(), |i: int| (entries[i].0@, entries[i].1@))
}

/// The entry at position `at` is one for `spelling`.
pub open spec fn listed_at(
    pairs: Seq<(Seq<char>, Seq<char>)>,
    spelling: Seq<char>,
    at: int,
) -> bool {
    0 <= at < pairs.len() && pairs[at].0 == spelling
}

/// The entry at position `at` has the spelling of an entry before it.
pub open spec fn repeats_at(pairs: Seq<(Seq<char>, Seq<char>)>, at: int) -> bool {
    exists|before: int| 0 <= before < at && #[trigger] listed_at(pairs, pairs[at].0, before)
}

/// No position up to `end` repeats an earlier spelling.
pub open spec fn distinct_before(pairs: Seq<(Seq<char>, Seq<char>)>, end: int) -> bool {
    forall|at: int| 0 <= at < end && at < pairs.len() ==> !repeats_at(pairs, at)
}

/// No spelling stands in the list twice.
pub open spec fn distinct_spellings(pairs: Seq<(Seq<char>, Seq<char>)>) -> bool {
    distinct_before(pairs, pairs.len() as int)
}

/// The mapping that a list of entries describes: its domain is the spellings
/// listed, and each is mapped to the target listed with it. Where a spelling
/// is listed once, that leaves no choice.
pub open spec fn table_of(pairs: Seq<(Seq<char>, Seq<char>)>) -> Map<Seq<char>, Seq<char>> {
    Map::new(
        |spelling: Seq<char>| exists|at: int| listed_at(pairs, spelling, at),
        |spelling: Seq<char>| pairs[choose|at: int| listed_at(pairs, spelling, at)].1,
    )
}

/// Each entry of a list without repeated spellings is found in the mapping
/// that the list describes.
pub proof fn lemma_entry_in_table(pairs: Seq<(Seq<char>, Seq<char>)>, at: int)
    requires
        distinct_spellings(pairs),
        0 <= at < pairs.len(),
    ensures
        table_of(pairs).contains_key(pairs[at].0),
        table_of(pairs)[pairs[at].0] == pairs[at].1,
{
    let spelling = pairs[at].0;
    assert(listed_at(pairs, spelling, at));
    let found = choose|i: int| listed_at(pairs, spelling, i);
    if found < at {
        assert(repeats_at(pairs, at));
    } else if at < found {
        assert(repeats_at(pairs, found));
    }
}

/// A spelling that no entry holds is not in the mapping.
pub proof fn lemma_unlisted_not_in_table(pairs: Seq<(Seq<char>, Seq<char>)>, spelling: Seq<char>)
    requires
        forall|at: int| 0 <= at < pairs.len() ==> pairs[at].0 != spelling,
    ensures
        !table_of(pairs).contains_key(spelling),
{
    assert forall|at: int| !listed_at(pairs, spelling, at) by {}
}

/// `found` is what a lookup of `spelling` in `table` gives: the target, or
/// for a spelling that the table does not hold an error that names it.
pub open spec fn is_lookup_of(
    table: Map<Seq<char>, Seq<char>>,
    spelling: Seq<char>,
    found: Result<&'static str, UnresolvedType>,
) -> bool {
    match found {
        Ok(target) => table.contains_key(spelling) && target@ == table[spelling],
        Err(unresolved) => !table.contains_key(spelling) && unresolved.spelling@ == spelling,
    }
}

/// A lookup is a function of the table and of the characters of the
/// spelling: whatever two lookups of one spelling give, they give the same.
pub proof fn lemma_lookup_is_a_function(
    table: Map<Seq<char>, Seq<char>>,
    spelling: Seq<char>,
    one: Result<&'static str, UnresolvedType>,
    other: Result<&'static str, UnresolvedType>,
)
    requires
        is_lookup_of(table, spelling, one),
        is_lookup_of(table, spelling, other),
    ensures
        one is Ok <==> other is Ok,
        one is Ok ==> one->Ok_0@ == other->Ok_0@,
        one is Err ==> one->Err_0.spelling@ == other->Err_0.spelling@,
{
}

impl View for TypeTable {
    type V = Map<Seq<char>, Seq<char>>;

    /// The mapping from each spelling of the table to its target.
    closed spec fn view(&self) -> Map<Seq<char>, Seq<char>> {
        table_of(pairs_of(self.entries@))
    }
}

impl TypeTable {
    #[verifier::type_invariant]
    spec fn each_spelling_once(self) -> bool {
        distinct_spellings(pairs_of(self.entries@))
    }

    /// Makes a table of `entries`, unless a spelling stands twice among them.
    ///
    /// A repeated spelling is refused whatever its targets are: the list is
    /// never searched for the entry that was meant.
    pub fn build(entries: Vec<Entry>) -> (made: Result<TypeTable, DuplicateSpelling>)
        ensures
            made is Ok <==> distinct_spellings(pairs_of(entries@)),
            match made {
                Ok(table) => table@ == table_of(pairs_of(entries@)),
                Err(duplicate) => {
                    &&& duplicate.position < entries@.len()
                    &&& repeats_at(pairs_of(entries@), duplicate.position as int)
                    &&& distinct_before(pairs_of(entries@), duplicate.position as int)
                    &&& duplicate.spelling@ == entries@[duplicate.position as int].0@
                },
            },
    {
        let ghost pairs = pairs_of(entries@);
        let mut at: usize = 0;
        while at < entries.len()
            invariant
                at <= entries.len(),
                pairs == pairs_of(entries@),
                distinct_before(pairs, at as int),
            decreases entries.len() - at,
        {
            let mut before: usize = 0;
            while before < at
                invariant
                    before <= at < entries.len(),
                    pairs == pairs_of(entries@),
                    distinct_before(pairs, at as int),
                    forall|i: int| 0 <= i < before ==> !listed_at(pairs, pairs[at as int].0, i),
                decreases at - before,
            {
                if same_text(entries[before].0, entries[at].0) {
                    assert(listed_at(pairs, pairs[at as int].0, before as int));
                    assert(repeats_at(pairs, at as int));
                    let spelling = String::from_str(entries[at].0);
                    return Err(DuplicateSpelling { spelling, position: at });
                }
                before += 1;
            }
            at += 1;
        }
        Ok(TypeTable { entries })
    }

    /// A table of entries that are known to differ in their spellings.
    pub(crate) fn from_distinct(entries: Vec<Entry>) -> (table: TypeTable)
        requires
            distinct_spellings(pairs_of(entries@)),
        ensures
            table@ == table_of(pairs_of(entries@)),
    {
        TypeTable { entries }
    }

    /// The target of `spelling`.
    ///
    /// The spelling is looked up as it stands, character by character:
    /// an entry for one spelling says nothing of another that differs from it
    /// by a blank, a qualifier or a level of indirection.
    pub fn map_type(&self, spelling: &str) -> (found: Result<&'static str, UnresolvedType>)
        ensures
            is_lookup_of(self@, spelling@, found),
    {
        proof {
            use_type_invariant(self);
        }
        let ghost pairs = pairs_of(self.entries@);
        let mut at: usize = 0;
        while at < self.entries.len()
            invariant
                at <= self.entries.len(),
                pairs == pairs_of(self.entries@),
                distinct_spellings(pairs),
                forall|i: int| 0 <= i < at ==> pairs[i].0 != spelling@,
            decreases self.entries.len() - at,
        {
            if same_text(self.entries[at].0, spelling) {
                proof {
                    lemma_entry_in_table(pairs, at as int);
                }
                return Ok(self.entries[at].1);
            }
            at += 1;
        }
        proof {
            lemma_unlisted_not_in_table(pairs, spelling@);
        }
        Err(UnresolvedType { spelling: String::from_str(spelling) })
    }
}

} // verus!
