//! The two questions that a generator asks of a type spelling: what the
//! type is called in the generated code, and what stands behind the
//! parameter list of a function that returns it. Both are answered by the
//! standard table.

use crate::standard::{
    lemma_standard_entry, lemma_standard_target_settled, lemma_standard_void_settled,
    standard_table, STANDARD_ENTRIES,
};
use crate::suffix::{is_void, return_suffix};
use crate::table::{is_lookup_of, TypeTable, UnresolvedType};
use vstd::prelude::*;

verus! {

/// The type that the generated code uses for the C type `ty`, by the
/// standard table.
///
/// A spelling that the table does not hold is an error, which names it: there
/// is no type to put in its place.
///
/// Each call lists the standard table anew. Who has many spellings to look up
/// makes the table once, with [`TypeTable::standard`], and asks that.
pub fn to_rust_ty(ty: &str) -> (found: Result<&'static str, UnresolvedType>)
    ensures
        is_lookup_of(standard_table(), ty@, found),
{
    TypeTable::standard().map_type(ty)
}

/// What stands behind the parameter list of a function that returns `ty`,
/// by the standard table.
pub fn to_return_suffix(ty: &str) -> (suffix: String)
    ensures
        suffix@ == return_suffix(standard_table(), ty@),
{
    TypeTable::standard().return_suffix(ty)
}

/// The suffix for a target of the standard table is the suffix for the
/// spelling that it stands with: a generator may map a type first and ask
/// for the suffix then, or ask for it at once.
pub proof fn lemma_suffix_of_target(at: int)
    requires
        0 <= at < STANDARD_ENTRIES@.len(),
    ensures
        return_suffix(standard_table(), STANDARD_ENTRIES@[at].1@) == return_suffix(
            standard_table(),
            STANDARD_ENTRIES@[at].0@,
        ),
{
    lemma_standard_entry(at);
    lemma_standard_target_settled(at);
    if is_void(STANDARD_ENTRIES@[at].0@) {
        lemma_standard_void_settled(STANDARD_ENTRIES@[at].0@);
    }
}

} // verus!
