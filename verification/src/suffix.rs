//! What stands behind the parameter list of a generated function: the type
//! that it returns.

use crate::table::TypeTable;
use crate::text::{
    lemma_free_behind, lemma_replaced_is_free, occurs_at, occurs_in, replace_all, replaced,
    replaces_for_good, same_text,
};
use vstd::prelude::*;

verus! {

/// The mark of a pointer through which its target may be written.
pub open spec fn mutable_marker() -> Seq<char> {
    "*mut "@
}

/// The mark of a pointer through which its target is only read.
pub open spec fn constant_marker() -> Seq<char> {
    "*const "@
}

/// What stands between a parameter list and the type returned.
pub open spec fn arrow() -> Seq<char> {
    " -> "@
}

/// `spelling` is one of the names of the type of a function that returns
/// nothing.
pub open spec fn is_void(spelling: Seq<char>) -> bool {
    spelling == "c_void"@ || spelling == "VOID"@ || spelling == "GLvoid"@
}

/// The target of `spelling` in `table`, or `spelling` itself where the table
/// has none: text that was mapped before is taken as it is.
pub open spec fn target_or_self(table: Map<Seq<char>, Seq<char>>, spelling: Seq<char>) -> Seq<
    char,
> {
    if table.contains_key(spelling) {
        table[spelling]
    } else {
        spelling
    }
}

/// What stands behind the parameter list of a function that returns
/// `spelling`: nothing for a function that returns nothing, else the arrow
/// and the type, with every pointer in it made a pointer to read through.
pub open spec fn return_suffix(table: Map<Seq<char>, Seq<char>>, spelling: Seq<char>) -> Seq<
    char,
> {
    if is_void(spelling) {
        Seq::empty()
    } else {
        arrow() + replaced(target_or_self(table, spelling), mutable_marker(), constant_marker())
    }
}

/// To make the pointers of a type pointers to read through is a replacement
/// for good.
pub proof fn lemma_markers_replace_for_good()
    ensures
        replaces_for_good(mutable_marker(), constant_marker()),
{
    reveal_strlit("*mut ");
    reveal_strlit("*const ");
}

/// No return suffix holds the mark of a pointer to write through, whatever
/// the table and the spelling.
pub proof fn lemma_return_suffix_never_mutable(
    table: Map<Seq<char>, Seq<char>>,
    spelling: Seq<char>,
)
    ensures
        !occurs_in(return_suffix(table, spelling), mutable_marker()),
{
    reveal_strlit("*mut ");
    reveal_strlit(" -> ");
    let from = mutable_marker();
    if is_void(spelling) {
        assert forall|at: int| !occurs_at(Seq::<char>::empty(), from, at) by {}
    } else {
        let ty = replaced(target_or_self(table, spelling), from, constant_marker());
        lemma_markers_replace_for_good();
        assert forall|at: int| !occurs_at(ty, from, at) by {
            lemma_replaced_is_free(target_or_self(table, spelling), from, constant_marker(), at);
        }
        lemma_free_behind(arrow(), ty, from);
    }
}

impl TypeTable {
    /// What stands behind the parameter list of a function that returns
    /// `spelling`.
    ///
    /// This never fails: a spelling that the table does not hold is taken
    /// for a type of the generated code.
    pub fn return_suffix(&self, spelling: &str) -> (suffix: String)
        ensures
            suffix@ == return_suffix(self@, spelling@),
    {
        if same_text(spelling, "c_void") || same_text(spelling, "VOID") || same_text(
            spelling,
            "GLvoid",
        ) {
            return String::new();
        }
        let ty = match self.map_type(spelling) {
            Ok(target) => replace_all(target, "*mut ", "*const "),
            Err(_) => replace_all(spelling, "*mut ", "*const "),
        };
        let mut suffix = String::from_str(" -> ");
        suffix.append(ty.as_str());
        suffix
    }
}

} // verus!
