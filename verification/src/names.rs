//! Operations on names and strings that are made by calls outside the
//! verified code.

use string_cache::DefaultAtom;
use vstd::prelude::*;

verus! {

/// Whether two names are the same atom.
///
/// Interns both names with `string_cache::Atom::from`, for the atom set
/// without static atoms, and compares the two atoms with `==`. The contract
/// relies on what interning is for: a text is always interned in the same
/// way, so that two atoms that are alive at the same time are equal exactly
/// when they were made from the same text. Nothing of this is proved here.
#[verifier::external_body]
pub(crate) fn same_atom(a: &str, b: &str) -> (same: bool)
    ensures
        same == (a@ == b@),
{
    DefaultAtom::from(a) == DefaultAtom::from(b)
}

/// Appends one character to a string, by `String::push` of the standard
/// library. That the character is added at the end, and nothing else changes,
/// is taken from its documentation and not proved here.
#[verifier::external_body]
pub(crate) fn push_char(s: &mut String, c: char)
    ensures
        final(s)@ == old(s)@.push(c),
{
    s.push(c)
}

} // verus!
