//! Module names.

use vstd::prelude::*;

verus! {

/// Whether a name holds the null character anywhere.
///
/// Such a name cannot be handed to a host interface that takes
/// null-terminated text, which is what the loader takes.
pub open spec fn contains_nul(name: Seq<char>) -> bool {
    exists|i: int| 0 <= i < name.len() && name[i] == '\0'
}

/// Tells whether `name` holds an embedded null character.
///
/// In a `str` a zero byte stands for the null character and for nothing
/// else, so this is also whether the name holds a zero byte.
pub fn has_nul(name: &str) -> (found: bool)
    ensures
        found == contains_nul(name@),
{
    let chars = name.chars();
    proof {
        vstd::string::axiom_spec_iter(name);
    }
    let mut found: bool = false;
    for c in it: chars
        invariant
            it.seq() == name@,
            found == exists|i: int| 0 <= i < it.index() && name@[i] == '\0',
    {
        if c == '\0' {
            found = true;
        }
    }
    found
}

} // verus!
