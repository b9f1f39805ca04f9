//! Model pricing: which entry of a pricing table applies to a model.
//!
//! Rates are amounts of money per million tokens and are not handled here;
//! an entry is known by its prefix alone.

use vstd::prelude::*;
use vstd::string::*;
use crate::text::{contains_text, lowercase, lowercase_of, occurs_in};

verus! {

/// An entry applies to a model when its prefix is a part of the model's
/// name in lower case.
pub open spec fn entry_applies(prefix: Seq<char>, model: Seq<char>) -> bool {
    occurs_in(lowercase_of(model), prefix)
}

/// The first entry that applies to the model, by its index in the table, or
/// nothing for an unknown model.
pub fn matching_entry(prefixes: &Vec<String>, model: &str) -> (r: Option<usize>)
    ensures
        match r {
            Some(i) => {
                &&& i < prefixes@.len()
                &&& entry_applies(prefixes@[i as int]@, model@)
                &&& forall|j: int| 0 <= j < i ==> !entry_applies(#[trigger] prefixes@[j]@, model@)
            },
            None => forall|j: int|
                0 <= j < prefixes@.len() ==> !entry_applies(#[trigger] prefixes@[j]@, model@),
        },
{
    let name = lowercase(model);
    let mut i: usize = 0;
    while i < prefixes.len()
        invariant
            i <= prefixes@.len(),
            name@ == lowercase_of(model@),
            forall|j: int| 0 <= j < i ==> !entry_applies(#[trigger] prefixes@[j]@, model@),
        decreases prefixes@.len() - i,
    {
        if contains_text(name.as_str(), prefixes[i].as_str()) {
            return Some(i);
        }
        i += 1;
    }
    None
}

} // verus!
