//! Predictor for items found in garbage cans around town.

use vstd::prelude::*;

verus! {

/// Configuration for [`Garbage`].
#[derive(Clone, Debug, PartialEq, Eq)]
pub struct GarbageConfig {
    /// List of items required to be found in garbage cans.
    pub items: Vec<String>,
}

/// Decides whether every required item occurs among the items the garbage
/// simulation predicted across the town's cans. The predicted drops
/// themselves come from the external garbage simulation, one optional drop
/// per can.
#[derive(Clone, Debug, PartialEq, Eq)]
pub struct Garbage {
    /// List of item identifiers required to be found.
    pub items: Vec<String>,
}

impl Garbage {
    /// Create a new [`Garbage`] from a [`GarbageConfig`].
    ///
    /// Whether the item identifiers exist in the game's catalog is the
    /// catalog collaborator's to check.
    pub fn new(config: GarbageConfig) -> (r: Self)
        ensures
            r.items@ == config.items@,
    {
        Garbage { items: config.items }
    }

    /// Whether every required item occurs among the found items.
    pub open spec fn spec_decide(self, found: Seq<String>) -> bool {
        forall|i: int|
            0 <= i < self.items@.len() ==> contains_item(found, #[trigger] self.items@[i]@)
    }

    /// Decide this predictor's condition on the items the simulation found.
    pub fn decide(&self, found: &Vec<String>) -> (b: bool)
        ensures
            b == self.spec_decide(found@),
    {
        let mut i: usize = 0;
        while i < self.items.len()
            invariant
                0 <= i <= self.items@.len(),
                forall|k: int| 0 <= k < i ==> contains_item(found@, #[trigger] self.items@[k]@),
            decreases self.items@.len() - i,
        {
            if !contains_string(found, &self.items[i]) {
                return false;
            }
            i = i + 1;
        }
        true
    }
}

/// Whether the text `item` occurs among the contents of `found`.
pub open spec fn contains_item(found: Seq<String>, item: Seq<char>) -> bool {
    exists|j: int| 0 <= j < found.len() && #[trigger] found[j]@ == item
}

/// Whether `x` occurs in `v`, by string contents.
fn contains_string(v: &Vec<String>, x: &String) -> (b: bool)
    ensures
        b == contains_item(v@, x@),
{
    let mut j: usize = 0;
    while j < v.len()
        invariant
            0 <= j <= v@.len(),
            forall|k: int| 0 <= k < j ==> #[trigger] v@[k]@ != x@,
        decreases v@.len() - j,
    {
        if v[j] == *x {
            return true;
        }
        j = j + 1;
    }
    false
}

} // verus!
