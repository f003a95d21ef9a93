//! Enumeration of the registry's group names.

use vstd::prelude::*;

use crate::registry::Registry;
use crate::types::TaResult;

verus! {

/// The registry's group names, in registry order.
#[derive(Debug)]
pub struct GroupTable {
    pub names: Vec<String>,
}

impl GroupTable {
    /// Lists every group name the registry exposes.
    pub fn new(registry: &Registry) -> (r: TaResult<GroupTable>)
        ensures
            r matches Ok(t) && t.names@.len() == registry.groups@.len() && (forall|i: int|
                0 <= i < registry.groups@.len() ==> #[trigger] t.names@[i]
                    == registry.groups@[i].name),
    {
        let mut names: Vec<String> = Vec::new();
        let n = registry.groups.len();
        for i in 0..n
            invariant
                n == registry.groups@.len(),
                names@.len() == i,
                forall|j: int| 0 <= j < i ==> #[trigger] names@[j] == registry.groups@[j].name,
        {
            names.push(registry.groups[i].name.clone());
        }
        Ok(GroupTable { names })
    }

    /// The listed names; the table's iteration order is the registry's.
    pub fn iter(&self) -> (r: &Vec<String>)
        ensures
            *r == self.names,
    {
        &self.names
    }
}

} // verus!
