//! Enumeration of the function names of one group.

use vstd::prelude::*;
use vstd::string::StringExecFns;

use crate::registry::{GroupDef, Registry};
use crate::types::{TaError, TaResult};

verus! {

/// Whether some group of the registry bears `name`.
pub open spec fn reg_has_group(reg: Registry, name: Seq<char>) -> bool {
    exists|g: int| 0 <= g < reg.groups@.len() && #[trigger] reg.groups@[g].name@ == name
}

/// Whether `names` lists exactly the function names of `gd`, in order.
pub open spec fn lists_group_funcs(names: Seq<String>, gd: GroupDef) -> bool {
    names.len() == gd.funcs@.len() && forall|i: int|
        0 <= i < names.len() ==> #[trigger] names[i] == gd.funcs@[i].name
}

/// The function names of one group, in registry order.
#[derive(Debug)]
pub struct FuncTable {
    pub names: Vec<String>,
}

impl FuncTable {
    /// Lists the function names of the first group bearing `group`.
    /// Succeeds exactly when such a group exists.
    pub fn new(registry: &Registry, group: &str) -> (r: TaResult<FuncTable>)
        ensures
            r.is_ok() == reg_has_group(*registry, group@),
            r matches Ok(t) ==> exists|g: int|
                0 <= g < registry.groups@.len() && #[trigger] registry.groups@[g].name@ == group@
                    && lists_group_funcs(t.names@, registry.groups@[g]),
            r matches Err(e) ==> e == TaError::BadParam,
    {
        let needle: String = group.to_owned();
        let n = registry.groups.len();
        for g in 0..n
            invariant
                n == registry.groups@.len(),
                needle@ == group@,
                forall|g2: int| 0 <= g2 < g ==> #[trigger] registry.groups@[g2].name@ != group@,
        {
            if registry.groups[g].name == needle {
                let gd = &registry.groups[g];
                let mut names: Vec<String> = Vec::new();
                let nf = gd.funcs.len();
                for i in 0..nf
                    invariant
                        g < n,
                        n == registry.groups@.len(),
                        *gd == registry.groups@[g as int],
                        gd.name@ == group@,
                        nf == gd.funcs@.len(),
                        names@.len() == i,
                        forall|j: int| 0 <= j < i ==> #[trigger] names@[j] == gd.funcs@[j].name,
                {
                    names.push(gd.funcs[i].name.clone());
                }
                return Ok(FuncTable { names });
            }
        }
        Err(TaError::BadParam)
    }

    /// The listed names; the table's iteration order is the registry's.
    pub fn iter(&self) -> (r: &Vec<String>)
        ensures
            *r == self.names,
    {
        &self.names
    }
}

} // verus!
