//! Resolution of a function name to a handle on its definition.

use vstd::prelude::*;
use vstd::string::StringExecFns;

use crate::registry::{reg_contains, reg_has_name, FuncDef, Registry};
use crate::types::{TaError, TaResult};

verus! {

/// A resolved handle: the function definition a name lookup found.
#[derive(Debug, Clone, PartialEq)]
pub struct FuncHandle {
    pub def: FuncDef,
}

impl FuncHandle {
    /// Looks `func` up in the registry. Succeeds exactly when some function
    /// bears that name, and reports `FuncNotFound` — never a stray handle —
    /// otherwise.
    pub fn new(registry: &Registry, func: &str) -> (r: TaResult<FuncHandle>)
        ensures
            r.is_ok() == reg_has_name(*registry, func@),
            r matches Ok(h) ==> reg_contains(*registry, h.def) && h.def.name@ == func@,
            r matches Err(e) ==> (e matches TaError::FuncNotFound(n) && n@ == func@),
    {
        let needle: String = func.to_owned();
        let n_groups = registry.groups.len();
        for g in 0..n_groups
            invariant
                n_groups == registry.groups@.len(),
                needle@ == func@,
                forall|g2: int, i2: int|
                    0 <= g2 < g && 0 <= i2 < registry.groups@[g2].funcs@.len()
                        ==> #[trigger] registry.groups@[g2].funcs@[i2].name@ != func@,
        {
            let group = &registry.groups[g];
            let n_funcs = group.funcs.len();
            for i in 0..n_funcs
                invariant
                    n_groups == registry.groups@.len(),
                    g < n_groups,
                    group == registry.groups@[g as int],
                    n_funcs == group.funcs@.len(),
                    needle@ == func@,
                    forall|g2: int, i2: int|
                        0 <= g2 < g && 0 <= i2 < registry.groups@[g2].funcs@.len()
                            ==> #[trigger] registry.groups@[g2].funcs@[i2].name@ != func@,
                    forall|i2: int|
                        0 <= i2 < i ==> #[trigger] registry.groups@[g as int].funcs@[i2].name@
                            != func@,
            {
                if group.funcs[i].name == needle {
                    let def = crate::registry::dup_func_def(&group.funcs[i]);
                    proof {
                        assert(registry.groups@[g as int].funcs@[i as int].name@ == func@);
                        assert(reg_has_name(*registry, func@));
                    }
                    return Ok(FuncHandle { def });
                }
            }
        }
        proof {
            assert(!reg_has_name(*registry, func@));
        }
        Err(TaError::FuncNotFound(needle))
    }
}

} // verus!
