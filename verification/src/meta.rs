//! The catalog walker: one reflection pass over the whole registry.

use vstd::prelude::*;

use crate::func_handle::FuncHandle;
use crate::func_info::FuncInfo;
use crate::registry::{describable, eq_def, reg_contains, reg_has_name, Registry};
use crate::types::{TaError, TaResult};

verus! {

/// One group of the catalog: the group's name and the fully expanded
/// descriptor of every function the registry lists under it.
#[derive(Debug)]
pub struct MetaGroup {
    pub name: String,
    pub funcs: Vec<FuncInfo>,
}

/// The catalog: every group of the registry, expanded once, immutable
/// afterwards.
#[derive(Debug)]
pub struct Meta {
    pub data: Vec<MetaGroup>,
}

impl Meta {
    /// Walks the registry: enumerates the groups, resolves every listed
    /// function name to a handle, and expands each handle into a descriptor.
    ///
    /// A registry whose declared counts are all backed by rows yields a
    /// catalog mirroring it group for group and name for name — a registry
    /// with zero groups yields an empty catalog, not an error. Any
    /// reflection failure aborts the walk; a partial catalog is never
    /// returned. Every descriptor's recovered arrays have exactly the
    /// lengths its definition declares.
    pub fn new(registry: &Registry) -> (r: TaResult<Meta>)
        ensures
            (forall|g: int, i: int|
                0 <= g < registry.groups@.len() && 0 <= i < registry.groups@[g].funcs@.len()
                    ==> describable(#[trigger] registry.groups@[g].funcs@[i])) ==> r.is_ok(),
            registry.groups@.len() == 0 ==> (r matches Ok(m) && m.data@.len() == 0),
            r matches Ok(m) ==> {
                &&& m.data@.len() == registry.groups@.len()
                &&& forall|g: int|
                    0 <= g < m.data@.len() ==> #[trigger] m.data@[g].name
                        == registry.groups@[g].name
                &&& forall|g: int|
                    0 <= g < m.data@.len() ==> #[trigger] m.data@[g].funcs@.len()
                        == registry.groups@[g].funcs@.len()
                &&& forall|g: int, i: int|
                    0 <= g < m.data@.len() && 0 <= i < m.data@[g].funcs@.len()
                        ==> (#[trigger] m.data@[g].funcs@[i].name)@
                        == registry.groups@[g].funcs@[i].name@
                &&& forall|g: int, i: int|
                    0 <= g < m.data@.len() && 0 <= i < m.data@[g].funcs@.len() ==> reg_contains(
                        *registry,
                        (#[trigger] m.data@[g].funcs@[i]).handle.def,
                    )
                &&& forall|g: int, i: int|
                    0 <= g < m.data@.len() && 0 <= i < m.data@[g].funcs@.len() ==> {
                        let info = #[trigger] m.data@[g].funcs@[i];
                        &&& info.name == info.handle.def.name
                        &&& info.params@.len() == info.handle.def.nb_opt_input
                        &&& info.inputs@.len() == info.handle.def.nb_input
                        &&& info.outputs@.len() == info.handle.def.nb_output
                    }
            },
    {
        let mut data: Vec<MetaGroup> = Vec::new();
        let n_groups = registry.groups.len();
        for g in 0..n_groups
            invariant
                n_groups == registry.groups@.len(),
                data@.len() == g,
                forall|g2: int|
                    0 <= g2 < g ==> #[trigger] data@[g2].name == registry.groups@[g2].name,
                forall|g2: int|
                    0 <= g2 < g ==> #[trigger] data@[g2].funcs@.len()
                        == registry.groups@[g2].funcs@.len(),
                forall|g2: int, i2: int|
                    0 <= g2 < g && 0 <= i2 < data@[g2].funcs@.len()
                        ==> (#[trigger] data@[g2].funcs@[i2].name)@
                        == registry.groups@[g2].funcs@[i2].name@,
                forall|g2: int, i2: int|
                    0 <= g2 < g && 0 <= i2 < data@[g2].funcs@.len() ==> reg_contains(
                        *registry,
                        (#[trigger] data@[g2].funcs@[i2]).handle.def,
                    ),
                forall|g2: int, i2: int|
                    0 <= g2 < g && 0 <= i2 < data@[g2].funcs@.len() ==> {
                        let info = #[trigger] data@[g2].funcs@[i2];
                        &&& info.name == info.handle.def.name
                        &&& info.params@.len() == info.handle.def.nb_opt_input
                        &&& info.inputs@.len() == info.handle.def.nb_input
                        &&& info.outputs@.len() == info.handle.def.nb_output
                    },
        {
            let group = &registry.groups[g];
            let mut funcs: Vec<FuncInfo> = Vec::new();
            let nf = group.funcs.len();
            for i in 0..nf
                invariant
                    g < n_groups,
                    n_groups == registry.groups@.len(),
                    *group == registry.groups@[g as int],
                    nf == group.funcs@.len(),
                    funcs@.len() == i,
                    forall|i2: int|
                        0 <= i2 < i ==> (#[trigger] funcs@[i2].name)@
                            == registry.groups@[g as int].funcs@[i2].name@,
                    forall|i2: int|
                        0 <= i2 < i ==> reg_contains(
                            *registry,
                            (#[trigger] funcs@[i2]).handle.def,
                        ),
                    forall|i2: int|
                        0 <= i2 < i ==> {
                            let info = #[trigger] funcs@[i2];
                            &&& info.name == info.handle.def.name
                            &&& info.params@.len() == info.handle.def.nb_opt_input
                            &&& info.inputs@.len() == info.handle.def.nb_input
                            &&& info.outputs@.len() == info.handle.def.nb_output
                        },
            {
                proof {
                    assert(registry.groups@[g as int].funcs@[i as int].name@
                        == registry.groups@[g as int].funcs@[i as int].name@);
                    assert(reg_has_name(*registry, registry.groups@[g as int].funcs@[i as int].name@));
                }
                let handle = match FuncHandle::new(registry, group.funcs[i].name.as_str()) {
                    Ok(h) => h,
                    Err(e) => {
                        proof {
                            assert(false);
                        }
                        return Err(e);
                    },
                };
                let ghost hdef = handle.def;
                match FuncInfo::try_from(handle) {
                    Ok(info) => funcs.push(info),
                    Err(e) => {
                        proof {
                            // The handle's definition mirrors some row of the
                            // registry, so that row is incomplete too and the
                            // success-owed premise fails.
                            assert(reg_contains(*registry, hdef));
                            let (g2, i2): (int, int) = choose|g2: int, i2: int|
                                0 <= g2 < registry.groups@.len() && 0 <= i2
                                    < registry.groups@[g2].funcs@.len() && eq_def(
                                    #[trigger] registry.groups@[g2].funcs@[i2],
                                    hdef,
                                );
                            assert(eq_def(registry.groups@[g2].funcs@[i2], hdef));
                            assert(!describable(registry.groups@[g2].funcs@[i2]));
                        }
                        return Err(e);
                    },
                }
            }
            data.push(MetaGroup { name: group.name.clone(), funcs });
        }
        Ok(Meta { data })
    }
}

} // verus!
