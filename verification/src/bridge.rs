//! The state bridge: the sole channel by which application-level data
//! survives a reload. `extract` asks the active module for a
//! reference-free snapshot of its state; `inject` is the identity that
//! hands the snapshot, unmodified and by value, to the next module's
//! constructor. Nothing else of the old module's memory is preserved.

use vstd::prelude::*;
use crate::loader::LoadedModule;
use crate::runtime::ModuleRuntime;
use crate::shared::AppState;

verus! {

/// Capture the state snapshot of the active module instance.
pub fn extract(rt: &ModuleRuntime, active: &LoadedModule) -> (r: AppState)
    requires
        active.instance < rt.instances@.len(),
        rt.instances@[active.instance as int].live,
        rt.instances@[active.instance as int].image < rt.images@.len(),
        rt.images@[rt.instances@[active.instance as int].image as int],
    ensures
        r == rt.instances@[active.instance as int].app.state,
{
    rt.instance_state(active.instance)
}

/// Hand a snapshot to the next module's constructor, unmodified.
pub fn inject(snapshot: AppState) -> (r: AppState)
    ensures
        r == snapshot,
{
    snapshot
}

} // verus!
