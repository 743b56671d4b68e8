//! Exclusive peripheral ownership: every physical resource (a pin, the
//! converter, the capture timer) has at most one live handle, claimed once at
//! boot and moved into the task that uses it. A second claim of the same
//! resource fails, which callers treat as a boot-time fatal error.

use vstd::prelude::*;

verus! {

/// Exclusive ownership of one physical resource. Not copyable and not
/// clonable: the handle moves into the one task that drives the resource.
pub struct PeripheralHandle {
    /// The boot-time index of the physical resource this handle owns.
    pub resource: usize,
}

/// The assignment state after claiming a resource: it is assigned, and
/// nothing else changes.
pub open spec fn claimed(assigned: Seq<bool>, resource: int) -> Seq<bool> {
    assigned.update(resource, true)
}

/// The boot-time arena that tracks which resources already have a handle.
pub struct HandleRegistry {
    /// One flag per physical resource, indexed as `PeripheralHandle::resource`.
    pub assigned: Vec<bool>,
}

impl HandleRegistry {
    /// A registry for a fixed set of resources, none assigned yet.
    pub fn new(resource_count: usize) -> (r: Self)
        ensures
            r.assigned@.len() == resource_count,
            forall|i: int| 0 <= i < resource_count ==> !r.assigned@[i],
    {
        let mut assigned: Vec<bool> = Vec::new();
        while assigned.len() < resource_count
            invariant
                assigned@.len() <= resource_count,
                forall|i: int| 0 <= i < assigned@.len() ==> !assigned@[i],
            decreases resource_count - assigned.len(),
        {
            assigned.push(false);
        }
        HandleRegistry { assigned }
    }

    /// Claims a resource: hands out its one handle if it is still free, and
    /// fails if a handle was already given out. Either way the resource is
    /// assigned afterwards, so the handle returned here is never duplicated.
    pub fn claim(&mut self, resource: usize) -> (r: Option<PeripheralHandle>)
        requires
            resource < old(self).assigned@.len(),
        ensures
            final(self).assigned@ =~= claimed(old(self).assigned@, resource as int),
            r is Some <==> !old(self).assigned@[resource as int],
            r matches Some(handle) ==> handle.resource == resource,
    {
        if self.assigned[resource] {
            None
        } else {
            self.assigned[resource] = true;
            Some(PeripheralHandle { resource })
        }
    }
}

/// Law: at most one live handle per physical resource — once a resource is
/// claimed, any later claim of it finds it assigned and fails, whatever was
/// claimed in between.
pub proof fn lemma_second_claim_fails(assigned: Seq<bool>, resource: int)
    requires
        0 <= resource < assigned.len(),
    ensures
        claimed(assigned, resource)[resource],
        forall|other: int|
            0 <= other < assigned.len() && assigned[resource] ==> claimed(
                assigned,
                other,
            )[resource],
{
}

} // verus!
