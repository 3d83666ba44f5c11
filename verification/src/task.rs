//! Per-task data of a vCPU task: the VM it belongs to, held without keeping
//! the VM alive, and the virtual CPU it runs.
use vstd::prelude::*;

use std::sync::{Arc, Weak};

verus! {

/// Holds a `std::sync::Weak`. The handle is opaque to proofs: what it
/// refers to is recorded beside it, in `WeakRef`.
#[verifier::external_body]
#[verifier::reject_recursive_types(T)]
pub struct WeakHandle<T> {
    weak: Weak<T>,
}

/// A reference that does not keep its value alive. `target()` is the value
/// it was made from; upgrading gives that value back while it is still alive.
#[verifier::reject_recursive_types(T)]
pub struct WeakRef<T> {
    handle: WeakHandle<T>,
    target: Ghost<T>,
}

/// `Arc::downgrade`: a weak reference to the allocation of `arc`, recorded
/// together with the value it points to. The handle is the one `downgrade`
/// returns, so upgrading it gives back that allocation while it is alive.
#[verifier::external_body]
fn downgrade<T>(arc: &Arc<T>) -> (r: WeakRef<T>)
    ensures
        r.target@ == **arc,
{
    WeakRef { handle: WeakHandle { weak: Arc::downgrade(arc) }, target: Ghost(arc_value(arc)) }
}

/// `Weak::upgrade` on the handle of `r`. Whether a value comes back depends on
/// whether other strong references still exist, so nothing is said of when it
/// is `Some`; when it is, it is the allocation the handle was made from, whose
/// value `downgrade`, the only place that builds a `WeakRef`, records as
/// `target`.
#[verifier::external_body]
fn upgrade_handle<T>(r: &WeakRef<T>) -> (strong: Option<Arc<T>>)
    ensures
        strong matches Some(a) ==> *a == r.target@,
{
    r.handle.weak.upgrade()
}

/// The value an `Arc` points to.
pub open spec fn arc_value<T>(arc: &Arc<T>) -> T {
    **arc
}

impl<T> WeakRef<T> {
    /// The value this reference was made from.
    pub closed spec fn target(&self) -> T {
        self.target@
    }

    /// A weak reference to the value behind `arc`.
    pub fn new(arc: &Arc<T>) -> (r: Self)
        ensures
            r.target() == **arc,
    {
        downgrade(arc)
    }

    /// A strong reference to the target if it is still alive.
    pub fn upgrade(&self) -> (strong: Option<Arc<T>>)
        ensures
            strong matches Some(a) ==> *a == self.target(),
    {
        upgrade_handle(self)
    }
}

/// Task extended data for the hypervisor.
#[verifier::reject_recursive_types(VM)]
pub struct VCpuTask<VM, VCpu> {
    /// The VM (a weak reference, so that the task does not keep it alive).
    pub vm: WeakRef<VM>,
    /// The virtual CPU.
    pub vcpu: VCpu,
}

impl<VM, VCpu> VCpuTask<VM, VCpu> {
    /// Creates the task data for `vcpu` of `vm`.
    pub fn new(vm: &Arc<VM>, vcpu: VCpu) -> (task: Self)
        ensures
            task.vm.target() == **vm,
            task.vcpu == vcpu,
    {
        VCpuTask { vm: WeakRef::new(vm), vcpu }
    }

    /// A strong reference to the VM if it is still alive; `None` once it has
    /// been dropped.
    pub fn vm(&self) -> (vm: Option<Arc<VM>>)
        ensures
            vm matches Some(a) ==> *a == self.vm.target(),
    {
        self.vm.upgrade()
    }
}

/// Access to the vCPU task data of a task.
pub trait AsVCpuTask<VM, VCpu> {
    fn as_vcpu_task(&self) -> &VCpuTask<VM, VCpu>;
}

} // verus!
