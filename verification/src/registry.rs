//! The fleet registry: which VMs run, each under its identifier.

use crate::error::{VmError, VmErrorView};
use crate::fleet::{
    snapshot_cycle, snapshot_plan, GuestAction, GuestCall, GuestCallView, GUEST_PORT,
};
use crate::id::{random_form, VmId};
use crate::net::{guard_release, IpTablesGuard};
use crate::step::{Step, StepView};
use crate::text::{same_text, views};
use crate::transition::Transition;
use crate::vm::{
    fresh_state, launch_plan, planned, SocketWait, VirtualMachine, VmStarted, VmStateView,
};
use std::collections::HashMap;
use vstd::prelude::*;
use vstd::std_specs::hash::spec_keys_iter;
use vstd::std_specs::iter::IteratorSpec;
use vstd::string::*;

verus! {

broadcast use vstd::std_specs::hash::group_hash_axioms;

/// The running VMs, each under its identifier.
#[derive(Debug)]
pub struct Registry {
    vms: HashMap<u128, VirtualMachine<VmStarted>>,
}

/// Every record is kept under its own identifier and is that of a VM the
/// engine has created: its namespace is `fc-<id>`, and its tap device, if
/// it has one, is `fc-tap<id>`.
pub open spec fn consistent(records: Map<VmId, VmStateView>) -> bool {
    forall|id: VmId| #[trigger]
        records.contains_key(id) ==> records[id].vm_id == id && records[id].wf()
}

impl View for Registry {
    type V = Map<VmId, VmStateView>;

    closed spec fn view(&self) -> Map<VmId, VmStateView> {
        Map::new(
            |id: VmId| self.vms@.contains_key(id.value),
            |id: VmId| self.vms@[id.value]@,
        )
    }
}

/// No VM of `records` is kept under an identifier that has the form of one
/// drawn at random.
pub open spec fn none_random(records: Map<VmId, VmStateView>) -> bool {
    forall|id: VmId| #[trigger] records.contains_key(id) ==> !random_form(id.value)
}

/// What giving up the VMs `order`, one after the other, takes.
pub open spec fn teardowns(records: Map<VmId, VmStateView>, order: Seq<VmId>) -> Seq<StepView>
    decreases order.len(),
{
    if order.len() == 0 {
        Seq::empty()
    } else {
        teardowns(records, order.drop_last()) + records[order.last()].teardown()
    }
}

/// `steps` shut the fleet `records` down, its VMs in the order `order`:
/// every VM is given up, each once, and only then the host's filter table is
/// emptied.
pub open spec fn shuts_down(
    records: Map<VmId, VmStateView>,
    order: Seq<VmId>,
    steps: Seq<StepView>,
) -> bool {
    &&& order.no_duplicates()
    &&& forall|id: VmId| order.contains(id) <==> records.contains_key(id)
    &&& steps == teardowns(records, order) + guard_release()
}

/// While a snapshot of it is written, a VM is not found in the registry;
/// taken in again afterwards, with the record it left with, it leaves the
/// registry as it was before.
pub proof fn lemma_snapshot_keeps_the_fleet(records: Map<VmId, VmStateView>, id: VmId)
    requires
        consistent(records),
        records.contains_key(id),
    ensures
        !records.remove(id).contains_key(id),
        consistent(records.remove(id)),
        records.remove(id).insert(records[id].vm_id, records[id]) == records,
{
    assert(records.remove(id).insert(records[id].vm_id, records[id]) =~= records);
}

/// A VM that the registry did not take, and the reason.
#[derive(Debug)]
pub struct Rejected {
    pub error: VmError,
    pub vm: VirtualMachine<VmStarted>,
}

impl Registry {
    #[verifier::type_invariant]
    spec fn keyed_by_id(&self) -> bool {
        forall|key: u128| #[trigger]
            self.vms@.contains_key(key) ==> self.vms@[key]@.vm_id.value == key
                && self.vms@[key]@.wf()
    }

    /// A registry without VMs.
    pub fn new() -> (out: Registry)
        ensures
            out@ == Map::<VmId, VmStateView>::empty(),
    {
        let out = Registry { vms: HashMap::new() };
        assert(out@ =~= Map::<VmId, VmStateView>::empty());
        out
    }

    /// Whether a VM is kept under `id`.
    pub fn contains(&self, id: VmId) -> (out: bool)
        ensures
            consistent(self@),
            out == self@.contains_key(id),
    {
        proof {
            use_type_invariant(self);
        }
        self.vms.contains_key(&id.value)
    }

    /// Says whether `id` can be given to a new VM: `IdInUse` if a VM is kept
    /// under it.
    pub fn check_free(&self, id: VmId) -> (out: Result<(), VmError>)
        ensures
            consistent(self@),
            self@.contains_key(id) ==> (out matches Err(e) && e@ == VmErrorView::IdInUse),
            !self@.contains_key(id) ==> out is Ok,
    {
        proof {
            use_type_invariant(self);
        }
        if self.vms.contains_key(&id.value) {
            Err(VmError::IdInUse)
        } else {
            Ok(())
        }
    }

    /// The VM that is kept under `id`: `VmNotFound` if there is none.
    pub fn get(&self, id: VmId) -> (out: Result<&VirtualMachine<VmStarted>, VmError>)
        ensures
            consistent(self@),
            match out {
                Ok(vm) => self@.contains_key(id) && vm@ == self@[id],
                Err(e) => !self@.contains_key(id) && e@ == VmErrorView::VmNotFound,
            },
    {
        proof {
            use_type_invariant(self);
        }
        match self.vms.get(&id.value) {
            Some(vm) => Ok(vm),
            None => Err(VmError::VmNotFound),
        }
    }

    /// Takes `vm` into the registry, under its identifier. If a VM is kept
    /// under that identifier already, the registry stays as it is and `vm`
    /// comes back, with `IdInUse`.
    pub fn insert(&mut self, vm: VirtualMachine<VmStarted>) -> (out: Result<(), Rejected>)
        ensures
            consistent(old(self)@),
            consistent(final(self)@),
            match out {
                Ok(_) => !old(self)@.contains_key(vm@.vm_id) && final(self)@ == old(self)@.insert(
                    vm@.vm_id,
                    vm@,
                ),
                Err(rejected) => old(self)@.contains_key(vm@.vm_id) && final(self)@ == old(self)@
                    && rejected.error@ == VmErrorView::IdInUse && rejected.vm == vm,
            },
    {
        proof {
            use_type_invariant(&*self);
        }
        let id = vm.get_vm_id();
        if self.vms.contains_key(&id.value) {
            return Err(Rejected { error: VmError::IdInUse, vm });
        }
        let record = vm.vm_state();
        let mut vms: HashMap<u128, VirtualMachine<VmStarted>> = HashMap::new();
        std::mem::swap(&mut self.vms, &mut vms);
        vms.insert(id.value, vm);
        std::mem::swap(&mut self.vms, &mut vms);
        assert(self@ =~= old(self)@.insert(vm@.vm_id, vm@));
        Ok(())
    }

    /// Takes the VM that is kept under `id` out of the registry: `VmNotFound`
    /// if there is none.
    pub fn remove(&mut self, id: VmId) -> (out: Result<VirtualMachine<VmStarted>, VmError>)
        ensures
            consistent(old(self)@),
            consistent(final(self)@),
            match out {
                Ok(vm) => old(self)@.contains_key(id) && vm@ == old(self)@[id] && final(self)@
                    == old(self)@.remove(id),
                Err(e) => !old(self)@.contains_key(id) && e@ == VmErrorView::VmNotFound
                    && final(self)@ == old(self)@,
            },
    {
        proof {
            use_type_invariant(&*self);
        }
        let mut vms: HashMap<u128, VirtualMachine<VmStarted>> = HashMap::new();
        std::mem::swap(&mut self.vms, &mut vms);
        let found = vms.remove(&id.value);
        std::mem::swap(&mut self.vms, &mut vms);
        match found {
            Some(vm) => {
                assert(self@ =~= old(self)@.remove(id));
                Ok(vm)
            },
            None => {
                assert(self@ =~= old(self)@);
                Err(VmError::VmNotFound)
            },
        }
    }

    /// The identifiers of the VMs that are kept, each once, in no particular
    /// order.
    pub fn list(&self) -> (out: Vec<VmId>)
        ensures
            consistent(self@),
            out@.no_duplicates(),
            forall|id: VmId| out@.contains(id) <==> self@.contains_key(id),
    {
        proof {
            use_type_invariant(self);
        }
        let mut out: Vec<VmId> = Vec::new();
        let ghost keys = spec_keys_iter(&self.vms).remaining();
        for key in iter: self.vms.keys()
            invariant
                iter.seq() == keys,
                out@.len() == iter.index(),
                forall|j: int| 0 <= j < out@.len() ==> out@[j].value == *keys[j],
        {
            out.push(VmId::from_u128(*key));
        }
        proof {
            assert(keys.unref().to_set() == self.vms@.dom());
            assert(keys.no_duplicates());
            assert forall|i: int, j: int| 0 <= i < out@.len() && 0 <= j < out@.len() && i != j implies out@[i] != out@[j] by {
                if out@[i] == out@[j] {
                    assert(*keys[i] == *keys[j]);
                    assert(keys[i] == keys[j]);
                }
            }
            assert forall|id: VmId| out@.contains(id) <==> self@.contains_key(id) by {
                if out@.contains(id) {
                    let j = choose|j: int| 0 <= j < out@.len() && out@[j] == id;
                    assert(keys.unref()[j] == id.value);
                    assert(keys.unref().to_set().contains(id.value));
                }
                if self@.contains_key(id) {
                    assert(keys.unref().to_set().contains(id.value));
                    let j = choose|j: int| 0 <= j < keys.unref().len() && keys.unref()[j] == id.value;
                    assert(out@[j].value == id.value);
                    assert(out@[j] == id);
                }
            }
        }
        out
    }

    /// The identifier of the VM that is kept and whose identifier reads
    /// `text` in its hyphenated form: `VmNotFound` if there is none.
    pub fn find(&self, text: &str) -> (out: Result<VmId, VmError>)
        ensures
            consistent(self@),
            match out {
                Ok(id) => self@.contains_key(id) && id.text() == text@,
                Err(e) => e@ == VmErrorView::VmNotFound && forall|id: VmId|
                    self@.contains_key(id) ==> id.text() != text@,
            },
    {
        proof {
            use_type_invariant(self);
        }
        let ids = self.list();
        let mut i: usize = 0;
        while i < ids.len()
            invariant
                i <= ids.len(),
                consistent(self@),
                forall|id: VmId| ids@.contains(id) <==> self@.contains_key(id),
                forall|j: int| 0 <= j < i ==> ids@[j].text() != text@,
            decreases ids.len() - i,
        {
            let candidate = ids[i].to_text();
            if same_text(candidate.as_str(), text) {
                assert(ids@.contains(ids@[i as int]));
                return Ok(ids[i]);
            }
            i = i + 1;
        }
        assert forall|id: VmId| self@.contains_key(id) implies id.text() != text@ by {
            assert(ids@.contains(id));
            let j = choose|j: int| 0 <= j < ids@.len() && ids@[j] == id;
            assert(ids@[j].text() != text@);
        }
        Err(VmError::VmNotFound)
    }

    /// Draws identifiers at random until one is free, `attempts` times at
    /// most, and hands back the first free one. Without an attempt there is
    /// none. With one, and no VM kept under an identifier that could be drawn,
    /// as in an empty registry, the first draw is free. Otherwise chance
    /// decides: every draw may hit an identifier that is in use.
    pub fn fresh_id(&self, attempts: usize) -> (out: Option<VmId>)
        ensures
            consistent(self@),
            out matches Some(id) ==> !self@.contains_key(id) && random_form(id.value),
            attempts == 0 ==> out is None,
            attempts > 0 && none_random(self@) ==> out is Some,
    {
        proof {
            use_type_invariant(self);
        }
        let mut left = attempts;
        while left > 0
            invariant
                left <= attempts,
                consistent(self@),
                attempts > 0 && none_random(self@) ==> left > 0,
            decreases left,
        {
            let candidate = VmId::random();
            if !self.contains(candidate) {
                return Some(candidate);
            }
            assert(self@.contains_key(candidate) && random_form(candidate.value));
            left = left - 1;
        }
        None
    }

    /// Starts the creation of the VM `vm_id` with the hypervisor
    /// `firecracker_path`. An identifier under which a VM is kept is refused
    /// with `IdInUse`, before anything is done on the host.
    pub fn create(&self, firecracker_path: &str, vm_id: VmId) -> (out: Result<
        Transition<SocketWait>,
        VmError,
    >)
        ensures
            consistent(self@),
            match out {
                Ok(operation) => !self@.contains_key(vm_id) && operation.plan() == launch_plan(
                    firecracker_path@,
                    vm_id,
                ) && operation.at() == 0 && operation.goal()@ == fresh_state(vm_id)
                    && operation.goal().waited() == 0 && operation.undo() == fresh_state(
                    vm_id,
                ).namespace_release(),
                Err(e) => self@.contains_key(vm_id) && e@ == VmErrorView::IdInUse,
            },
    {
        proof {
            use_type_invariant(self);
        }
        match self.check_free(vm_id) {
            Ok(_) => Ok(VirtualMachine::new(firecracker_path, vm_id)),
            Err(error) => Err(error),
        }
    }

    /// The call that asks the agent inside the guest of the VM `id` for
    /// `action`: `VmNotFound` if no VM is kept under `id`.
    pub fn execute(&self, id: VmId, action: GuestAction) -> (out: Result<GuestCall, VmError>)
        ensures
            consistent(self@),
            match out {
                Ok(guest_call) => self@.contains_key(id) && guest_call@ == (GuestCallView {
                    namespace: id.namespace_text(),
                    address: "172.16.0.2"@,
                    port: GUEST_PORT,
                    action,
                }),
                Err(e) => !self@.contains_key(id) && e@ == VmErrorView::VmNotFound,
            },
    {
        proof {
            use_type_invariant(self);
        }
        match self.get(id) {
            Ok(vm) => Ok(
                GuestCall {
                    namespace: vm.vm_state().network_namespace().to_text(),
                    address: String::from_str("172.16.0.2"),
                    port: GUEST_PORT,
                    action,
                },
            ),
            Err(error) => Err(error),
        }
    }

    /// Starts a snapshot of the VM `id`: the VM leaves the registry, so that
    /// nobody finds it while it is halted, and is to be taken in again once
    /// the snapshot is written and the guest runs. `VmNotFound` if no VM is
    /// kept under `id`.
    pub fn snapshot(&mut self, id: VmId) -> (out: Result<
        Transition<VirtualMachine<VmStarted>>,
        VmError,
    >)
        ensures
            consistent(old(self)@),
            consistent(final(self)@),
            match out {
                Ok(operation) => old(self)@.contains_key(id) && final(self)@ == old(self)@.remove(
                    id,
                ) && planned(operation, snapshot_plan(old(self)@[id]), old(self)@[id]),
                Err(e) => !old(self)@.contains_key(id) && e@ == VmErrorView::VmNotFound
                    && final(self)@ == old(self)@,
            },
    {
        match self.remove(id) {
            Ok(vm) => Ok(snapshot_cycle(vm)),
            Err(error) => Err(error),
        }
    }

    /// Shuts the fleet down: every VM is given up, in no particular order,
    /// and after the last of them the guard.
    pub fn shutdown(self, guard: IpTablesGuard) -> (out: Vec<Step>)
        ensures
            consistent(self@),
            exists|order: Seq<VmId>| shuts_down(self@, order, views(out@)),
    {
        proof {
            use_type_invariant(&self);
        }
        let order = self.list();
        let ghost records = self@;
        let mut vms = self.vms;
        let mut steps: Vec<Step> = Vec::new();
        let mut i: usize = 0;
        proof {
            assert(views(steps@) =~= teardowns(records, order@.take(0)));
            assert forall|j: int| 0 <= j < order.len() implies vms@.contains_key(
                #[trigger] order@[j].value,
            ) && vms@[order@[j].value]@ == records[order@[j]] by {
                assert(order@.contains(order@[j]));
                assert(records.contains_key(order@[j]));
            }
        }
        while i < order.len()
            invariant
                i <= order.len(),
                order@.no_duplicates(),
                views(steps@) == teardowns(records, order@.take(i as int)),
                forall|j: int|
                    i <= j < order.len() ==> vms@.contains_key(#[trigger] order@[j].value)
                        && vms@[order@[j].value]@ == records[order@[j]],
            decreases order.len() - i,
        {
            let id = order[i];
            let ghost before = vms@;
            match vms.remove(&id.value) {
                Some(vm) => {
                    let ghost so_far = views(steps@);
                    let mut more = vm.teardown();
                    steps.append(&mut more);
                    proof {
                        let next = order@.take(i + 1);
                        assert(next.drop_last() =~= order@.take(i as int));
                        assert(next.last() == id);
                        assert(views(steps@) =~= so_far + records[id].teardown());
                        assert forall|j: int| i + 1 <= j < order.len() implies vms@.contains_key(
                            #[trigger] order@[j].value,
                        ) && vms@[order@[j].value]@ == records[order@[j]] by {
                            assert(order@[j] != order@[i as int]);
                            assert(before.contains_key(order@[j].value));
                        }
                    }
                },
                None => {},
            }
            i = i + 1;
        }
        let mut last = guard.release();
        let ghost so_far = views(steps@);
        steps.append(&mut last);
        proof {
            assert(order@.take(order.len() as int) =~= order@);
            assert(views(steps@) =~= so_far + guard_release());
            assert(shuts_down(records, order@, views(steps@)));
        }
        steps
    }
}

} // verus!
