use vstd::prelude::*;
use crate::vm::{fresh_id, is_normalized_form, lacks_address, EntityType, ModelError, NewVm, Vm};

verus! {

/// One row of the VM–drive attachment table.
#[derive(Debug, Clone, Copy, PartialEq, Eq, Structural)]
pub struct AttachedDrive {
    pub vm_id: u128,
    pub drive_id: u128,
}

/// The most recently stored row with this id, if any.
pub open spec fn lookup(rows: Seq<Vm>, id: u128) -> Option<Vm>
    decreases rows.len(),
{
    if rows.len() == 0 {
        None
    } else if rows.last().id == id {
        Some(rows.last())
    } else {
        lookup(rows.drop_last(), id)
    }
}

/// Some stored row has this id.
pub open spec fn has_id(rows: Seq<Vm>, id: u128) -> bool {
    lookup(rows, id) is Some
}

/// Primary keys are unique.
pub open spec fn ids_unique(rows: Seq<Vm>) -> bool {
    forall|i: int, j: int| 0 <= i < j < rows.len() ==> rows[i].id != rows[j].id
}

/// This drive is attached to this VM.
pub open spec fn is_attached(atts: Seq<AttachedDrive>, vm_id: u128, drive_id: u128) -> bool {
    exists|i: int| 0 <= i < atts.len() && atts[i] == (AttachedDrive { vm_id, drive_id })
}

/// Each (vm, drive) pair is attached at most once.
pub open spec fn pairs_unique(atts: Seq<AttachedDrive>) -> bool {
    forall|i: int, j: int| 0 <= i < j < atts.len() ==> atts[i] != atts[j]
}

/// The drives attached to a VM, in order of attachment.
pub open spec fn drives_of(atts: Seq<AttachedDrive>, vm_id: u128) -> Seq<u128>
    decreases atts.len(),
{
    if atts.len() == 0 {
        Seq::empty()
    } else {
        let rest = drives_of(atts.drop_last(), vm_id);
        if atts.last().vm_id == vm_id {
            rest.push(atts.last().drive_id)
        } else {
            rest
        }
    }
}

/// How many times `x` occurs in `s`.
pub open spec fn count_of(s: Seq<u128>, x: u128) -> nat
    decreases s.len(),
{
    if s.len() == 0 {
        0
    } else {
        count_of(s.drop_last(), x) + if s.last() == x { 1nat } else { 0nat }
    }
}

proof fn lemma_lookup_none(rows: Seq<Vm>, id: u128)
    requires
        !has_id(rows, id),
    ensures
        forall|i: int| 0 <= i < rows.len() ==> rows[i].id != id,
    decreases rows.len(),
{
    if rows.len() > 0 {
        lemma_lookup_none(rows.drop_last(), id);
        assert forall|i: int| 0 <= i < rows.len() implies rows[i].id != id by {
            if i < rows.len() - 1 {
                assert(rows[i] == rows.drop_last()[i]);
            }
        }
    }
}

proof fn lemma_found_has_id(rows: Seq<Vm>, i: int)
    requires
        0 <= i < rows.len(),
    ensures
        has_id(rows, rows[i].id),
    decreases rows.len(),
{
    if rows.last().id != rows[i].id {
        assert(rows[i] == rows.drop_last()[i]);
        lemma_found_has_id(rows.drop_last(), i);
    }
}

proof fn lemma_absent_has_no_id(rows: Seq<Vm>, id: u128)
    requires
        forall|j: int| 0 <= j < rows.len() ==> rows[j].id != id,
    ensures
        !has_id(rows, id),
    decreases rows.len(),
{
    if rows.len() > 0 {
        assert forall|j: int| 0 <= j < rows.drop_last().len() implies rows.drop_last()[j].id
            != id by {
            assert(rows.drop_last()[j] == rows[j]);
        }
        lemma_absent_has_no_id(rows.drop_last(), id);
    }
}

proof fn lemma_unattached_count_zero(atts: Seq<AttachedDrive>, vm_id: u128, drive_id: u128)
    requires
        !is_attached(atts, vm_id, drive_id),
    ensures
        count_of(drives_of(atts, vm_id), drive_id) == 0,
    decreases atts.len(),
{
    if atts.len() > 0 {
        let rest = atts.drop_last();
        assert(!is_attached(rest, vm_id, drive_id)) by {
            if is_attached(rest, vm_id, drive_id) {
                let i = choose|i: int|
                    0 <= i < rest.len() && rest[i] == (AttachedDrive { vm_id, drive_id });
                assert(atts[i] == rest[i]);
            }
        }
        lemma_unattached_count_zero(rest, vm_id, drive_id);
        if atts.last().vm_id == vm_id {
            assert(atts[atts.len() - 1] != (AttachedDrive { vm_id, drive_id }));
            assert(drives_of(atts, vm_id).drop_last() == drives_of(rest, vm_id));
        }
    }
}

/// Reading a record back by the id that insertion reported yields the
/// normalized form of the request under that id.
pub proof fn lemma_lookup_after_insert(before: Seq<Vm>, after: Seq<Vm>, nv: NewVm, id: u128)
    requires
        after == before.push(after.last()),
        after.last().id == id,
        is_normalized_form(after.last(), nv),
    ensures
        lookup(after, id) matches Some(vm) && vm.id == id && is_normalized_form(vm, nv),
{
    assert(after.len() > 0);
}

/// Once a drive has been attached to a VM, the VM's drive list holds it
/// exactly once, and the same pair counts as attached, so attaching it again
/// is refused.
pub proof fn lemma_attach_exactly_once(atts: Seq<AttachedDrive>, vm_id: u128, drive_id: u128)
    requires
        !is_attached(atts, vm_id, drive_id),
    ensures
        count_of(drives_of(atts.push(AttachedDrive { vm_id, drive_id }), vm_id), drive_id) == 1,
        is_attached(atts.push(AttachedDrive { vm_id, drive_id }), vm_id, drive_id),
{
    let after = atts.push(AttachedDrive { vm_id, drive_id });
    lemma_unattached_count_zero(atts, vm_id, drive_id);
    assert(after.drop_last() =~= atts);
    assert(drives_of(after, vm_id).drop_last() =~= drives_of(atts, vm_id));
    assert(after[atts.len() as int] == (AttachedDrive { vm_id, drive_id }));
}

/// The VM table and the attachment table, held in memory. It enforces the
/// constraints the database enforces (unique ids, unique attachments, an
/// attachment names an existing VM) and states the repository's operations
/// exactly; the handlers answer from the results of these operations.
pub struct VmStore {
    vms: Vec<Vm>,
    attachments: Vec<AttachedDrive>,
}

impl VmStore {
    pub closed spec fn rows(&self) -> Seq<Vm> {
        self.vms@
    }

    pub closed spec fn attachments(&self) -> Seq<AttachedDrive> {
        self.attachments@
    }

    /// The table constraints: unique VM ids and unique attachments.
    pub open spec fn wf(&self) -> bool {
        &&& ids_unique(self.rows())
        &&& pairs_unique(self.attachments())
    }

    /// An empty store.
    pub fn new() -> (r: VmStore)
        ensures
            r.wf(),
            r.rows() == Seq::<Vm>::empty(),
            r.attachments() == Seq::<AttachedDrive>::empty(),
    {
        VmStore { vms: Vec::new(), attachments: Vec::new() }
    }

    fn contains_id(&self, id: u128) -> (r: bool)
        ensures
            r == has_id(self.rows(), id),
    {
        let mut i: usize = self.vms.len();
        assert(self.vms@.subrange(0, i as int) =~= self.vms@);
        while i > 0
            invariant
                i <= self.vms@.len(),
                lookup(self.vms@.subrange(0, i as int), id) == lookup(self.vms@, id),
            decreases i,
        {
            assert(self.vms@.subrange(0, i as int).drop_last() =~= self.vms@.subrange(
                0,
                i - 1,
            ));
            if self.vms[i - 1].id == id {
                return true;
            }
            i = i - 1;
        }
        false
    }

    /// The ids of the drives attached to `vm`, in order of attachment.
    pub fn drives_for_vm(&self, vm: &Vm) -> (r: Vec<u128>)
        ensures
            r@ == drives_of(self.attachments(), vm.id),
    {
        let mut r: Vec<u128> = Vec::new();
        let mut i: usize = 0;
        while i < self.attachments.len()
            invariant
                i <= self.attachments@.len(),
                r@ == drives_of(self.attachments@.subrange(0, i as int), vm.id),
            decreases self.attachments@.len() - i,
        {
            assert(self.attachments@.subrange(0, i + 1).drop_last() =~= self.attachments@.subrange(
                0,
                i as int,
            ));
            let a = self.attachments[i];
            if a.vm_id == vm.id {
                r.push(a.drive_id);
            }
            i = i + 1;
        }
        assert(self.attachments@.subrange(0, i as int) =~= self.attachments@);
        r
    }

}

impl Vm {
    /// Every VM record, in storage order.
    pub fn all(store: &VmStore) -> (r: Vec<Vm>)
        ensures
            r@ == store.rows(),
    {
        let mut r: Vec<Vm> = Vec::new();
        let mut i: usize = 0;
        while i < store.vms.len()
            invariant
                i <= store.vms@.len(),
                r@ == store.vms@.subrange(0, i as int),
            decreases store.vms@.len() - i,
        {
            r.push(store.vms[i].duplicate());
            i = i + 1;
            assert(r@ =~= store.vms@.subrange(0, i as int));
        }
        assert(store.vms@.subrange(0, i as int) =~= store.vms@);
        r
    }

    /// The VM with this id, or `NotFound`.
    pub fn by_id(id: u128, store: &VmStore) -> (r: Result<Vm, ModelError>)
        ensures
            r == match lookup(store.rows(), id) {
                Some(vm) => Ok(vm),
                None => Err(ModelError::NotFound(EntityType::Vm, id)),
            },
    {
        let mut i: usize = store.vms.len();
        assert(store.vms@.subrange(0, i as int) =~= store.vms@);
        while i > 0
            invariant
                i <= store.vms@.len(),
                lookup(store.vms@.subrange(0, i as int), id) == lookup(store.vms@, id),
            decreases i,
        {
            assert(store.vms@.subrange(0, i as int).drop_last() =~= store.vms@.subrange(
                0,
                i - 1,
            ));
            if store.vms[i - 1].id == id {
                return Ok(store.vms[i - 1].duplicate());
            }
            i = i - 1;
        }
        Err(ModelError::NotFound(EntityType::Vm, id))
    }

    /// Normalizes `nv` and stores it under the given id.
    pub fn insert_with_id(nv: &NewVm, id: u128, store: &mut VmStore) -> (r: Result<u128, ModelError>)
        requires
            old(store).wf(),
        ensures
            final(store).wf(),
            final(store).attachments() == old(store).attachments(),
            lacks_address(*nv) ==> r == Err::<u128, ModelError>(ModelError::MissingAddress),
            !lacks_address(*nv) && has_id(old(store).rows(), id) ==> r == Err::<u128, ModelError>(
                ModelError::DuplicateVm(id),
            ),
            !lacks_address(*nv) && !has_id(old(store).rows(), id) ==> r == Ok::<u128, ModelError>(
                id,
            ),
            r is Err ==> final(store).rows() == old(store).rows(),
            r is Ok ==> {
                &&& final(store).rows() == old(store).rows().push(final(store).rows().last())
                &&& final(store).rows().last().id == id
                &&& is_normalized_form(final(store).rows().last(), *nv)
            },
    {
        let vm = match Vm::from_new_with_id(nv, id) {
            Ok(vm) => vm,
            Err(e) => {
                return Err(e);
            },
        };
        if store.contains_id(id) {
            return Err(ModelError::DuplicateVm(id));
        }
        proof {
            lemma_lookup_none(store.vms@, id);
        }
        store.vms.push(vm);
        Ok(id)
    }

    /// Normalizes `nv` and stores it under a freshly generated id, which is returned.
    pub fn insert(nv: &NewVm, store: &mut VmStore) -> (r: Result<u128, ModelError>)
        requires
            old(store).wf(),
        ensures
            final(store).wf(),
            final(store).attachments() == old(store).attachments(),
            (r == Err::<u128, ModelError>(ModelError::MissingAddress)) <==> lacks_address(*nv),
            r matches Err(e) ==> e is MissingAddress || e is DuplicateVm,
            r matches Err(ModelError::DuplicateVm(id)) ==> has_id(old(store).rows(), id),
            r is Err ==> final(store).rows() == old(store).rows(),
            r matches Ok(id) ==> {
                &&& !has_id(old(store).rows(), id)
                &&& final(store).rows() == old(store).rows().push(final(store).rows().last())
                &&& final(store).rows().last().id == id
                &&& is_normalized_form(final(store).rows().last(), *nv)
            },
    {
        let id = fresh_id();
        Vm::insert_with_id(nv, id, store)
    }

    /// Replaces the stored record that has `vm`'s id; `NotFound` when there is none.
    pub fn update(vm: &Vm, store: &mut VmStore) -> (r: Result<Vm, ModelError>)
        requires
            old(store).wf(),
        ensures
            final(store).wf(),
            final(store).attachments() == old(store).attachments(),
            !has_id(old(store).rows(), vm.id) ==> r == Err::<Vm, ModelError>(
                ModelError::NotFound(EntityType::Vm, vm.id),
            ) && final(store).rows() == old(store).rows(),
            has_id(old(store).rows(), vm.id) ==> r == Ok::<Vm, ModelError>(*vm) && exists|i: int|
                0 <= i < old(store).rows().len() && old(store).rows()[i].id == vm.id
                    && final(store).rows() == old(store).rows().update(i, *vm),
    {
        let mut i: usize = 0;
        while i < store.vms.len()
            invariant
                i <= store.vms@.len(),
                store.vms@ == old(store).vms@,
                store.attachments@ == old(store).attachments@,
                store.wf(),
                forall|j: int| 0 <= j < i ==> store.vms@[j].id != vm.id,
            decreases store.vms@.len() - i,
        {
            if store.vms[i].id == vm.id {
                proof {
                    lemma_found_has_id(store.vms@, i as int);
                }
                let ghost before = store.vms@;
                store.vms.set(i, vm.duplicate());
                assert(ids_unique(store.vms@)) by {
                    assert forall|a: int, b: int| 0 <= a < b < store.vms@.len() implies store.vms@[a].id
                        != store.vms@[b].id by {
                        assert(before[a].id != before[b].id);
                    }
                }
                assert(store.vms@ == before.update(i as int, *vm));
                return Ok(vm.duplicate());
            }
            i = i + 1;
        }
        proof {
            lemma_absent_has_no_id(store.vms@, vm.id);
        }
        Err(ModelError::NotFound(EntityType::Vm, vm.id))
    }

    /// Records that a drive is attached to a VM. Fails when the VM does not
    /// exist or when the pair is already attached.
    pub fn attach_drive(vm_id: u128, drive_id: u128, store: &mut VmStore) -> (r: Result<(), ModelError>)
        requires
            old(store).wf(),
        ensures
            final(store).wf(),
            final(store).rows() == old(store).rows(),
            !has_id(old(store).rows(), vm_id) ==> r == Err::<(), ModelError>(
                ModelError::NotFound(EntityType::Vm, vm_id),
            ),
            has_id(old(store).rows(), vm_id) && is_attached(old(store).attachments(), vm_id, drive_id)
                ==> r == Err::<(), ModelError>(ModelError::DuplicateAttachment(vm_id, drive_id)),
            has_id(old(store).rows(), vm_id) && !is_attached(
                old(store).attachments(),
                vm_id,
                drive_id,
            ) ==> r == Ok::<(), ModelError>(()),
            r is Err ==> final(store).attachments() == old(store).attachments(),
            r is Ok ==> final(store).attachments() == old(store).attachments().push(
                AttachedDrive { vm_id, drive_id },
            ),
    {
        if !store.contains_id(vm_id) {
            return Err(ModelError::NotFound(EntityType::Vm, vm_id));
        }
        let pair = AttachedDrive { vm_id, drive_id };
        let mut i: usize = 0;
        while i < store.attachments.len()
            invariant
                i <= store.attachments@.len(),
                store.vms@ == old(store).vms@,
                store.attachments@ == old(store).attachments@,
                store.wf(),
                has_id(store.vms@, vm_id),
                pair == (AttachedDrive { vm_id, drive_id }),
                forall|j: int| 0 <= j < i ==> store.attachments@[j] != pair,
            decreases store.attachments@.len() - i,
        {
            if store.attachments[i] == pair {
                return Err(ModelError::DuplicateAttachment(vm_id, drive_id));
            }
            i = i + 1;
        }
        store.attachments.push(pair);
        Ok(())
    }

    /// Removes every VM record, and with them every attachment; returns how
    /// many records were removed.
    pub fn delete_all(store: &mut VmStore) -> (r: usize)
        requires
            old(store).wf(),
        ensures
            final(store).wf(),
            r == old(store).rows().len(),
            final(store).rows() == Seq::<Vm>::empty(),
            final(store).attachments() == Seq::<AttachedDrive>::empty(),
    {
        let n = store.vms.len();
        store.vms = Vec::new();
        store.attachments = Vec::new();
        n
    }
}

} // verus!
