//! The object buffer of one transaction: the objects it read, the objects it
//! writes, and the native-asset totals that conservation compares.
use vstd::prelude::*;
use crate::effects::{ExecutionStatus, GasCostSummary, SharedObjectRef, TransactionEffects};
use crate::error::{ExecutionError, ExecutionErrorKind, FatalError, ObjectId, TransactionDigest};
use crate::system_tx::{AdvanceEpochParams, SUI_SYSTEM_STATE_OBJECT_ID};
use crate::transaction::Owner;

verus! {

/// Most objects one transaction may read, write or delete.
pub const MAX_OBJECTS: usize = 0x4000_0000;

/// An object: its identity and version, its owner, the native asset it holds
/// (its balance, and the storage rebate set aside for it) and the size of its
/// contents, which execution only measures.
#[derive(Debug, Clone, Copy, PartialEq, Eq, Structural)]
pub struct ObjectRecord {
    pub id: ObjectId,
    pub version: u64,
    pub owner: Owner,
    pub balance: u64,
    pub storage_rebate: u64,
    pub previous_transaction: TransactionDigest,
    pub is_package: bool,
    pub size: u64,
}

/// An object that a transaction reads, and whether it may change it.
#[derive(Debug, Clone, Copy, PartialEq, Eq, Structural)]
pub struct InputObject {
    pub object: ObjectRecord,
    pub mutable: bool,
}

/// What a program run asks to change: objects to write (created or
/// mutated), objects to delete, and the computation it consumed.
#[derive(Debug)]
pub struct ProgramEffects {
    pub written: Vec<ObjectRecord>,
    pub deleted: Vec<ObjectId>,
    pub computation_cost: u64,
}

/// The objects that a transaction may change.
pub open spec fn mutable_objects(inputs: Seq<InputObject>) -> Seq<ObjectRecord>
    decreases inputs.len(),
{
    if inputs.len() == 0 {
        Seq::empty()
    } else {
        let rest = mutable_objects(inputs.drop_last());
        if inputs.last().mutable {
            rest.push(inputs.last().object)
        } else {
            rest
        }
    }
}

/// The shared objects among `inputs`, at their versions.
pub open spec fn shared_refs(inputs: Seq<InputObject>) -> Seq<SharedObjectRef>
    decreases inputs.len(),
{
    if inputs.len() == 0 {
        Seq::empty()
    } else {
        let rest = shared_refs(inputs.drop_last());
        let o = inputs.last().object;
        if o.owner is Shared {
            rest.push(SharedObjectRef { id: o.id, version: o.version })
        } else {
            rest
        }
    }
}

pub open spec fn sum_balances(s: Seq<ObjectRecord>) -> int
    decreases s.len(),
{
    if s.len() == 0 {
        0
    } else {
        sum_balances(s.drop_last()) + s.last().balance
    }
}

pub open spec fn sum_rebates(s: Seq<ObjectRecord>) -> int
    decreases s.len(),
{
    if s.len() == 0 {
        0
    } else {
        sum_rebates(s.drop_last()) + s.last().storage_rebate
    }
}

pub open spec fn max_version(inputs: Seq<InputObject>) -> int
    decreases inputs.len(),
{
    if inputs.len() == 0 {
        0
    } else {
        let rest = max_version(inputs.drop_last());
        if inputs.last().object.version > rest {
            inputs.last().object.version as int
        } else {
            rest
        }
    }
}

pub(crate) proof fn lemma_mutable_objects_len(inputs: Seq<InputObject>)
    ensures
        mutable_objects(inputs).len() <= inputs.len(),
    decreases inputs.len(),
{
    if inputs.len() > 0 {
        lemma_mutable_objects_len(inputs.drop_last());
    }
}

proof fn lemma_max_version(inputs: Seq<InputObject>)
    ensures
        forall|i: int| 0 <= i < inputs.len() ==> (#[trigger] inputs[i]).object.version <= max_version(inputs),
        0 <= max_version(inputs) <= u64::MAX,
    decreases inputs.len(),
{
    if inputs.len() > 0 {
        lemma_max_version(inputs.drop_last());
        assert forall|i: int| 0 <= i < inputs.len() implies (#[trigger] inputs[i]).object.version
            <= max_version(inputs) by {
            if i < inputs.len() - 1 {
                assert(inputs[i] == inputs.drop_last()[i]);
            }
        }
    }
}

pub open spec fn sum_sizes(s: Seq<ObjectRecord>) -> int
    decreases s.len(),
{
    if s.len() == 0 {
        0
    } else {
        sum_sizes(s.drop_last()) + s.last().size
    }
}

pub proof fn lemma_sums_nonneg(s: Seq<ObjectRecord>)
    ensures
        sum_balances(s) >= 0,
        sum_rebates(s) >= 0,
        sum_sizes(s) >= 0,
    decreases s.len(),
{
    if s.len() > 0 {
        lemma_sums_nonneg(s.drop_last());
    }
}

/// Each object that a transaction may change is a changeable input.
pub proof fn lemma_mutable_objects_are_inputs(inputs: Seq<InputObject>)
    ensures
        forall|k: int|
            0 <= k < mutable_objects(inputs).len() ==> exists|j: int|
                0 <= j < inputs.len() && inputs[j].mutable && inputs[j].object == #[trigger] mutable_objects(
                    inputs,
                )[k],
    decreases inputs.len(),
{
    if inputs.len() > 0 {
        let rest = inputs.drop_last();
        lemma_mutable_objects_are_inputs(rest);
        assert forall|k: int| 0 <= k < mutable_objects(inputs).len() implies exists|j: int|
            0 <= j < inputs.len() && inputs[j].mutable && inputs[j].object == #[trigger] mutable_objects(inputs)[k] by {
            if k < mutable_objects(rest).len() {
                assert(mutable_objects(rest)[k] == mutable_objects(rest)[k]);
                let j = choose|j: int|
                    0 <= j < rest.len() && rest[j].mutable && rest[j].object == mutable_objects(rest)[k];
                assert(inputs[j] == rest[j]);
                assert(mutable_objects(inputs)[k] == mutable_objects(rest)[k]);
            } else {
                assert(inputs[inputs.len() - 1] == inputs.last());
            }
        }
    }
}

/// Input objects with distinct identifiers.
pub open spec fn distinct_input_ids(inputs: Seq<InputObject>) -> bool {
    forall|a: int, b: int|
        0 <= a < inputs.len() && 0 <= b < inputs.len() && a != b ==> (#[trigger] inputs[a]).object.id
            != (#[trigger] inputs[b]).object.id
}

/// Replacing one object changes each sum by the difference.
pub proof fn lemma_sums_update(s: Seq<ObjectRecord>, i: int, o: ObjectRecord)
    requires
        0 <= i < s.len(),
    ensures
        sum_balances(s.update(i, o)) == sum_balances(s) - s[i].balance + o.balance,
        sum_rebates(s.update(i, o)) == sum_rebates(s) - s[i].storage_rebate + o.storage_rebate,
    decreases s.len(),
{
    let t = s.update(i, o);
    if i == s.len() - 1 {
        assert(t.drop_last() =~= s.drop_last());
    } else {
        lemma_sums_update(s.drop_last(), i, o);
        assert(t.drop_last() =~= s.drop_last().update(i, o));
    }
}

/// Bytes of effects that every transaction has.
pub const EFFECTS_BASE_SIZE_BYTES: u64 = 1000;

/// Bytes of effects that each changed or deleted object adds.
pub const EFFECTS_PER_OBJECT_SIZE_BYTES: u64 = 200;

/// Where the identifier `id` is among `ids`.
pub fn contains_id(ids: &Vec<u64>, id: u64) -> (r: bool)
    ensures
        r == ids@.contains(id),
{
    let mut i: usize = 0;
    while i < ids.len()
        invariant
            i <= ids@.len(),
            forall|j: int| 0 <= j < i ==> ids@[j] != id,
        decreases ids@.len() - i,
    {
        if ids[i] == id {
            assert(ids@[i as int] == id);
            return true;
        }
        i = i + 1;
    }
    false
}

pub fn total_balances(s: &Vec<ObjectRecord>) -> (r: u128)
    requires
        s@.len() <= MAX_OBJECTS,
    ensures
        r == sum_balances(s@),
        r <= MAX_OBJECTS * 0x1_0000_0000_0000_0000,
{
    let mut acc: u128 = 0;
    let mut i: usize = 0;
    while i < s.len()
        invariant
            i <= s@.len() <= MAX_OBJECTS,
            acc == sum_balances(s@.take(i as int)),
            acc <= i * 0x1_0000_0000_0000_0000,
        decreases s@.len() - i,
    {
        assert(s@.take(i + 1).drop_last() =~= s@.take(i as int));
        acc = acc + s[i].balance as u128;
        i = i + 1;
    }
    assert(s@.take(s@.len() as int) =~= s@);
    acc
}

pub fn total_rebates(s: &Vec<ObjectRecord>) -> (r: u128)
    requires
        s@.len() <= MAX_OBJECTS,
    ensures
        r == sum_rebates(s@),
        r <= MAX_OBJECTS * 0x1_0000_0000_0000_0000,
{
    let mut acc: u128 = 0;
    let mut i: usize = 0;
    while i < s.len()
        invariant
            i <= s@.len() <= MAX_OBJECTS,
            acc == sum_rebates(s@.take(i as int)),
            acc <= i * 0x1_0000_0000_0000_0000,
        decreases s@.len() - i,
    {
        assert(s@.take(i + 1).drop_last() =~= s@.take(i as int));
        acc = acc + s[i].storage_rebate as u128;
        i = i + 1;
    }
    assert(s@.take(s@.len() as int) =~= s@);
    acc
}

pub fn total_sizes(s: &Vec<ObjectRecord>) -> (r: u128)
    requires
        s@.len() <= MAX_OBJECTS,
    ensures
        r == sum_sizes(s@),
        r <= MAX_OBJECTS * 0x1_0000_0000_0000_0000,
{
    let mut acc: u128 = 0;
    let mut i: usize = 0;
    while i < s.len()
        invariant
            i <= s@.len() <= MAX_OBJECTS,
            acc == sum_sizes(s@.take(i as int)),
            acc <= i * 0x1_0000_0000_0000_0000,
        decreases s@.len() - i,
    {
        assert(s@.take(i + 1).drop_last() =~= s@.take(i as int));
        acc = acc + s[i].size as u128;
        i = i + 1;
    }
    assert(s@.take(s@.len() as int) =~= s@);
    acc
}

/// The minted and the burned amounts of an epoch change, or nothing.
pub open spec fn minted_of(adjustment: Option<(u128, u128)>) -> int {
    match adjustment {
        Some((minted, _)) => minted as int,
        None => 0,
    }
}

pub open spec fn burned_of(adjustment: Option<(u128, u128)>) -> int {
    match adjustment {
        Some((_, burned)) => burned as int,
        None => 0,
    }
}

/// The object as effects record it: Move objects take the transaction's
/// version, an upgraded system package one version more, any other package
/// keeps its own; every object names this transaction as its last.
pub open spec fn finalized(o: ObjectRecord, lamport_version: u64, digest: TransactionDigest, upgraded: Seq<ObjectId>) -> ObjectRecord {
    ObjectRecord {
        version: if !o.is_package {
            lamport_version
        } else if upgraded.contains(o.id) && o.version < u64::MAX {
            (o.version + 1) as u64
        } else {
            o.version
        },
        previous_transaction: digest,
        ..o
    }
}

/// Finalising versions changes no sum.
pub proof fn lemma_finalized_sums(
    s: Seq<ObjectRecord>,
    t: Seq<ObjectRecord>,
    lamport_version: u64,
    digest: TransactionDigest,
    upgraded: Seq<ObjectId>,
)
    requires
        t.len() == s.len(),
        forall|k: int| 0 <= k < s.len() ==> #[trigger] t[k] == finalized(s[k], lamport_version, digest, upgraded),
    ensures
        sum_balances(t) == sum_balances(s),
        sum_rebates(t) == sum_rebates(s),
    decreases s.len(),
{
    if s.len() > 0 {
        assert forall|k: int| 0 <= k < s.drop_last().len() implies #[trigger] t.drop_last()[k] == finalized(
            s.drop_last()[k],
            lamport_version,
            digest,
            upgraded,
        ) by {
            assert(t.drop_last()[k] == t[k]);
        }
        lemma_finalized_sums(s.drop_last(), t.drop_last(), lamport_version, digest, upgraded);
        assert(t.last() == t[t.len() - 1]);
    }
}

/// The balance of a system state that can take a safe-mode epoch advance:
/// plus the minted rewards, minus the burned rebates, it stays a `u64`.
pub open spec fn safe_mode_balance_ok(balance: u64, params: AdvanceEpochParams) -> bool {
    let after = balance + params.storage_charge + params.computation_charge - params.storage_rebate;
    0 <= after <= u64::MAX
}

/// The system state is among `objects`, and each copy of it can take a
/// safe-mode epoch advance.
pub open spec fn safe_mode_possible(objects: Seq<ObjectRecord>, params: AdvanceEpochParams) -> bool {
    &&& exists|j: int| 0 <= j < objects.len() && (#[trigger] objects[j]).id == SUI_SYSTEM_STATE_OBJECT_ID
    &&& forall|j: int|
        0 <= j < objects.len() && (#[trigger] objects[j]).id == SUI_SYSTEM_STATE_OBJECT_ID ==> safe_mode_balance_ok(
            objects[j].balance,
            params,
        )
}

/// The buffer of one transaction. Writes go to `written`, which starts as
/// (and on a discard returns to) the objects the transaction may change.
pub struct TemporaryStore {
    pub inputs: Vec<InputObject>,
    pub written: Vec<ObjectRecord>,
    pub deleted: Vec<ObjectId>,
    /// System packages replaced in place; they get one version more.
    pub upgraded_packages: Vec<ObjectId>,
    pub tx_digest: TransactionDigest,
    pub epoch: u64,
    /// The version that every written object gets: one more than any input.
    pub lamport_version: u64,
    /// The parameters of an epoch advanced directly in safe mode.
    pub safe_mode_advance: Option<AdvanceEpochParams>,
}

impl TemporaryStore {
    pub open spec fn wf(&self) -> bool {
        &&& self.inputs@.len() <= MAX_OBJECTS
        &&& self.written@.len() <= MAX_OBJECTS
        &&& self.deleted@.len() <= MAX_OBJECTS
        &&& self.upgraded_packages@.len() <= MAX_OBJECTS
        &&& forall|i: int|
            0 <= i < self.inputs@.len() ==> (#[trigger] self.inputs@[i]).object.version
                < self.lamport_version
    }

    pub open spec fn input_balances(&self) -> int {
        sum_balances(mutable_objects(self.inputs@))
    }

    pub open spec fn input_rebates(&self) -> int {
        sum_rebates(mutable_objects(self.inputs@))
    }

    pub open spec fn output_balances(&self) -> int {
        sum_balances(self.written@)
    }

    pub open spec fn output_rebates(&self) -> int {
        sum_rebates(self.written@)
    }

    /// The writes are the objects the transaction may change, one for one
    /// and in order (their contents may differ).
    pub open spec fn writes_match_changeable(&self) -> bool {
        let m = mutable_objects(self.inputs@);
        &&& self.written@.len() == m.len()
        &&& forall|k: int| 0 <= k < m.len() ==> (#[trigger] self.written@[k]).id == m[k].id
    }

    /// Writes that match the changeable inputs, among distinct inputs, write
    /// no read-only input.
    pub proof fn lemma_matching_writes_respect_ownership(&self)
        requires
            self.writes_match_changeable(),
            distinct_input_ids(self.inputs@),
        ensures
            self.ownership_respected(),
    {
        lemma_mutable_objects_are_inputs(self.inputs@);
        let m = mutable_objects(self.inputs@);
        assert forall|i: int, j: int|
            0 <= i < self.written@.len() && 0 <= j < self.inputs@.len() && (#[trigger] self.written@[i]).id
                == (#[trigger] self.inputs@[j]).object.id implies self.inputs@[j].mutable by {
            assert(m[i] == m[i]);
            let jj = choose|jj: int|
                0 <= jj < self.inputs@.len() && self.inputs@[jj].mutable && self.inputs@[jj].object == m[i];
            if jj != j {
                assert(self.inputs@[jj].object.id != self.inputs@[j].object.id);
            }
        }
    }

    /// Only the buffered writes differ between the two.
    pub open spec fn same_frame(&self, other: &TemporaryStore) -> bool {
        &&& self.inputs@ == other.inputs@
        &&& self.tx_digest == other.tx_digest
        &&& self.epoch == other.epoch
        &&& self.lamport_version == other.lamport_version
    }

    pub(crate) fn copy_mutable_inputs(inputs: &Vec<InputObject>) -> (r: Vec<ObjectRecord>)
        ensures
            r@ == mutable_objects(inputs@),
    {
        let mut r: Vec<ObjectRecord> = Vec::new();
        let mut i: usize = 0;
        while i < inputs.len()
            invariant
                i <= inputs@.len(),
                r@ == mutable_objects(inputs@.take(i as int)),
            decreases inputs@.len() - i,
        {
            assert(inputs@.take(i + 1).drop_last() =~= inputs@.take(i as int));
            if inputs[i].mutable {
                r.push(inputs[i].object);
            }
            i = i + 1;
        }
        assert(inputs@.take(inputs@.len() as int) =~= inputs@);
        r
    }

    /// A buffer over `inputs`. It fails where an input already has the
    /// largest version, leaving no later version to give.
    pub fn new(inputs: Vec<InputObject>, tx_digest: TransactionDigest, epoch: u64) -> (r: Option<
        TemporaryStore,
    >)
        requires
            inputs@.len() <= MAX_OBJECTS,
        ensures
            r is Some <==> max_version(inputs@) < u64::MAX,
            r is None ==> max_version(inputs@) == u64::MAX,
            r is Some ==> {
                let s = r->Some_0;
                &&& s.wf()
                &&& s.inputs@ == inputs@
                &&& s.written@ == mutable_objects(inputs@)
                &&& s.deleted@.len() == 0
                &&& s.upgraded_packages@.len() == 0
                &&& s.tx_digest == tx_digest
                &&& s.epoch == epoch
                &&& s.lamport_version == max_version(inputs@) + 1
                &&& s.safe_mode_advance is None
            },
    {
        let mut max: u64 = 0;
        let mut i: usize = 0;
        while i < inputs.len()
            invariant
                i <= inputs@.len(),
                max == max_version(inputs@.take(i as int)),
            decreases inputs@.len() - i,
        {
            assert(inputs@.take(i + 1).drop_last() =~= inputs@.take(i as int));
            if inputs[i].object.version > max {
                max = inputs[i].object.version;
            }
            i = i + 1;
        }
        assert(inputs@.take(inputs@.len() as int) =~= inputs@);
        if max == u64::MAX {
            return None;
        }
        proof {
            lemma_max_version(inputs@);
            lemma_mutable_objects_len(inputs@);
        }
        let written = Self::copy_mutable_inputs(&inputs);
        Some(
            TemporaryStore {
                inputs,
                written,
                deleted: Vec::new(),
                upgraded_packages: Vec::new(),
                tx_digest,
                epoch,
                lamport_version: max + 1,
                safe_mode_advance: None,
            },
        )
    }

    /// Discards every buffered write.
    pub fn drop_writes(&mut self)
        requires
            old(self).wf(),
        ensures
            final(self).wf(),
            final(self).same_frame(old(self)),
            final(self).written@ == mutable_objects(old(self).inputs@),
            final(self).deleted@.len() == 0,
            final(self).upgraded_packages@.len() == 0,
            final(self).safe_mode_advance is None,
    {
        proof {
            lemma_mutable_objects_len(self.inputs@);
        }
        self.written = Self::copy_mutable_inputs(&self.inputs);
        self.deleted = Vec::new();
        self.upgraded_packages = Vec::new();
        self.safe_mode_advance = None;
    }

    /// Index of the written object `id`, if it is written.
    pub fn find_written(&self, id: ObjectId) -> (r: Option<usize>)
        ensures
            r is Some ==> r->Some_0 < self.written@.len() && self.written@[r->Some_0 as int].id == id,
            r is None ==> forall|j: int| 0 <= j < self.written@.len() ==> (#[trigger] self.written@[j]).id != id,
    {
        let mut i: usize = 0;
        while i < self.written.len()
            invariant
                i <= self.written@.len(),
                forall|j: int| 0 <= j < i ==> (#[trigger] self.written@[j]).id != id,
            decreases self.written@.len() - i,
        {
            if self.written[i].id == id {
                return Some(i);
            }
            i = i + 1;
        }
        None
    }

    /// Writes `object`, replacing the written object with its identifier if
    /// there is one. It fails only where the buffer is full.
    pub fn write_object(&mut self, object: ObjectRecord) -> (r: Result<(), ExecutionError>)
        requires
            old(self).wf(),
        ensures
            final(self).wf(),
            final(self).same_frame(old(self)),
            final(self).deleted@ == old(self).deleted@,
            final(self).upgraded_packages@ == old(self).upgraded_packages@,
            final(self).safe_mode_advance == old(self).safe_mode_advance,
            r is Err ==> final(self).written@ == old(self).written@,
            r is Ok ==> (forall|j: int| 0 <= j < old(self).written@.len() ==> (#[trigger] old(self).written@[j]).id != object.id)
                ==> final(self).written@ == old(self).written@.push(object),
            r is Ok ==> (exists|j: int| 0 <= j < old(self).written@.len() && (#[trigger] old(self).written@[j]).id == object.id)
                ==> exists|j: int| 0 <= j < old(self).written@.len() && (#[trigger] old(self).written@[j]).id == object.id
                    && final(self).written@ == old(self).written@.update(j, object),
            old(self).written@.len() < MAX_OBJECTS ==> r is Ok,
            r is Ok ==> exists|j: int| 0 <= j < final(self).written@.len() && #[trigger] final(self).written@[j] == object,
            final(self).written@.len() >= old(self).written@.len(),
            forall|j: int|
                0 <= j < old(self).written@.len() && (#[trigger] old(self).written@[j]).id != object.id
                    ==> final(self).written@[j] == old(self).written@[j],
    {
        match self.find_written(object.id) {
            Some(i) => {
                self.written.set(i, object);
                assert(self.written@[i as int] == object);
                Ok(())
            },
            None => {
                if self.written.len() >= MAX_OBJECTS {
                    return Err(ExecutionError::new(ExecutionErrorKind::InvariantViolation));
                }
                self.written.push(object);
                assert(self.written@[self.written@.len() - 1] == object);
                Ok(())
            },
        }
    }

    /// Creates an object; creation is a write.
    pub fn create_object(&mut self, object: ObjectRecord) -> (r: Result<(), ExecutionError>)
        requires
            old(self).wf(),
        ensures
            final(self).wf(),
            final(self).same_frame(old(self)),
            final(self).deleted@ == old(self).deleted@,
            final(self).upgraded_packages@ == old(self).upgraded_packages@,
            r is Err ==> final(self).written@ == old(self).written@,
            r is Ok ==> (forall|j: int| 0 <= j < old(self).written@.len() ==> (#[trigger] old(self).written@[j]).id != object.id)
                ==> final(self).written@ == old(self).written@.push(object),
            old(self).written@.len() < MAX_OBJECTS ==> r is Ok,
    {
        self.write_object(object)
    }

    /// Deletes every written object `id` and records the deletion. It fails
    /// only where the record of deletions is full.
    pub fn delete_object(&mut self, id: ObjectId) -> (r: Result<(), ExecutionError>)
        requires
            old(self).wf(),
        ensures
            final(self).wf(),
            final(self).same_frame(old(self)),
            final(self).upgraded_packages@ == old(self).upgraded_packages@,
            final(self).safe_mode_advance == old(self).safe_mode_advance,
            r is Err ==> final(self).written@ == old(self).written@ && final(self).deleted@ == old(self).deleted@,
            r is Ok ==> final(self).deleted@ == old(self).deleted@.push(id),
            r is Ok ==> forall|o: ObjectRecord| #[trigger] final(self).written@.contains(o) <==> old(self).written@.contains(o)
                && o.id != id,
            old(self).deleted@.len() < MAX_OBJECTS ==> r is Ok,
    {
        if self.deleted.len() >= MAX_OBJECTS {
            return Err(ExecutionError::new(ExecutionErrorKind::InvariantViolation));
        }
        let mut kept: Vec<ObjectRecord> = Vec::new();
        let mut i: usize = 0;
        while i < self.written.len()
            invariant
                i <= self.written@.len(),
                kept@.len() <= i,
                forall|o: ObjectRecord| #[trigger] kept@.contains(o) <==> self.written@.take(i as int).contains(o)
                    && o.id != id,
            decreases self.written@.len() - i,
        {
            let o = self.written[i];
            let ghost before = kept@;
            if o.id != id {
                kept.push(o);
            }
            proof {
                assert(self.written@.take(i + 1) =~= self.written@.take(i as int).push(o));
                assert forall|x: ObjectRecord| #[trigger] kept@.contains(x) <==> self.written@.take(i + 1).contains(x)
                    && x.id != id by {
                    if kept@.contains(x) {
                        if before.contains(x) {
                            assert(self.written@.take(i as int).contains(x));
                            let k = choose|k: int| 0 <= k < i && #[trigger] self.written@.take(i as int)[k] == x;
                            assert(self.written@.take(i + 1)[k] == x);
                        } else {
                            let k = choose|k: int| 0 <= k < kept@.len() && #[trigger] kept@[k] == x;
                            assert(k == before.len());
                            assert(x == o);
                            assert(self.written@.take(i + 1)[i as int] == x);
                        }
                    }
                    if self.written@.take(i + 1).contains(x) && x.id != id {
                        let k = choose|k: int| 0 <= k < i + 1 && #[trigger] self.written@.take(i + 1)[k] == x;
                        if k < i {
                            assert(self.written@.take(i as int)[k] == x);
                            assert(before.contains(x));
                            let m = choose|m: int| 0 <= m < before.len() && #[trigger] before[m] == x;
                            assert(kept@[m] == x);
                        } else {
                            assert(kept@[kept@.len() - 1] == x);
                        }
                    }
                }
            }
            i = i + 1;
        }
        assert(self.written@.take(self.written@.len() as int) =~= self.written@);
        self.written = kept;
        self.deleted.push(id);
        Ok(())
    }

    /// Applies what a program run asked for: every write, then every
    /// deletion. After it each deleted identifier is gone from the writes, and
    /// the last write of every identifier not deleted is among them.
    pub fn apply_effects(&mut self, effects: ProgramEffects) -> (r: Result<(), ExecutionError>)
        requires
            old(self).wf(),
        ensures
            final(self).wf(),
            final(self).same_frame(old(self)),
            final(self).upgraded_packages@ == old(self).upgraded_packages@,
            final(self).safe_mode_advance == old(self).safe_mode_advance,
            r is Ok ==> final(self).deleted@ == old(self).deleted@ + effects.deleted@,
            r is Ok ==> forall|o: ObjectRecord, d: ObjectId|
                #[trigger] final(self).written@.contains(o) && #[trigger] effects.deleted@.contains(d) ==> o.id != d,
            r is Ok ==> forall|k: int|
                0 <= k < effects.written@.len() && !effects.deleted@.contains((#[trigger] effects.written@[k]).id)
                    && (forall|m: int| k < m < effects.written@.len() ==> effects.written@[m].id != effects.written@[k].id)
                    ==> final(self).written@.contains(effects.written@[k]),
    {
        let ProgramEffects { written, deleted, .. } = effects;
        let mut i: usize = 0;
        while i < written.len()
            invariant
                self.wf(),
                self.same_frame(old(self)),
                self.upgraded_packages@ == old(self).upgraded_packages@,
                self.safe_mode_advance == old(self).safe_mode_advance,
                self.deleted@ == old(self).deleted@,
                i <= written@.len(),
                forall|k: int|
                    0 <= k < i && (forall|m: int| k < m < written@.len() ==> written@[m].id != written@[k].id)
                        ==> self.written@.contains(#[trigger] written@[k]),
            decreases written@.len() - i,
        {
            let o = written[i];
            let ghost before = self.written@;
            match self.write_object(o) {
                Ok(()) => {},
                Err(e) => {
                    return Err(e);
                },
            }
            proof {
                assert forall|k: int|
                    0 <= k < i + 1 && (forall|m: int| k < m < written@.len() ==> written@[m].id != written@[k].id)
                        implies self.written@.contains(#[trigger] written@[k]) by {
                    if k < i {
                        assert(written@[i as int].id != written@[k].id);
                        let j = choose|j: int| 0 <= j < before.len() && #[trigger] before[j] == written@[k];
                        assert(self.written@[j] == before[j]);
                    } else {
                        let j = choose|j: int| 0 <= j < self.written@.len() && #[trigger] self.written@[j] == o;
                        assert(self.written@[j] == written@[k]);
                    }
                }
            }
            i = i + 1;
        }
        let mut n: usize = 0;
        while n < deleted.len()
            invariant
                self.wf(),
                self.same_frame(old(self)),
                self.upgraded_packages@ == old(self).upgraded_packages@,
                self.safe_mode_advance == old(self).safe_mode_advance,
                n <= deleted@.len(),
                self.deleted@ == old(self).deleted@ + deleted@.take(n as int),
                forall|o: ObjectRecord, d: ObjectId|
                    #[trigger] self.written@.contains(o) && #[trigger] deleted@.take(n as int).contains(d) ==> o.id != d,
                forall|k: int|
                    0 <= k < written@.len() && !deleted@.take(n as int).contains((#[trigger] written@[k]).id)
                        && (forall|m: int| k < m < written@.len() ==> written@[m].id != written@[k].id)
                        ==> self.written@.contains(written@[k]),
            decreases deleted@.len() - n,
        {
            let d = deleted[n];
            let ghost before = self.written@;
            match self.delete_object(d) {
                Ok(()) => {},
                Err(e) => {
                    return Err(e);
                },
            }
            proof {
                assert(deleted@.take(n + 1) =~= deleted@.take(n as int).push(d));
                assert(self.deleted@ =~= old(self).deleted@ + deleted@.take(n + 1));
                assert forall|o: ObjectRecord, x: ObjectId|
                    #[trigger] self.written@.contains(o) && #[trigger] deleted@.take(n + 1).contains(x) implies o.id != x by {
                    if x != d {
                        let k = choose|k: int| 0 <= k < n + 1 && #[trigger] deleted@.take(n + 1)[k] == x;
                        assert(deleted@.take(n as int)[k] == x);
                        assert(deleted@.take(n as int).contains(x));
                        assert(before.contains(o));
                    }
                }
                assert forall|k: int|
                    0 <= k < written@.len() && !deleted@.take(n + 1).contains((#[trigger] written@[k]).id)
                        && (forall|m: int| k < m < written@.len() ==> written@[m].id != written@[k].id)
                        implies self.written@.contains(written@[k]) by {
                    assert(deleted@.take(n + 1)[n as int] == d);
                    assert(written@[k].id != d);
                    if deleted@.take(n as int).contains(written@[k].id) {
                        let m = choose|m: int| 0 <= m < n && #[trigger] deleted@.take(n as int)[m] == written@[k].id;
                        assert(deleted@.take(n + 1)[m] == written@[k].id);
                    }
                    assert(before.contains(written@[k]));
                }
            }
            n = n + 1;
        }
        assert(deleted@.take(deleted@.len() as int) =~= deleted@);
        Ok(())
    }
}

impl TemporaryStore {
    /// The cheap check: storage rebates of the changed objects flow only
    /// into the declared storage fields of the gas costs.
    pub open spec fn rebates_conserved(&self, s: GasCostSummary) -> bool {
        self.input_rebates() + s.storage_cost == self.output_rebates() + s.storage_rebate
            + s.non_refundable_storage_fee
    }

    /// The full check: the native asset of the changed objects, plus what an
    /// epoch change mints, equals what they hold afterwards, plus what it
    /// burns, plus the computation and the non-refundable fee paid.
    pub open spec fn value_conserved(&self, s: GasCostSummary, adjustment: Option<(u128, u128)>) -> bool {
        self.input_balances() + self.input_rebates() + minted_of(adjustment) == self.output_balances()
            + self.output_rebates() + burned_of(adjustment) + s.computation_cost
            + s.non_refundable_storage_fee
    }

    pub fn check_sui_conserved(&self, s: &GasCostSummary) -> (r: Result<(), ExecutionError>)
        requires
            self.wf(),
        ensures
            r is Ok <==> self.rebates_conserved(*s),
            r is Err ==> r->Err_0.kind == ExecutionErrorKind::InvariantViolation,
    {
        proof {
            lemma_mutable_objects_len(self.inputs@);
        }
        let changed = Self::copy_mutable_inputs(&self.inputs);
        let input_rebates = total_rebates(&changed);
        let output_rebates = total_rebates(&self.written);
        if input_rebates + s.storage_cost as u128 == output_rebates + s.storage_rebate as u128
            + s.non_refundable_storage_fee as u128 {
            Ok(())
        } else {
            Err(ExecutionError::new(ExecutionErrorKind::InvariantViolation))
        }
    }

    pub fn check_sui_conserved_expensive(&self, s: &GasCostSummary, adjustment: Option<(u128, u128)>) -> (r:
        Result<(), ExecutionError>)
        requires
            self.wf(),
        ensures
            r is Ok <==> self.value_conserved(*s, adjustment),
            r is Err ==> r->Err_0.kind == ExecutionErrorKind::InvariantViolation,
    {
        proof {
            lemma_mutable_objects_len(self.inputs@);
        }
        let changed = Self::copy_mutable_inputs(&self.inputs);
        let (minted, burned): (u128, u128) = match adjustment {
            Some((m, b)) => (m, b),
            None => (0, 0),
        };
        let before = total_balances(&changed) + total_rebates(&changed);
        let after = total_balances(&self.written) + total_rebates(&self.written)
            + s.computation_cost as u128 + s.non_refundable_storage_fee as u128;
        let holds = if before >= after {
            burned >= minted && burned - minted == before - after
        } else {
            minted >= burned && minted - burned == after - before
        };
        if holds {
            Ok(())
        } else {
            Err(ExecutionError::new(ExecutionErrorKind::InvariantViolation))
        }
    }

    /// No read-only input was written.
    pub open spec fn ownership_respected(&self) -> bool {
        forall|i: int, j: int|
            0 <= i < self.written@.len() && 0 <= j < self.inputs@.len() && (#[trigger] self.written@[i]).id
                == (#[trigger] self.inputs@[j]).object.id ==> self.inputs@[j].mutable
    }

    fn is_read_only_input(&self, id: ObjectId) -> (r: bool)
        ensures
            r == exists|j: int|
                0 <= j < self.inputs@.len() && (#[trigger] self.inputs@[j]).object.id == id
                    && !self.inputs@[j].mutable,
    {
        let mut j: usize = 0;
        while j < self.inputs.len()
            invariant
                j <= self.inputs@.len(),
                forall|k: int|
                    0 <= k < j ==> !((#[trigger] self.inputs@[k]).object.id == id && !self.inputs@[k].mutable),
            decreases self.inputs@.len() - j,
        {
            if self.inputs[j].object.id == id && !self.inputs[j].mutable {
                assert(self.inputs@[j as int].object.id == id);
                return true;
            }
            j = j + 1;
        }
        false
    }

    pub fn check_ownership_invariants(&self) -> (r: Result<(), ExecutionError>)
        ensures
            r is Ok <==> self.ownership_respected(),
    {
        let mut i: usize = 0;
        while i < self.written.len()
            invariant
                i <= self.written@.len(),
                forall|a: int, j: int|
                    0 <= a < i && 0 <= j < self.inputs@.len() && (#[trigger] self.written@[a]).id
                        == (#[trigger] self.inputs@[j]).object.id ==> self.inputs@[j].mutable,
            decreases self.written@.len() - i,
        {
            if self.is_read_only_input(self.written[i].id) {
                assert(!self.ownership_respected());
                return Err(ExecutionError::new(ExecutionErrorKind::InvariantViolation));
            }
            i = i + 1;
        }
        Ok(())
    }

    /// No object is both written and deleted.
    pub open spec fn results_consistent(&self) -> bool {
        forall|i: int, j: int|
            0 <= i < self.written@.len() && 0 <= j < self.deleted@.len() ==> (#[trigger] self.written@[i]).id
                != #[trigger] self.deleted@[j]
    }

    pub fn check_execution_results_consistency(&self) -> (r: Result<(), ExecutionError>)
        ensures
            r is Ok <==> self.results_consistent(),
            r is Err ==> r->Err_0.kind == ExecutionErrorKind::InvariantViolation,
    {
        let mut i: usize = 0;
        while i < self.written.len()
            invariant
                i <= self.written@.len(),
                forall|a: int, j: int|
                    0 <= a < i && 0 <= j < self.deleted@.len() ==> (#[trigger] self.written@[a]).id
                        != #[trigger] self.deleted@[j],
            decreases self.written@.len() - i,
        {
            if contains_id(&self.deleted, self.written[i].id) {
                return Err(ExecutionError::new(ExecutionErrorKind::InvariantViolation));
            }
            i = i + 1;
        }
        Ok(())
    }

    pub open spec fn spec_effects_size(&self) -> int {
        EFFECTS_BASE_SIZE_BYTES + (self.written@.len() + self.deleted@.len()) * EFFECTS_PER_OBJECT_SIZE_BYTES
    }

    /// An upper bound of the size of the effects this buffer will produce.
    pub fn estimate_effects_size_upperbound(&self) -> (r: u64)
        requires
            self.wf(),
        ensures
            r == self.spec_effects_size(),
    {
        let n = (self.written.len() + self.deleted.len()) as u64;
        EFFECTS_BASE_SIZE_BYTES + n * EFFECTS_PER_OBJECT_SIZE_BYTES
    }

    pub open spec fn spec_written_objects_size(&self) -> int {
        if sum_sizes(self.written@) > u64::MAX {
            u64::MAX as int
        } else {
            sum_sizes(self.written@)
        }
    }

    /// Total size of the written objects, saturated at the largest `u64`.
    pub fn written_objects_size(&self) -> (r: u64)
        requires
            self.wf(),
        ensures
            r == self.spec_written_objects_size(),
    {
        let total = total_sizes(&self.written);
        if total > u64::MAX as u128 {
            u64::MAX
        } else {
            total as u64
        }
    }

    /// Replaces a system package in place. Effects show it one version later
    /// than written here.
    pub fn upgrade_system_package(&mut self, package: ObjectRecord) -> (r: Result<(), ExecutionError>)
        requires
            old(self).wf(),
        ensures
            final(self).wf(),
            final(self).same_frame(old(self)),
            final(self).deleted@ == old(self).deleted@,
            final(self).safe_mode_advance == old(self).safe_mode_advance,
            r is Ok ==> final(self).upgraded_packages@ == old(self).upgraded_packages@.push(package.id),
            r is Ok ==> exists|j: int| 0 <= j < final(self).written@.len() && #[trigger] final(self).written@[j] == package,
            r is Err ==> final(self).written@ == old(self).written@ && final(self).upgraded_packages@ == old(self).upgraded_packages@,
            old(self).written@.len() < MAX_OBJECTS && old(self).upgraded_packages@.len() < MAX_OBJECTS ==> r is Ok,
            old(self).written@.len() <= final(self).written@.len() <= old(self).written@.len() + 1,
            forall|j: int|
                0 <= j < old(self).written@.len() && (#[trigger] old(self).written@[j]).id != package.id
                    ==> final(self).written@[j] == old(self).written@[j],
    {
        if self.upgraded_packages.len() >= MAX_OBJECTS {
            return Err(ExecutionError::new(ExecutionErrorKind::InvariantViolation));
        }
        let r = self.write_object(package);
        match r {
            Ok(()) => {
                let ghost j = choose|j: int| 0 <= j < self.written@.len() && #[trigger] self.written@[j] == package;
                self.upgraded_packages.push(package.id);
                assert(self.written@[j] == package);
                Ok(())
            },
            Err(e) => Err(e),
        }
    }

    /// Advances the epoch without running a program: the system state
    /// receives the minted rewards and gives up the burned rebates, and the
    /// parameters are recorded. It fails where the system state is not
    /// written or its balance cannot take the change.
    pub fn advance_epoch_safe_mode(&mut self, params: &AdvanceEpochParams) -> (r: Result<(), FatalError>)
        requires
            old(self).wf(),
        ensures
            final(self).wf(),
            final(self).same_frame(old(self)),
            final(self).deleted@ == old(self).deleted@,
            final(self).upgraded_packages@ == old(self).upgraded_packages@,
            r is Ok ==> final(self).safe_mode_advance == Some(*params),
            r is Ok ==> final(self).output_balances() == old(self).output_balances() + params.storage_charge
                + params.computation_charge - params.storage_rebate,
            r is Ok ==> final(self).output_rebates() == old(self).output_rebates(),
            r is Err ==> r->Err_0 == FatalError::SafeModeAdvanceFailed && *final(self) == *old(self),
            safe_mode_possible(old(self).written@, *params) ==> r is Ok,
    {
        let i = match self.find_written(SUI_SYSTEM_STATE_OBJECT_ID) {
            Some(i) => i,
            None => {
                return Err(FatalError::SafeModeAdvanceFailed);
            },
        };
        let state = self.written[i];
        let total = state.balance as u128 + params.storage_charge as u128 + params.computation_charge as u128;
        if total < params.storage_rebate as u128 || total - (params.storage_rebate as u128) > u64::MAX as u128 {
            return Err(FatalError::SafeModeAdvanceFailed);
        }
        let balance = (total - params.storage_rebate as u128) as u64;
        let updated = ObjectRecord { balance, ..state };
        proof {
            lemma_sums_update(self.written@, i as int, updated);
        }
        self.written.set(i, updated);
        self.safe_mode_advance = Some(*params);
        Ok(())
    }

    /// Credits storage rebates released by an unmetered transaction to the
    /// system state object, so that the storage fund keeps them. Nothing
    /// changes for a zero amount, or where the system state is not written
    /// or cannot hold the amount.
    pub fn conserve_unmetered_storage_rebate(&mut self, amount: u64)
        requires
            old(self).wf(),
        ensures
            final(self).wf(),
            final(self).same_frame(old(self)),
            final(self).deleted@ == old(self).deleted@,
            final(self).upgraded_packages@ == old(self).upgraded_packages@,
            final(self).safe_mode_advance == old(self).safe_mode_advance,
            amount == 0 ==> *final(self) == *old(self),
            final(self).output_balances() == old(self).output_balances(),
            final(self).output_rebates() == old(self).output_rebates() || final(self).output_rebates()
                == old(self).output_rebates() + amount,
            (exists|j: int| 0 <= j < old(self).written@.len() && (#[trigger] old(self).written@[j]).id
                == SUI_SYSTEM_STATE_OBJECT_ID) && (forall|j: int|
                0 <= j < old(self).written@.len() && (#[trigger] old(self).written@[j]).id
                    == SUI_SYSTEM_STATE_OBJECT_ID ==> old(self).written@[j].storage_rebate + amount <= u64::MAX)
                ==> final(self).output_rebates() == old(self).output_rebates() + amount,
            final(self).written@.len() == old(self).written@.len(),
            forall|k: int| 0 <= k < old(self).written@.len() ==> (#[trigger] final(self).written@[k]).id
                == old(self).written@[k].id,
    {
        if amount == 0 {
            return;
        }
        let i = match self.find_written(SUI_SYSTEM_STATE_OBJECT_ID) {
            Some(i) => i,
            None => {
                return;
            },
        };
        let state = self.written[i];
        if state.storage_rebate > u64::MAX - amount {
            return;
        }
        let updated = ObjectRecord { storage_rebate: state.storage_rebate + amount, ..state };
        proof {
            lemma_sums_update(self.written@, i as int, updated);
        }
        self.written.set(i, updated);
    }

    /// The shared objects among the inputs, at their versions.
    pub fn shared_object_refs(&self) -> (r: Vec<SharedObjectRef>)
        ensures
            r@ == shared_refs(self.inputs@),
    {
        let mut r: Vec<SharedObjectRef> = Vec::new();
        let mut i: usize = 0;
        while i < self.inputs.len()
            invariant
                i <= self.inputs@.len(),
                r@ == shared_refs(self.inputs@.take(i as int)),
            decreases self.inputs@.len() - i,
        {
            assert(self.inputs@.take(i + 1).drop_last() =~= self.inputs@.take(i as int));
            let o = self.inputs[i].object;
            if let Owner::Shared { .. } = o.owner {
                r.push(SharedObjectRef { id: o.id, version: o.version });
            }
            i = i + 1;
        }
        assert(self.inputs@.take(self.inputs@.len() as int) =~= self.inputs@);
        r
    }

    /// Builds the effects: every written object at its final version, the
    /// deletions, and what the caller supplies.
    pub fn into_effects(
        self,
        shared_objects: Vec<SharedObjectRef>,
        dependencies: Vec<TransactionDigest>,
        gas_used: GasCostSummary,
        status: ExecutionStatus,
    ) -> (r: TransactionEffects)
        ensures
            r.status == status,
            r.gas_used == gas_used,
            r.transaction_digest == self.tx_digest,
            r.epoch == self.epoch,
            r.lamport_version == self.lamport_version,
            r.changed_objects@.len() == self.written@.len(),
            forall|k: int|
                0 <= k < self.written@.len() ==> #[trigger] r.changed_objects@[k] == finalized(
                    self.written@[k],
                    self.lamport_version,
                    self.tx_digest,
                    self.upgraded_packages@,
                ),
            r.deleted@ == self.deleted@,
            r.dependencies@ == dependencies@,
            r.shared_objects@ == shared_objects@,
    {
        let mut changed: Vec<ObjectRecord> = Vec::new();
        let mut i: usize = 0;
        while i < self.written.len()
            invariant
                i <= self.written@.len(),
                changed@.len() == i,
                forall|k: int|
                    0 <= k < i ==> #[trigger] changed@[k] == finalized(
                        self.written@[k],
                        self.lamport_version,
                        self.tx_digest,
                        self.upgraded_packages@,
                    ),
            decreases self.written@.len() - i,
        {
            let o = self.written[i];
            let version = if !o.is_package {
                self.lamport_version
            } else if contains_id(&self.upgraded_packages, o.id) && o.version < u64::MAX {
                o.version + 1
            } else {
                o.version
            };
            changed.push(ObjectRecord { version, previous_transaction: self.tx_digest, ..o });
            i = i + 1;
        }
        TransactionEffects {
            status,
            gas_used,
            transaction_digest: self.tx_digest,
            epoch: self.epoch,
            lamport_version: self.lamport_version,
            changed_objects: changed,
            deleted: self.deleted,
            dependencies,
            shared_objects,
        }
    }
}

} // verus!
