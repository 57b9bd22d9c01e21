//! The store operations: registry initialization and the atomic
//! validate-derive-create-increment step, over an explicit model of the slice
//! of host-ledger state this program owns.

use vstd::prelude::*;
use crate::addressing::{derive_address, record_address};
use crate::identity::Identity;
use crate::records::{
    first_violation, inputs_ok, record_fields_ok, validate_inputs, ErrorCode, SummaryStore,
    TaggedSummary,
};

verus! {

/// One stored record together with the host address it lives at.
#[derive(Clone, Debug)]
pub struct RecordEntry {
    /// The derived address, 32 bytes.
    pub address: Vec<u8>,
    /// The record stored there.
    pub record: TaggedSummary,
}

/// The one way registry initialization can fail.
#[derive(Clone, Copy, Debug, PartialEq, Eq, Structural)]
pub enum InitError {
    /// The singleton registry already exists; a second initialization does
    /// not no-op, it fails.
    RegistryAlreadyInitialized,
}

/// The ways a store operation can fail.
#[derive(Clone, Copy, Debug, PartialEq, Eq, Structural)]
pub enum StoreError {
    /// One of the four input rules was violated; the first one, in rule
    /// order, is reported.
    Validation(ErrorCode),
    /// A record already occupies the derived address: a duplicate submission
    /// for this (hash, submitter) pair, rejected by the existence check.
    DuplicateRecord,
    /// The host could derive no usable address for this pair; statistically
    /// improbable, modeled for completeness.
    AddressUnavailable,
}

/// The caller's context for registry initialization: the signing identity
/// that becomes the registry's authority.
#[derive(Clone, Copy, Debug)]
pub struct Initialize {
    /// The identity creating the registry.
    pub authority: Identity,
}

/// The caller's context for a store operation: the signing student wallet
/// that submits and owns the record.
#[derive(Clone, Copy, Debug)]
pub struct StoreSummary {
    /// The submitting identity.
    pub student: Identity,
}

/// The slice of host-ledger state this program owns: the singleton registry
/// (absent until initialized) and every record created so far, each at its
/// derived address. The host serializes operations on it, so each operation
/// below is one atomic step.
#[derive(Debug)]
pub struct Ledger {
    /// The singleton registry, `None` until `initialize` has run.
    pub registry: Option<SummaryStore>,
    /// All records ever created, in creation order.
    pub entries: Vec<RecordEntry>,
}

impl Ledger {
    /// The registry exists.
    pub open spec fn initialized(self) -> bool {
        self.registry is Some
    }

    /// The registry's running counter.
    pub open spec fn total(self) -> u64
        recommends
            self.initialized(),
    {
        self.registry->Some_0.total_summaries
    }

    /// The entry with index `i` is well formed: its id is its creation rank,
    /// its fields obey the validation rules, and it sits at the address
    /// derived from its own (hash, submitter) key.
    pub open spec fn entry_ok(self, i: int) -> bool
        recommends
            0 <= i < self.entries@.len(),
    {
        let e = self.entries@[i];
        &&& e.record.id == i
        &&& record_fields_ok(e.record)
        &&& Some(e.address@) == record_address(
            e.record.transaction_hash@,
            e.record.student_wallet@,
        )
    }

    /// Well-formedness of the whole state: no records before initialization,
    /// the counter equals the number of records ever created, every entry is
    /// well formed, and no two records share an address.
    pub open spec fn wf(self) -> bool {
        &&& (self.registry is None ==> self.entries@.len() == 0)
        &&& (self.registry matches Some(reg) ==> reg.total_summaries == self.entries@.len())
        &&& (forall|i: int| 0 <= i < self.entries@.len() ==> self.entry_ok(i))
        &&& (forall|i: int, j: int|
            0 <= i < j < self.entries@.len() ==> self.entries@[i].address@
                != self.entries@[j].address@)
    }

    /// Some record already occupies address `a`.
    pub open spec fn occupied(self, a: Seq<u8>) -> bool {
        exists|i: int| 0 <= i < self.entries@.len() && self.entries@[i].address@ == a
    }

    /// An empty, not yet initialized ledger slice.
    pub fn new() -> (r: Ledger)
        ensures
            r.wf(),
            !r.initialized(),
            r.entries@.len() == 0,
    {
        Ledger { registry: None, entries: Vec::new() }
    }

    /// Whether a record already occupies the given address.
    pub fn has_record_at(&self, address: &Vec<u8>) -> (r: bool)
        ensures
            r == self.occupied(address@),
    {
        let mut i: usize = 0;
        while i < self.entries.len()
            invariant
                i <= self.entries@.len(),
                forall|k: int| 0 <= k < i ==> self.entries@[k].address@ != address@,
            decreases self.entries@.len() - i,
        {
            if bytes_eq(&self.entries[i].address, address) {
                return true;
            }
            i = i + 1;
        }
        false
    }
}

/// True exactly when the two byte strings hold the same bytes.
fn bytes_eq(a: &Vec<u8>, b: &Vec<u8>) -> (r: bool)
    ensures
        r == (a@ == b@),
{
    if a.len() != b.len() {
        return false;
    }
    let mut i: usize = 0;
    while i < a.len()
        invariant
            i <= a@.len(),
            a@.len() == b@.len(),
            forall|k: int| 0 <= k < i ==> a@[k] == b@[k],
        decreases a@.len() - i,
    {
        if a[i] != b[i] {
            return false;
        }
        i = i + 1;
    }
    proof {
        assert(a@ =~= b@);
    }
    true
}

/// One successful store, as seen across the whole ledger: the registry stays
/// initialized, its counter grows by exactly one, and exactly one record is
/// appended while every existing record is kept as it was.
pub open spec fn store_step(pre: Ledger, post: Ledger) -> bool {
    &&& pre.initialized()
    &&& post.initialized()
    &&& post.total() == pre.total() + 1
    &&& post.entries@.len() == pre.entries@.len() + 1
    &&& (forall|i: int| 0 <= i < pre.entries@.len() ==> post.entries@[i] == pre.entries@[i])
}

/// Creates the singleton registry, with the caller as authority and the
/// counter at zero. Fails, changing nothing, if the registry already exists.
pub fn initialize(ledger: &mut Ledger, ctx: Initialize) -> (r: Result<(), InitError>)
    ensures
        old(ledger).initialized() ==> r == Err::<(), InitError>(
            InitError::RegistryAlreadyInitialized,
        ) && *final(ledger) == *old(ledger),
        !old(ledger).initialized() ==> {
            &&& r == Ok::<(), InitError>(())
            &&& final(ledger).registry == Some(
                SummaryStore { authority: ctx.authority, total_summaries: 0 },
            )
            &&& final(ledger).entries == old(ledger).entries
        },
        old(ledger).wf() ==> final(ledger).wf(),
{
    if ledger.registry.is_some() {
        Err(InitError::RegistryAlreadyInitialized)
    } else {
        ledger.registry = Some(SummaryStore { authority: ctx.authority, total_summaries: 0 });
        Ok(())
    }
}

/// Validates the inputs, derives the record's address from the
/// (transaction hash, submitter) key, and, if no record occupies that
/// address, appends one fully populated record and bumps the registry
/// counter by exactly one; any failure reports its specific error and
/// changes nothing. `now` is the host clock's reading at commit time.
pub fn store_tagged_summary(
    ledger: &mut Ledger,
    ctx: StoreSummary,
    transaction_hash: String,
    summary: String,
    tags: Vec<String>,
    category: String,
    confidence_score: u8,
    now: i64,
) -> (r: Result<(), StoreError>)
    requires
        old(ledger).wf(),
        old(ledger).initialized(),
        old(ledger).total() < u64::MAX,
    ensures
        final(ledger).wf(),
        final(ledger).initialized(),
        (first_violation(transaction_hash@, summary@, tags@, confidence_score) matches Err(code)
            ==> r == Err::<(), StoreError>(StoreError::Validation(code)) && *final(ledger)
                == *old(ledger)),
        inputs_ok(transaction_hash@, summary@, tags@, confidence_score) ==> match record_address(
            transaction_hash@,
            ctx.student@,
        ) {
            None => r == Err::<(), StoreError>(StoreError::AddressUnavailable) && *final(ledger)
                == *old(ledger),
            Some(a) => {
                if old(ledger).occupied(a) {
                    r == Err::<(), StoreError>(StoreError::DuplicateRecord) && *final(ledger)
                        == *old(ledger)
                } else {
                    &&& r == Ok::<(), StoreError>(())
                    &&& final(ledger).entries@.len() == old(ledger).entries@.len() + 1
                    &&& final(ledger).entries@.last().record == (TaggedSummary {
                        id: old(ledger).total(),
                        transaction_hash,
                        summary,
                        tags,
                        category,
                        confidence_score,
                        timestamp: now,
                        student_wallet: ctx.student,
                    })
                    &&& final(ledger).entries@.last().address@ == a
                    &&& final(ledger).occupied(a)
                    &&& final(ledger).registry == Some(
                        SummaryStore {
                            authority: old(ledger).registry->Some_0.authority,
                            total_summaries: (old(ledger).total() + 1) as u64,
                        },
                    )
                }
            },
        },
        r == Ok::<(), StoreError>(()) ==> store_step(*old(ledger), *final(ledger)),
{
    if let Err(code) = validate_inputs(
        transaction_hash.as_str(),
        summary.as_str(),
        &tags,
        confidence_score,
    ) {
        return Err(StoreError::Validation(code));
    }
    let address = match derive_address(transaction_hash.as_str(), &ctx.student) {
        None => {
            return Err(StoreError::AddressUnavailable);
        },
        Some(a) => a,
    };
    if ledger.has_record_at(&address) {
        return Err(StoreError::DuplicateRecord);
    }
    let reg = ledger.registry.unwrap();
    let record = TaggedSummary {
        id: reg.total_summaries,
        transaction_hash,
        summary,
        tags,
        category,
        confidence_score,
        timestamp: now,
        student_wallet: ctx.student,
    };
    ledger.entries.push(RecordEntry { address, record });
    ledger.registry = Some(
        SummaryStore { authority: reg.authority, total_summaries: reg.total_summaries + 1 },
    );
    proof {
        assert forall|i: int| 0 <= i < ledger.entries@.len() implies ledger.entry_ok(i) by {
            if i < old(ledger).entries@.len() {
                assert(old(ledger).entry_ok(i));
            }
        }
    }
    Ok(())
}

} // verus!
