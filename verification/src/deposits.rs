use vstd::prelude::*;
use crate::error::BridgeError;
use crate::identity::bytes_equal;

verus! {

/// The record that a deposit on the home chain has been minted. It is never
/// changed or removed once written.
#[derive(Clone, Copy, Debug, PartialEq, Eq)]
pub struct ProcessedDeposit {
    /// True once a mint has been made for the deposit.
    pub used: bool,
    /// The deposit's identifier on the home chain.
    pub deposit_id: [u8; 32],
}

/// Whether `records` holds a record that marks `deposit_id` as minted.
pub open spec fn is_claimed(records: Seq<ProcessedDeposit>, deposit_id: [u8; 32]) -> bool {
    exists|i: int| 0 <= i < records.len() && (#[trigger] records[i]).deposit_id == deposit_id && records[i].used
}

/// Every record marks its deposit as minted, and no deposit has two records.
pub open spec fn ledger_well_formed(records: Seq<ProcessedDeposit>) -> bool {
    &&& forall|i: int| 0 <= i < records.len() ==> (#[trigger] records[i]).used
    &&& forall|i: int, j: int|
        0 <= i < j < records.len() ==> (#[trigger] records[i]).deposit_id != (#[trigger] records[j]).deposit_id
}

/// The record that `claim` writes for `deposit_id`.
pub open spec fn claim_record(deposit_id: [u8; 32]) -> ProcessedDeposit {
    ProcessedDeposit { used: true, deposit_id }
}

/// The records of all deposits minted so far, one per deposit identifier, in
/// the order the deposits were claimed.
#[derive(Debug, PartialEq, Eq)]
pub struct DepositLedger {
    records: Vec<ProcessedDeposit>,
}

impl View for DepositLedger {
    type V = Seq<ProcessedDeposit>;

    closed spec fn view(&self) -> Seq<ProcessedDeposit> {
        self.records@
    }
}

impl DepositLedger {
    #[verifier::type_invariant]
    spec fn inv(self) -> bool {
        ledger_well_formed(self.records@)
    }

    /// A ledger in which no deposit has been claimed.
    pub fn new() -> (ledger: DepositLedger)
        ensures
            ledger@ == Seq::<ProcessedDeposit>::empty(),
    {
        DepositLedger { records: Vec::new() }
    }

    /// How many deposits have been claimed.
    pub fn len(&self) -> (count: usize)
        ensures
            count == self@.len(),
            ledger_well_formed(self@),
    {
        proof {
            use_type_invariant(self);
        }
        self.records.len()
    }

    /// The record of `deposit_id`, if the deposit has been claimed.
    pub fn find(&self, deposit_id: &[u8; 32]) -> (found: Option<ProcessedDeposit>)
        ensures
            found is Some <==> is_claimed(self@, *deposit_id),
            found is Some ==> found == Some(claim_record(*deposit_id)),
    {
        proof {
            use_type_invariant(self);
        }
        let mut i: usize = 0;
        while i < self.records.len()
            invariant
                i <= self.records.len(),
                ledger_well_formed(self.records@),
                forall|j: int| 0 <= j < i ==> (#[trigger] self.records@[j]).deposit_id != *deposit_id,
            decreases self.records.len() - i,
        {
            if bytes_equal(&self.records[i].deposit_id, deposit_id) {
                assert(self.records@[i as int].deposit_id =~= *deposit_id);
                return Some(self.records[i]);
            }
            i += 1;
        }
        None
    }

    /// Whether `deposit_id` has been claimed.
    pub fn is_processed(&self, deposit_id: &[u8; 32]) -> (claimed: bool)
        ensures
            claimed == is_claimed(self@, *deposit_id),
    {
        self.find(deposit_id).is_some()
    }

    /// Claims `deposit_id` if nobody has claimed it before: the one step that
    /// both tests and records, so that a deposit is minted at most once.
    pub fn claim(&mut self, deposit_id: [u8; 32]) -> (result: Result<ProcessedDeposit, BridgeError>)
        ensures
            is_claimed(old(self)@, deposit_id) ==> result == Err::<ProcessedDeposit, BridgeError>(
                BridgeError::DepositAlreadyProcessed,
            ) && *final(self) == *old(self),
            !is_claimed(old(self)@, deposit_id) ==> result == Ok::<ProcessedDeposit, BridgeError>(
                claim_record(deposit_id),
            ) && final(self)@ == old(self)@.push(claim_record(deposit_id)),
            ledger_well_formed(final(self)@),
    {
        proof {
            use_type_invariant(&*self);
        }
        if self.is_processed(&deposit_id) {
            return Err(BridgeError::DepositAlreadyProcessed);
        }
        let record = ProcessedDeposit { used: true, deposit_id };
        let mut records: Vec<ProcessedDeposit> = Vec::new();
        std::mem::swap(&mut records, &mut self.records);
        proof {
            lemma_claim_keeps_well_formed(records@, deposit_id);
        }
        records.push(record);
        self.records = records;
        Ok(record)
    }
}

impl Clone for DepositLedger {
    fn clone(&self) -> (copy: DepositLedger)
        ensures
            copy@ == self@,
    {
        proof {
            use_type_invariant(self);
        }
        let mut records: Vec<ProcessedDeposit> = Vec::new();
        let mut i: usize = 0;
        while i < self.records.len()
            invariant
                i <= self.records.len(),
                records@ == self.records@.take(i as int),
            decreases self.records.len() - i,
        {
            records.push(self.records[i]);
            assert(self.records@.take(i + 1) == self.records@.take(i as int).push(
                self.records@[i as int],
            ));
            i += 1;
        }
        assert(self.records@.take(i as int) == self.records@);
        DepositLedger { records }
    }
}

/// Recording a deposit that was not claimed before keeps the ledger well
/// formed, and makes that deposit claimed.
pub proof fn lemma_claim_keeps_well_formed(records: Seq<ProcessedDeposit>, deposit_id: [u8; 32])
    requires
        ledger_well_formed(records),
        !is_claimed(records, deposit_id),
    ensures
        ledger_well_formed(records.push(claim_record(deposit_id))),
        is_claimed(records.push(claim_record(deposit_id)), deposit_id),
{
    let after = records.push(claim_record(deposit_id));
    assert(after[records.len() as int] == claim_record(deposit_id));
    assert forall|i: int, j: int| 0 <= i < j < after.len() implies (#[trigger] after[i]).deposit_id != (
    #[trigger] after[j]).deposit_id by {
        if j == records.len() {
            assert(records[i].used);
            assert(after[i] == records[i]);
        } else {
            assert(after[i] == records[i] && after[j] == records[j]);
        }
    }
}

} // verus!
