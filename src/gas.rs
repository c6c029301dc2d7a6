//! The gas charger of one transaction: computation up to the budget, and
//! storage settled against the gas coin when the transaction ends.
use vstd::prelude::*;
use crate::effects::GasCostSummary;
use crate::error::{ExecutionError, ExecutionErrorKind, ObjectId};
use crate::store::{
    lemma_sums_update, mutable_objects, total_rebates, ObjectRecord, TemporaryStore,
};

verus! {

pub struct GasCharger {
    /// The coin that pays; none for unmetered (system) transactions.
    pub gas_coin: Option<ObjectId>,
    pub gas_price: u64,
    pub gas_budget: u64,
    /// Computation charged so far; never more than the budget.
    pub computation_cost: u64,
    /// Storage rebates that an unmetered transaction released; they belong
    /// to the storage fund and go to the system state.
    pub unmetered_storage_rebate: u64,
}

/// The storage rebates that a transaction released: what its changeable
/// inputs held beyond what its writes hold (none where it holds more, or
/// where the difference does not fit).
pub open spec fn released_rebates(store: TemporaryStore) -> u64 {
    if store.input_rebates() > store.output_rebates() && store.input_rebates() - store.output_rebates()
        <= u64::MAX {
        (store.input_rebates() - store.output_rebates()) as u64
    } else {
        0
    }
}

impl GasCharger {
    pub open spec fn wf(&self) -> bool {
        self.computation_cost <= self.gas_budget
    }

    pub fn new(gas_coin: ObjectId, gas_price: u64, gas_budget: u64) -> (r: GasCharger)
        ensures
            r.wf(),
            r.gas_coin == Some(gas_coin),
            r.gas_price == gas_price,
            r.gas_budget == gas_budget,
            r.computation_cost == 0,
    {
        GasCharger {
            gas_coin: Some(gas_coin),
            gas_price,
            gas_budget,
            computation_cost: 0,
            unmetered_storage_rebate: 0,
        }
    }

    pub fn new_unmetered() -> (r: GasCharger)
        ensures
            r.wf(),
            r.gas_coin is None,
            r.computation_cost == 0,
            r.unmetered_storage_rebate == 0,
    {
        GasCharger {
            gas_coin: None,
            gas_price: 0,
            gas_budget: 0,
            computation_cost: 0,
            unmetered_storage_rebate: 0,
        }
    }

    pub fn is_unmetered(&self) -> (r: bool)
        ensures
            r == self.gas_coin is None,
    {
        self.gas_coin.is_none()
    }

    /// Charges `cost` for computation. Past the budget the whole budget is
    /// charged and the charge fails. Unmetered transactions are not charged.
    pub fn charge_computation(&mut self, cost: u64) -> (r: Result<(), ExecutionError>)
        requires
            old(self).wf(),
        ensures
            final(self).wf(),
            final(self).gas_coin == old(self).gas_coin,
            final(self).gas_budget == old(self).gas_budget,
            final(self).gas_price == old(self).gas_price,
            old(self).gas_coin is None ==> r is Ok && final(self).computation_cost == old(self).computation_cost,
            old(self).gas_coin is Some ==> (r is Ok <==> old(self).computation_cost + cost <= old(self).gas_budget),
            old(self).gas_coin is Some && r is Ok ==> final(self).computation_cost == old(self).computation_cost + cost,
            old(self).gas_coin is Some && r is Err ==> final(self).computation_cost == old(self).gas_budget,
            r is Err ==> r->Err_0.kind == ExecutionErrorKind::InsufficientGas && r->Err_0.command is None,
            final(self).unmetered_storage_rebate == old(self).unmetered_storage_rebate,
    {
        if self.gas_coin.is_none() {
            return Ok(());
        }
        if cost > self.gas_budget - self.computation_cost {
            self.computation_cost = self.gas_budget;
            Err(ExecutionError::new(ExecutionErrorKind::InsufficientGas))
        } else {
            self.computation_cost = self.computation_cost + cost;
            Ok(())
        }
    }

    /// Charges for reading the inputs: the gas price per input object.
    pub fn charge_input_objects(&mut self, store: &TemporaryStore) -> (r: Result<(), ExecutionError>)
        requires
            old(self).wf(),
            store.wf(),
        ensures
            final(self).wf(),
            final(self).gas_coin == old(self).gas_coin,
            final(self).gas_budget == old(self).gas_budget,
            final(self).gas_price == old(self).gas_price,
            old(self).gas_coin is None ==> r is Ok,
            old(self).gas_coin is Some ==> (r is Ok <==> old(self).computation_cost + store.inputs@.len()
                * old(self).gas_price <= old(self).gas_budget),
            r is Err ==> r->Err_0.kind == ExecutionErrorKind::InsufficientGas && r->Err_0.command is None,
            old(self).gas_coin is None ==> *final(self) == *old(self),
    {
        let n = store.inputs.len() as u128;
        let price = self.gas_price as u128;
        assert(n * price <= 0x4000_0000 * 0xffff_ffff_ffff_ffff) by (nonlinear_arith)
            requires
                n <= 0x4000_0000,
                price <= 0xffff_ffff_ffff_ffff,
        ;
        let cost = n * price;
        if cost > u64::MAX as u128 {
            if self.gas_coin.is_none() {
                return Ok(());
            }
            self.computation_cost = self.gas_budget;
            return Err(ExecutionError::new(ExecutionErrorKind::InsufficientGas));
        }
        self.charge_computation(cost as u64)
    }

    /// Discards the writes, so that only gas is charged.
    pub fn reset(&mut self, store: &mut TemporaryStore)
        requires
            old(store).wf(),
        ensures
            *final(self) == *old(self),
            final(store).wf(),
            final(store).same_frame(old(store)),
            final(store).written@ == mutable_objects(old(store).inputs@),
            final(store).deleted@.len() == 0,
    {
        store.drop_writes();
    }

    /// Settles storage and computation against the coin at `i`: the coin
    /// gets back the rebates of the inputs it may change and pays the
    /// computation and the rebates of the written objects. Nothing changes
    /// where the coin cannot take that.
    fn settle(&self, store: &mut TemporaryStore, i: usize) -> (r: Option<GasCostSummary>)
        requires
            old(store).wf(),
            i < old(store).written@.len(),
        ensures
            final(store).wf(),
            final(store).same_frame(old(store)),
            final(store).deleted@ == old(store).deleted@,
            final(store).upgraded_packages@ == old(store).upgraded_packages@,
            final(store).safe_mode_advance == old(store).safe_mode_advance,
            r is None ==> *final(store) == *old(store),
            final(store).written@.len() == old(store).written@.len(),
            forall|k: int| 0 <= k < old(store).written@.len() ==> (#[trigger] final(store).written@[k]).id
                == old(store).written@[k].id,
            r is Some ==> {
                let s = r->Some_0;
                &&& s.computation_cost == self.computation_cost
                &&& s.storage_cost == old(store).output_rebates()
                &&& s.storage_rebate == old(store).input_rebates()
                &&& s.non_refundable_storage_fee == 0
                &&& final(store).output_rebates() == old(store).output_rebates()
                &&& final(store).output_balances() == old(store).output_balances() + s.storage_rebate
                    - s.computation_cost - s.storage_cost
            },
    {
        proof {
            crate::store::lemma_mutable_objects_len(store.inputs@);
        }
        let changed = TemporaryStore::copy_mutable_inputs(&store.inputs);
        let refund = total_rebates(&changed);
        let cost = total_rebates(&store.written);
        if refund > u64::MAX as u128 || cost > u64::MAX as u128 {
            return None;
        }
        let paying = store.written[i];
        let credit = paying.balance as u128 + refund;
        let debit = self.computation_cost as u128 + cost;
        if credit < debit || credit - debit > u64::MAX as u128 {
            return None;
        }
        let updated = ObjectRecord { balance: (credit - debit) as u64, ..paying };
        proof {
            lemma_sums_update(store.written@, i as int, updated);
        }
        store.written.set(i, updated);
        Some(
            GasCostSummary {
                computation_cost: self.computation_cost,
                storage_cost: cost as u64,
                storage_rebate: refund as u64,
                non_refundable_storage_fee: 0,
            },
        )
    }

    /// Ends the charging. After a failure the writes are discarded first.
    /// Then storage and computation are settled against the coin. Where the
    /// coin cannot pay, the transaction fails for want of gas (or, where the
    /// program removed the coin, as an invariant violation), the writes are
    /// discarded, and only the computation the coin covers is taken.
    /// Unmetered transactions pay nothing; the rebates they released are
    /// recorded for the system state.
    pub fn charge_gas(&mut self, store: &mut TemporaryStore, result: &mut Result<(), ExecutionError>) -> (r:
        GasCostSummary)
        requires
            old(self).wf(),
            old(store).wf(),
        ensures
            old(self).gas_coin is Some ==> *final(self) == *old(self),
            old(self).gas_coin is None ==> *final(self) == (GasCharger {
                unmetered_storage_rebate: released_rebates(*old(store)),
                ..*old(self)
            }),
            final(store).wf(),
            final(store).same_frame(old(store)),
            r.non_refundable_storage_fee == 0,
            r.computation_cost <= old(self).computation_cost,
            (*old(result)) is Err ==> *final(result) == *old(result),
            old(self).gas_coin is None ==> r == GasCostSummary::zero_spec() && *final(store) == *old(store)
                && *final(result) == *old(result),
            old(self).gas_coin is Some && (*final(result)) is Err ==> final(store).rebates_conserved(r)
                && final(store).value_conserved(r, None),
            old(self).gas_coin is Some && (*final(result)) is Err ==> final(store).output_balances() + r.computation_cost
                + r.storage_cost == final(store).input_balances() + r.storage_rebate,
            (*final(result)) is Ok ==> *final(result) == *old(result),
            (*final(result)) is Err && (*old(result)) is Ok ==> (*final(result))->Err_0.kind
                == ExecutionErrorKind::InsufficientGas || (*final(result))->Err_0.kind
                == ExecutionErrorKind::InvariantViolation,
            old(self).gas_coin is Some && (*final(result)) is Err ==> final(store).writes_match_changeable(),
            old(self).gas_coin is Some && (*final(result)) is Ok ==> {
                &&& r.computation_cost == old(self).computation_cost
                &&& r.storage_cost == old(store).output_rebates()
                &&& r.storage_rebate == old(store).input_rebates()
                &&& final(store).rebates_conserved(r)
                &&& (final(store).value_conserved(r, None) <==> old(store).input_balances()
                    == old(store).output_balances())
            },
    {
        let coin = match self.gas_coin {
            None => {
                proof {
                    crate::store::lemma_mutable_objects_len(store.inputs@);
                }
                let changed = TemporaryStore::copy_mutable_inputs(&store.inputs);
                let held = total_rebates(&changed);
                let kept = total_rebates(&store.written);
                self.unmetered_storage_rebate = if held > kept && held - kept <= u64::MAX as u128 {
                    (held - kept) as u64
                } else {
                    0
                };
                return GasCostSummary::zero();
            },
            Some(c) => c,
        };
        if result.is_err() {
            store.drop_writes();
        }
        let found = store.find_written(coin);
        if let Some(i) = found {
            match self.settle(store, i) {
                Some(summary) => {
                    return summary;
                },
                None => {},
            }
        }
        if result.is_ok() {
            let kind = if found.is_some() {
                ExecutionErrorKind::InsufficientGas
            } else {
                ExecutionErrorKind::InvariantViolation
            };
            *result = Err(ExecutionError::new(kind));
        }
        store.drop_writes();
        let i = match store.find_written(coin) {
            None => {
                return GasCostSummary::zero();
            },
            Some(i) => i,
        };
        let paying = store.written[i];
        let charged = if self.computation_cost <= paying.balance {
            self.computation_cost
        } else {
            paying.balance
        };
        let updated = ObjectRecord { balance: paying.balance - charged, ..paying };
        proof {
            lemma_sums_update(store.written@, i as int, updated);
        }
        store.written.set(i, updated);
        GasCostSummary { computation_cost: charged, storage_cost: 0, storage_rebate: 0, non_refundable_storage_fee: 0 }
    }
}

} // verus!
