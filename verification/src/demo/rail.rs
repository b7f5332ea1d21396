//! Settlement rails: batches of transfers handed over for final settlement.

use vstd::prelude::*;

use crate::demo::error::RailError;
use crate::ledger_core::amount::group_amount;
use crate::ledger_core::text::{pad_zeros, push_padded_decimal, spec_decimal};
use crate::ledger_core::message::push_str;
use crate::ledger_core::transfer::Transfer;

verus! {

broadcast use group_amount;

/// Result of submitting a transfer batch to a settlement rail.
#[derive(Clone, Debug, PartialEq, Eq)]
pub struct RailSubmission {
    /// Name of the settlement rail used.
    pub rail_name: String,
    /// Batch sequence number.
    pub batch_seq: u64,
    /// Total transfers settled in this batch.
    pub transfer_count: usize,
    /// Cumulative monetary amount settled.
    pub total_amount: u128,
    /// Rail reference ID or on-chain transaction signature.
    pub reference: String,
    /// Merkle Mountain Range root (if committed on-chain).
    pub merkle_root: Option<String>,
}

/// A settlement rail capable of settling batches of transfers.
pub trait SettlementRail {
    /// Return the human-readable identifier of this rail.
    fn name(&self) -> &'static str;

    /// Submit a batch of transfers to this rail for final settlement.
    fn submit_batch(&self, batch_seq: u64, transfers: &[Transfer]) -> Result<RailSubmission, RailError>;
}

/// The sum of the transfers' amounts, saturating at `u128::MAX` at each step.
pub open spec fn saturating_total(transfers: Seq<Transfer>) -> u128
    decreases transfers.len(),
{
    if transfers.len() == 0 {
        0
    } else {
        let sum = saturating_total(transfers.drop_last()) + transfers.last()@.amount@;
        if sum > u128::MAX {
            u128::MAX
        } else {
            sum as u128
        }
    }
}

/// The reference of an ACH batch: its sequence number padded to six digits.
pub open spec fn ach_reference(batch_seq: u64) -> Seq<char> {
    "ACH-NACHA-BATCH-"@ + pad_zeros(spec_decimal(batch_seq as nat), 6)
}

/// The name of the simulated ACH rail.
pub open spec fn ach_rail_name() -> &'static str {
    "Mock-ACH"
}

/// Simulated Automated Clearing House (ACH) fiat settlement rail.
#[derive(Debug, Default)]
pub struct MockAchRail;

impl MockAchRail {
    /// Create a new mock ACH rail.
    pub fn new() -> (r: Self) {
        MockAchRail
    }
}

impl SettlementRail for MockAchRail {
    fn name(&self) -> (r: &'static str)
        ensures
            r == ach_rail_name(),
    {
        "Mock-ACH"
    }

    /// Settle a batch: it is always accepted, with the saturating total of
    /// its amounts and an ACH reference built from its sequence number.
    fn submit_batch(&self, batch_seq: u64, transfers: &[Transfer]) -> (r: Result<RailSubmission, RailError>)
        ensures
            r is Ok,
            r->Ok_0.rail_name@ == ach_rail_name()@,
            r->Ok_0.batch_seq == batch_seq,
            r->Ok_0.transfer_count == transfers@.len(),
            r->Ok_0.total_amount == saturating_total(transfers@),
            r->Ok_0.reference@ == ach_reference(batch_seq),
            r->Ok_0.merkle_root is None,
    {
        let mut total_amount: u128 = 0;
        let mut i: usize = 0;
        while i < transfers.len()
            invariant
                i <= transfers@.len(),
                total_amount == saturating_total(transfers@.take(i as int)),
            decreases transfers@.len() - i,
        {
            proof {
                assert(transfers@.take(i as int + 1).drop_last() =~= transfers@.take(i as int));
            }
            total_amount = total_amount.saturating_add(transfers[i].amount().as_u128());
            i += 1;
        }
        proof {
            assert(transfers@.take(transfers@.len() as int) =~= transfers@);
        }
        let mut reference = String::new();
        push_str(&mut reference, "ACH-NACHA-BATCH-");
        push_padded_decimal(&mut reference, batch_seq as u128, 6);
        let mut rail_name = String::new();
        push_str(&mut rail_name, self.name());
        Ok(RailSubmission {
            rail_name,
            batch_seq,
            transfer_count: transfers.len(),
            total_amount,
            reference,
            merkle_root: None,
        })
    }
}

} // verus!
