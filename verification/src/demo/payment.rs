//! Payment lifecycle state machine and its double-entry account layout.

use vstd::prelude::*;

use crate::demo::error::PaymentError;
use crate::ledger_core::account::{AccountFlags, AccountType};
use crate::ledger_core::amount::{Amount, Scale, group_amount};
use crate::ledger_core::error::LedgerError;
use crate::ledger_core::id::{AccountId, TransferId, group_id};
use crate::ledger_core::journal::LedgerEvent;
use crate::ledger_core::ledger::{Ledger, LedgerView};
use crate::ledger_core::model::{spec_create_account, spec_create_transfer};
use crate::ledger_core::transfer::{Transfer, TransferState, spec_new_transfer};

verus! {

broadcast use {group_amount, group_id};

/// Lifecycle state of a payment.
#[derive(Clone, Copy, Debug, PartialEq, Eq, Structural)]
pub enum PaymentState {
    /// Funds reserved on payer's account via a pending hold.
    Authorized,
    /// Hold posted; merchant settlement obligation confirmed.
    Captured,
    /// Pending hold cancelled; reserved funds released back to customer.
    Voided,
    /// Captured payment reversed via counter-transfer.
    Refunded,
}

/// The name of a payment state, as it is printed.
pub open spec fn payment_state_label(s: PaymentState) -> &'static str {
    match s {
        PaymentState::Authorized => "Authorized",
        PaymentState::Captured => "Captured",
        PaymentState::Voided => "Voided",
        PaymentState::Refunded => "Refunded",
    }
}

/// The name of a payment state, as it is printed.
fn state_label(s: PaymentState) -> (r: &'static str)
    ensures
        r == payment_state_label(s),
{
    match s {
        PaymentState::Authorized => "Authorized",
        PaymentState::Captured => "Captured",
        PaymentState::Voided => "Voided",
        PaymentState::Refunded => "Refunded",
    }
}

/// A payment record tracking lifecycle transitions and underlying ledger transfer IDs.
#[derive(Debug, PartialEq, Eq, Structural)]
pub struct Payment {
    /// Unique payment identifier.
    pub id: u128,
    /// Identifier of the merchant receiving payment.
    pub merchant_id: u128,
    /// Identifier of the customer making payment.
    pub customer_id: u128,
    /// Gross payment amount in decimal units.
    pub amount: u128,
    /// Processing fee charged by the platform.
    pub fee_amount: u128,
    /// Current lifecycle state.
    pub state: PaymentState,
    /// Associated ledger pending hold transfer ID.
    pub pending_transfer_id: Option<u128>,
    /// Associated ledger posted settlement transfer ID.
    pub posted_transfer_id: Option<u128>,
    /// Sequence number of the on-chain settlement batch if committed.
    pub settlement_batch_seq: Option<u64>,
    /// Timestamp of initial authorization.
    pub created_at: u64,
    /// Timestamp of last lifecycle state change.
    pub updated_at: u64,
}

impl Clone for Payment {
    fn clone(&self) -> (r: Self)
        ensures
            r == *self,
    {
        Payment {
            id: self.id,
            merchant_id: self.merchant_id,
            customer_id: self.customer_id,
            amount: self.amount,
            fee_amount: self.fee_amount,
            state: self.state,
            pending_transfer_id: self.pending_transfer_id,
            posted_transfer_id: self.posted_transfer_id,
            settlement_batch_seq: self.settlement_batch_seq,
            created_at: self.created_at,
            updated_at: self.updated_at,
        }
    }
}

/// Whether `e` reports that payment `p` cannot move to the state named `target`.
pub open spec fn is_transition_error(e: PaymentError, p: Payment, target: Seq<char>) -> bool {
    &&& e matches PaymentError::InvalidStateTransition { payment_id, from, to }
    &&& payment_id == p.id
    &&& from@ == payment_state_label(p.state)@
    &&& to@ == target
}

impl Payment {
    /// Create a new authorized payment record.
    pub fn new_authorized(
        id: u128,
        merchant_id: u128,
        customer_id: u128,
        amount: u128,
        fee_amount: u128,
        pending_transfer_id: u128,
        timestamp: u64,
    ) -> (r: Self)
        ensures
            r == (Payment {
                id,
                merchant_id,
                customer_id,
                amount,
                fee_amount,
                state: PaymentState::Authorized,
                pending_transfer_id: Some(pending_transfer_id),
                posted_transfer_id: None,
                settlement_batch_seq: None,
                created_at: timestamp,
                updated_at: timestamp,
            }),
    {
        Payment {
            id,
            merchant_id,
            customer_id,
            amount,
            fee_amount,
            state: PaymentState::Authorized,
            pending_transfer_id: Some(pending_transfer_id),
            posted_transfer_id: None,
            settlement_batch_seq: None,
            created_at: timestamp,
            updated_at: timestamp,
        }
    }

    /// The error for an illegal move of this payment to `target`.
    fn transition_error(&self, target: &str) -> (r: PaymentError)
        ensures
            is_transition_error(r, *self, target@),
    {
        PaymentError::InvalidStateTransition {
            payment_id: self.id,
            from: state_label(self.state).to_owned(),
            to: target.to_owned(),
        }
    }

    /// Transition from `Authorized` to `Captured`, recording the posted
    /// settlement transfer.
    ///
    /// Fails with `InvalidStateTransition`, leaving the payment unchanged,
    /// when the payment is not authorized.
    pub fn transition_to_captured(&mut self, posted_transfer_id: u128, timestamp: u64) -> (r: Result<(), PaymentError>)
        ensures
            old(self).state == PaymentState::Authorized ==> r is Ok && *final(self) == (Payment {
                state: PaymentState::Captured,
                posted_transfer_id: Some(posted_transfer_id),
                updated_at: timestamp,
                ..*old(self)
            }),
            old(self).state != PaymentState::Authorized ==> r is Err && *final(self) == *old(self)
                && is_transition_error(r->Err_0, *old(self), "Captured"@),
    {
        if self.state != PaymentState::Authorized {
            return Err(self.transition_error("Captured"));
        }
        self.state = PaymentState::Captured;
        self.posted_transfer_id = Some(posted_transfer_id);
        self.updated_at = timestamp;
        Ok(())
    }

    /// Transition from `Authorized` to `Voided`.
    ///
    /// Fails with `InvalidStateTransition`, leaving the payment unchanged,
    /// when the payment is not authorized.
    pub fn transition_to_voided(&mut self, timestamp: u64) -> (r: Result<(), PaymentError>)
        ensures
            old(self).state == PaymentState::Authorized ==> r is Ok && *final(self) == (Payment {
                state: PaymentState::Voided,
                updated_at: timestamp,
                ..*old(self)
            }),
            old(self).state != PaymentState::Authorized ==> r is Err && *final(self) == *old(self)
                && is_transition_error(r->Err_0, *old(self), "Voided"@),
    {
        if self.state != PaymentState::Authorized {
            return Err(self.transition_error("Voided"));
        }
        self.state = PaymentState::Voided;
        self.updated_at = timestamp;
        Ok(())
    }

    /// Transition from `Captured` to `Refunded`.
    ///
    /// Fails with `InvalidStateTransition`, leaving the payment unchanged,
    /// when the payment is not captured.
    pub fn transition_to_refunded(&mut self, timestamp: u64) -> (r: Result<(), PaymentError>)
        ensures
            old(self).state == PaymentState::Captured ==> r is Ok && *final(self) == (Payment {
                state: PaymentState::Refunded,
                updated_at: timestamp,
                ..*old(self)
            }),
            old(self).state != PaymentState::Captured ==> r is Err && *final(self) == *old(self)
                && is_transition_error(r->Err_0, *old(self), "Refunded"@),
    {
        if self.state != PaymentState::Captured {
            return Err(self.transition_error("Refunded"));
        }
        self.state = PaymentState::Refunded;
        self.updated_at = timestamp;
        Ok(())
    }
}


/// The flags of customer deposit and merchant liability accounts.
pub open spec fn customer_flags() -> AccountFlags {
    AccountFlags { debits_must_not_exceed_credits: true, credits_must_not_exceed_debits: false, is_closed: false }
}

/// The flags of the bank vault.
pub open spec fn bank_asset_flags() -> AccountFlags {
    AccountFlags { debits_must_not_exceed_credits: false, credits_must_not_exceed_debits: true, is_closed: false }
}

/// The flags of the fee revenue account.
pub open spec fn fee_revenue_flags() -> AccountFlags {
    AccountFlags { debits_must_not_exceed_credits: false, credits_must_not_exceed_debits: false, is_closed: false }
}

/// The platform fee revenue account.
pub open spec fn fee_revenue_account() -> AccountId {
    AccountId::from_spec(999_999)
}

/// The bank asset vault reserve account.
pub open spec fn vault_account() -> AccountId {
    AccountId::from_spec(100)
}

/// The deposit account of a customer.
pub open spec fn customer_account(customer_id: u128) -> AccountId {
    AccountId::from_spec((1_000_000 + customer_id) as u128)
}

/// The settlement liability account of a merchant.
pub open spec fn merchant_account(merchant_id: u128) -> AccountId {
    AccountId::from_spec((2_000_000 + merchant_id) as u128)
}

/// The identifier of the seed deposit of the customer at position `index`.
pub open spec fn deposit_transfer_id(index: int) -> TransferId {
    TransferId::from_spec((10_000 + index) as u128)
}

/// Opening one account: what `Ledger::create_account` returns and leaves.
pub open spec fn open_account(
    v: LedgerView,
    id: AccountId,
    account_type: AccountType,
    flags: AccountFlags,
    scale: Scale,
    timestamp: u64,
) -> (Result<(), LedgerError>, LedgerView) {
    v.after(
        spec_create_account(v.scale, v.state, id, account_type, flags, scale, timestamp),
        LedgerEvent::AccountCreated { id, account_type, flags, scale, timestamp },
    )
}

/// Seeding a customer account from the vault: building the transfer, then
/// posting it.
pub open spec fn seed_deposit(v: LedgerView, id: TransferId, account: AccountId, amount: u128, timestamp: u64) -> (
    Result<(), LedgerError>,
    LedgerView,
) {
    match spec_new_transfer(id, vault_account(), account, Amount::from_spec(amount), TransferState::Posted, None, timestamp) {
        Err(e) => (Err(e), v),
        Ok(t) => v.after(spec_create_transfer(v.state, t), LedgerEvent::TransferPosted { transfer: t }),
    }
}

/// Opening the merchant accounts in order, stopping at the first failure.
pub open spec fn open_merchants(v: LedgerView, scale: Scale, merchants: Seq<u128>, timestamp: u64) -> (
    Result<(), LedgerError>,
    LedgerView,
)
    decreases merchants.len(),
{
    if merchants.len() == 0 {
        (Ok(()), v)
    } else {
        let (r, v1) = open_merchants(v, scale, merchants.drop_last(), timestamp);
        if r is Err {
            (r, v1)
        } else {
            open_account(v1, merchant_account(merchants.last()), AccountType::Liability, customer_flags(), scale, timestamp)
        }
    }
}

/// Opening the customer accounts in order, each followed by its seed deposit
/// when the deposit is positive, stopping at the first failure.
pub open spec fn open_customers(v: LedgerView, scale: Scale, customers: Seq<u128>, deposit: u128, timestamp: u64) -> (
    Result<(), LedgerError>,
    LedgerView,
)
    decreases customers.len(),
{
    if customers.len() == 0 {
        (Ok(()), v)
    } else {
        let (r, v1) = open_customers(v, scale, customers.drop_last(), deposit, timestamp);
        if r is Err {
            (r, v1)
        } else {
            let account = customer_account(customers.last());
            let (r2, v2) = open_account(v1, account, AccountType::Liability, customer_flags(), scale, timestamp);
            if r2 is Err || deposit == 0 {
                (r2, v2)
            } else {
                seed_deposit(v2, deposit_transfer_id(customers.len() - 1), account, deposit, timestamp)
            }
        }
    }
}

/// The full account setup: vault, fee revenue, merchants, then customers,
/// stopping at the first failure and keeping what was done before it.
pub open spec fn spec_setup_accounts(
    v: LedgerView,
    scale: Scale,
    merchants: Seq<u128>,
    customers: Seq<u128>,
    deposit: u128,
    timestamp: u64,
) -> (Result<(), LedgerError>, LedgerView) {
    let (r1, v1) = open_account(v, vault_account(), AccountType::Asset, bank_asset_flags(), scale, timestamp);
    if r1 is Err {
        (r1, v1)
    } else {
        let (r2, v2) = open_account(v1, fee_revenue_account(), AccountType::Revenue, fee_revenue_flags(), scale, timestamp);
        if r2 is Err {
            (r2, v2)
        } else {
            let (r3, v3) = open_merchants(v2, scale, merchants, timestamp);
            if r3 is Err {
                (r3, v3)
            } else {
                open_customers(v3, scale, customers, deposit, timestamp)
            }
        }
    }
}

/// A ledger result as a payment result.
pub open spec fn as_payment_result(r: Result<(), LedgerError>) -> Result<(), PaymentError> {
    match r {
        Ok(_) => Ok(()),
        Err(e) => Err(PaymentError::Ledger(e)),
    }
}

/// Once the merchants opened so far have failed, opening more changes nothing.
proof fn lemma_open_merchants_stops(v: LedgerView, scale: Scale, merchants: Seq<u128>, timestamp: u64, k: int)
    requires
        0 <= k <= merchants.len(),
        open_merchants(v, scale, merchants.take(k), timestamp).0 is Err,
    ensures
        open_merchants(v, scale, merchants, timestamp) == open_merchants(v, scale, merchants.take(k), timestamp),
    decreases merchants.len(),
{
    if k == merchants.len() {
        assert(merchants.take(k) =~= merchants);
    } else {
        assert(merchants.drop_last().take(k) =~= merchants.take(k));
        lemma_open_merchants_stops(v, scale, merchants.drop_last(), timestamp, k);
    }
}

/// Once the customers opened so far have failed, opening more changes nothing.
proof fn lemma_open_customers_stops(
    v: LedgerView,
    scale: Scale,
    customers: Seq<u128>,
    deposit: u128,
    timestamp: u64,
    k: int,
)
    requires
        0 <= k <= customers.len(),
        open_customers(v, scale, customers.take(k), deposit, timestamp).0 is Err,
    ensures
        open_customers(v, scale, customers, deposit, timestamp) == open_customers(v, scale, customers.take(k), deposit, timestamp),
    decreases customers.len(),
{
    if k == customers.len() {
        assert(customers.take(k) =~= customers);
    } else {
        assert(customers.drop_last().take(k) =~= customers.take(k));
        lemma_open_customers_stops(v, scale, customers.drop_last(), deposit, timestamp, k);
    }
}

/// Helper mapping domain IDs to ledger account IDs.
pub struct AccountDirectory;

impl AccountDirectory {
    /// Platform fee revenue account ID.
    pub fn fee_revenue() -> (r: AccountId)
        ensures
            r == fee_revenue_account(),
            r@ == 999_999,
    {
        AccountId::new(999_999)
    }

    /// Bank asset vault reserve account ID.
    pub fn vault_asset() -> (r: AccountId)
        ensures
            r == vault_account(),
            r@ == 100,
    {
        AccountId::new(100)
    }

    /// Compute customer deposit account ID.
    pub fn customer(customer_id: u128) -> (r: AccountId)
        requires
            customer_id <= u128::MAX - 1_000_000,
        ensures
            r == customer_account(customer_id),
            r@ == 1_000_000 + customer_id,
    {
        AccountId::new(1_000_000 + customer_id)
    }

    /// Compute merchant settlement liability account ID.
    pub fn merchant(merchant_id: u128) -> (r: AccountId)
        requires
            merchant_id <= u128::MAX - 2_000_000,
        ensures
            r == merchant_account(merchant_id),
            r@ == 2_000_000 + merchant_id,
    {
        AccountId::new(2_000_000 + merchant_id)
    }

    /// Initialize core accounts in the ledger: the vault, fee revenue, each
    /// merchant, then each customer seeded with `initial_customer_deposit`
    /// from the vault when that is positive.
    ///
    /// Stops at the first ledger failure with `PaymentError::Ledger`; what
    /// was created before it stays.
    pub fn setup_accounts(
        ledger: &mut Ledger,
        scale: Scale,
        merchants: &[u128],
        customers: &[u128],
        initial_customer_deposit: u128,
        timestamp: u64,
    ) -> (r: Result<(), PaymentError>)
        requires
            old(ledger).wf(),
            forall|i: int| 0 <= i < merchants@.len() ==> merchants@[i] <= u128::MAX - 2_000_000,
            forall|i: int| 0 <= i < customers@.len() ==> customers@[i] <= u128::MAX - 1_000_000,
        ensures
            final(ledger).wf(),
            ({
                let (res, v) = spec_setup_accounts(
                    old(ledger)@,
                    scale,
                    merchants@,
                    customers@,
                    initial_customer_deposit,
                    timestamp,
                );
                r == as_payment_result(res) && final(ledger)@ == v
            }),
    {
        let ghost v0 = ledger@;
        if let Err(e) = ledger.create_account(
            Self::vault_asset(),
            AccountType::Asset,
            AccountFlags::bank_asset(),
            scale,
            timestamp,
        ) {
            return Err(PaymentError::Ledger(e));
        }
        let ghost v1 = ledger@;
        if let Err(e) = ledger.create_account(
            Self::fee_revenue(),
            AccountType::Revenue,
            AccountFlags::fee_revenue(),
            scale,
            timestamp,
        ) {
            return Err(PaymentError::Ledger(e));
        }
        let ghost v2 = ledger@;
        let mut i: usize = 0;
        while i < merchants.len()
            invariant
                0 <= i <= merchants@.len(),
                ledger.wf(),
                forall|j: int| 0 <= j < merchants@.len() ==> merchants@[j] <= u128::MAX - 2_000_000,
                v0 == old(ledger)@,
                open_account(v0, vault_account(), AccountType::Asset, bank_asset_flags(), scale, timestamp) == (
                    Ok::<(), LedgerError>(()),
                    v1,
                ),
                open_account(v1, fee_revenue_account(), AccountType::Revenue, fee_revenue_flags(), scale, timestamp)
                    == (Ok::<(), LedgerError>(()), v2),
                open_merchants(v2, scale, merchants@.take(i as int), timestamp) == (
                    Ok::<(), LedgerError>(()),
                    ledger@,
                ),
            decreases merchants.len() - i,
        {
            let m_id = merchants[i];
            proof {
                assert(merchants@.take(i as int + 1).drop_last() =~= merchants@.take(i as int));
            }
            if let Err(e) = ledger.create_account(
                Self::merchant(m_id),
                AccountType::Liability,
                AccountFlags::customer(),
                scale,
                timestamp,
            ) {
                proof {
                    lemma_open_merchants_stops(v2, scale, merchants@, timestamp, i as int + 1);
                }
                return Err(PaymentError::Ledger(e));
            }
            i += 1;
        }
        proof {
            assert(merchants@.take(merchants@.len() as int) =~= merchants@);
        }
        let ghost v3 = ledger@;
        let mut k: usize = 0;
        while k < customers.len()
            invariant
                0 <= k <= customers@.len(),
                ledger.wf(),
                forall|j: int| 0 <= j < customers@.len() ==> customers@[j] <= u128::MAX - 1_000_000,
                v0 == old(ledger)@,
                open_account(v0, vault_account(), AccountType::Asset, bank_asset_flags(), scale, timestamp) == (
                    Ok::<(), LedgerError>(()),
                    v1,
                ),
                open_account(v1, fee_revenue_account(), AccountType::Revenue, fee_revenue_flags(), scale, timestamp)
                    == (Ok::<(), LedgerError>(()), v2),
                open_merchants(v2, scale, merchants@, timestamp) == (Ok::<(), LedgerError>(()), v3),
                open_customers(v3, scale, customers@.take(k as int), initial_customer_deposit, timestamp) == (
                    Ok::<(), LedgerError>(()),
                    ledger@,
                ),
            decreases customers.len() - k,
        {
            let c_id = customers[k];
            let acc_id = Self::customer(c_id);
            proof {
                assert(customers@.take(k as int + 1).drop_last() =~= customers@.take(k as int));
            }
            if let Err(e) = ledger.create_account(
                acc_id,
                AccountType::Liability,
                AccountFlags::customer(),
                scale,
                timestamp,
            ) {
                proof {
                    lemma_open_customers_stops(v3, scale, customers@, initial_customer_deposit, timestamp, k as int + 1);
                }
                return Err(PaymentError::Ledger(e));
            }
            if initial_customer_deposit > 0 {
                let deposit = match Transfer::new_immediate(
                    TransferId::new(10_000 + k as u128),
                    Self::vault_asset(),
                    acc_id,
                    Amount::new(initial_customer_deposit),
                    timestamp,
                ) {
                    Ok(t) => t,
                    Err(e) => {
                        proof {
                            lemma_open_customers_stops(v3, scale, customers@, initial_customer_deposit, timestamp, k as int + 1);
                        }
                        return Err(PaymentError::Ledger(e));
                    },
                };
                if let Err(e) = ledger.create_transfer(deposit) {
                    proof {
                        lemma_open_customers_stops(v3, scale, customers@, initial_customer_deposit, timestamp, k as int + 1);
                    }
                    return Err(PaymentError::Ledger(e));
                }
            }
            k += 1;
        }
        proof {
            assert(customers@.take(customers@.len() as int) =~= customers@);
        }
        Ok(())
    }
}

} // verus!
