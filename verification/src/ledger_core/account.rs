//! Accounts, balance limits, and balances.

use vstd::prelude::*;

use crate::ledger_core::amount::{Amount, Scale};
use crate::ledger_core::error::LedgerError;
use crate::ledger_core::id::AccountId;

verus! {

broadcast use crate::ledger_core::amount::group_amount;

/// Account type in double-entry bookkeeping.
#[derive(Copy, Clone, Debug, PartialEq, Eq, Hash, Structural)]
pub enum AccountType {
    /// Assets: things owned (cash, receivables). Normal balance is debit.
    Asset,
    /// Liabilities: things owed (customer deposits). Normal balance is credit.
    Liability,
    /// Equity: capital and retained earnings. Normal balance is credit.
    Equity,
    /// Revenue: income earned (fees). Normal balance is credit.
    Revenue,
    /// Expenses: costs incurred (network fees). Normal balance is debit.
    Expense,
}

/// Rules that control what an account can do.
#[derive(Copy, Clone, Debug, PartialEq, Eq, Hash, Structural)]
pub struct AccountFlags {
    /// Disallow negative balance (no overdrafts).
    pub debits_must_not_exceed_credits: bool,
    /// Disallow asset reserves from dropping below zero.
    pub credits_must_not_exceed_debits: bool,
    /// If true, reject all new transfers.
    pub is_closed: bool,
}

impl Default for AccountFlags {
    fn default() -> (r: Self)
        ensures
            !r.debits_must_not_exceed_credits && !r.credits_must_not_exceed_debits && !r.is_closed,
    {
        Self::unrestricted()
    }
}

impl AccountFlags {
    /// Settings for customer deposit accounts: no overdrafts.
    pub fn customer() -> (r: Self)
        ensures
            r.debits_must_not_exceed_credits && !r.credits_must_not_exceed_debits && !r.is_closed,
    {
        Self { debits_must_not_exceed_credits: true, credits_must_not_exceed_debits: false, is_closed: false }
    }

    /// Settings for bank vaults: reserves cannot go negative.
    pub fn bank_asset() -> (r: Self)
        ensures
            !r.debits_must_not_exceed_credits && r.credits_must_not_exceed_debits && !r.is_closed,
    {
        Self { debits_must_not_exceed_credits: false, credits_must_not_exceed_debits: true, is_closed: false }
    }

    /// Settings for fee revenue accounts: unlimited credits.
    pub fn fee_revenue() -> (r: Self)
        ensures
            !r.debits_must_not_exceed_credits && !r.credits_must_not_exceed_debits && !r.is_closed,
    {
        Self { debits_must_not_exceed_credits: false, credits_must_not_exceed_debits: false, is_closed: false }
    }

    /// Settings with no limits, used for internal clearing.
    pub fn unrestricted() -> (r: Self)
        ensures
            !r.debits_must_not_exceed_credits && !r.credits_must_not_exceed_debits && !r.is_closed,
    {
        Self { debits_must_not_exceed_credits: false, credits_must_not_exceed_debits: false, is_closed: false }
    }
}

/// Balances for an account, tracking posted totals and pending holds.
#[derive(Copy, Clone, Debug, PartialEq, Eq, Hash, Structural)]
pub struct Balance {
    /// Total settled debits.
    pub debits_posted: Amount,
    /// Total settled credits.
    pub credits_posted: Amount,
    /// Debits currently held in pending transfers.
    pub debits_pending: Amount,
    /// Credits currently held in pending transfers.
    pub credits_pending: Amount,
}

/// The all-zero balance.
pub open spec fn zero_balance() -> Balance {
    Balance {
        debits_posted: Amount::from_spec(0),
        credits_posted: Amount::from_spec(0),
        debits_pending: Amount::from_spec(0),
        credits_pending: Amount::from_spec(0),
    }
}

/// The signed net balance of `b` for an account of type `t`.
pub open spec fn spec_net_settled(b: Balance, t: AccountType) -> Result<i128, LedgerError> {
    if b.debits_posted@ > i128::MAX || b.credits_posted@ > i128::MAX {
        Err(LedgerError::SignedBalanceOverflow)
    } else {
        match t {
            AccountType::Asset | AccountType::Expense => Ok(
                (b.debits_posted@ - b.credits_posted@) as i128,
            ),
            _ => Ok((b.credits_posted@ - b.debits_posted@) as i128),
        }
    }
}

/// Credits posted minus all debits (posted and pending), floored at zero.
pub open spec fn spec_available_liability(b: Balance) -> Result<Amount, LedgerError> {
    let debits = b.debits_posted@ + b.debits_pending@;
    if debits > u128::MAX {
        Err(LedgerError::ArithmeticOverflow)
    } else if b.credits_posted@ >= debits {
        Ok(Amount::from_spec((b.credits_posted@ - debits) as u128))
    } else {
        Ok(Amount::from_spec(0))
    }
}

/// Debits posted minus all credits (posted and pending), floored at zero.
pub open spec fn spec_available_asset(b: Balance) -> Result<Amount, LedgerError> {
    let credits = b.credits_posted@ + b.credits_pending@;
    if credits > u128::MAX {
        Err(LedgerError::ArithmeticOverflow)
    } else if b.debits_posted@ >= credits {
        Ok(Amount::from_spec((b.debits_posted@ - credits) as u128))
    } else {
        Ok(Amount::from_spec(0))
    }
}

/// Whether `a` may be debited by `amount`, and the error if not.
pub open spec fn spec_ensure_can_debit(a: Account, amount: Amount) -> Result<(), LedgerError> {
    let b = a.balance;
    let held = b.debits_posted@ + b.debits_pending@;
    if a.flags.is_closed {
        Err(LedgerError::AccountClosed(a.id))
    } else if !a.flags.debits_must_not_exceed_credits {
        Ok(())
    } else if held > u128::MAX || held + amount@ > u128::MAX {
        Err(LedgerError::ArithmeticOverflow)
    } else if held + amount@ > b.credits_posted@ {
        Err(LedgerError::InsufficientFunds {
            account_id: a.id,
            requested: amount,
            available: spec_available_liability(b)->Ok_0,
        })
    } else {
        Ok(())
    }
}

/// Whether `a` may be credited by `amount`, and the error if not.
pub open spec fn spec_ensure_can_credit(a: Account, amount: Amount) -> Result<(), LedgerError> {
    let b = a.balance;
    let held = b.credits_posted@ + b.credits_pending@;
    if a.flags.is_closed {
        Err(LedgerError::AccountClosed(a.id))
    } else if !a.flags.credits_must_not_exceed_debits {
        Ok(())
    } else if held > u128::MAX || held + amount@ > u128::MAX {
        Err(LedgerError::ArithmeticOverflow)
    } else if held + amount@ > b.debits_posted@ {
        Err(LedgerError::InsufficientFunds {
            account_id: a.id,
            requested: amount,
            available: spec_available_asset(b)->Ok_0,
        })
    } else {
        Ok(())
    }
}

impl Balance {
    /// Create empty balances starting at zero.
    pub fn new() -> (r: Self)
        ensures
            r == zero_balance(),
    {
        Self {
            debits_posted: Amount::zero(),
            credits_posted: Amount::zero(),
            debits_pending: Amount::zero(),
            credits_pending: Amount::zero(),
        }
    }

    /// Net balance based on account type: debits minus credits for assets and
    /// expenses, credits minus debits otherwise.
    pub fn net_settled(&self, account_type: AccountType) -> (r: Result<i128, LedgerError>)
        ensures
            r == spec_net_settled(*self, account_type),
    {
        let d = self.debits_posted.as_u128();
        let c = self.credits_posted.as_u128();
        if d > i128::MAX as u128 {
            return Err(LedgerError::SignedBalanceOverflow);
        }
        if c > i128::MAX as u128 {
            return Err(LedgerError::SignedBalanceOverflow);
        }
        let debits = d as i128;
        let credits = c as i128;
        match account_type {
            AccountType::Asset | AccountType::Expense => Ok(debits - credits),
            AccountType::Liability | AccountType::Equity | AccountType::Revenue => Ok(credits - debits),
        }
    }

    /// Spendable balance for customer accounts (credits minus debits posted
    /// and pending); zero if debits equal or exceed credits.
    pub fn available_liability(&self) -> (r: Result<Amount, LedgerError>)
        ensures
            r == spec_available_liability(*self),
    {
        let total_debits = match self.debits_posted.checked_add(self.debits_pending) {
            Ok(t) => t,
            Err(e) => return Err(e),
        };
        let debits = total_debits.as_u128();
        if self.credits_posted.as_u128() >= debits {
            Ok(Amount::new(self.credits_posted.as_u128() - debits))
        } else {
            Ok(Amount::zero())
        }
    }

    /// Spendable balance for asset accounts (debits minus credits posted and
    /// pending); zero if credits equal or exceed debits.
    pub fn available_asset(&self) -> (r: Result<Amount, LedgerError>)
        ensures
            r == spec_available_asset(*self),
    {
        let total_credits = match self.credits_posted.checked_add(self.credits_pending) {
            Ok(t) => t,
            Err(e) => return Err(e),
        };
        let credits = total_credits.as_u128();
        if self.debits_posted.as_u128() >= credits {
            Ok(Amount::new(self.debits_posted.as_u128() - credits))
        } else {
            Ok(Amount::zero())
        }
    }
}

impl Default for Balance {
    fn default() -> (r: Self)
        ensures
            r == zero_balance(),
    {
        Self::new()
    }
}

/// A ledger account.
#[derive(Copy, Clone, Debug, PartialEq, Eq, Structural)]
pub struct Account {
    /// Unique account ID.
    pub id: AccountId,
    /// Account type (asset, liability, etc.).
    pub account_type: AccountType,
    /// Account rules and limits.
    pub flags: AccountFlags,
    /// Currency decimal scale.
    pub scale: Scale,
    /// Current balances.
    pub balance: Balance,
}

impl Account {
    /// Create an account with zero balance.
    pub fn new(id: AccountId, account_type: AccountType, flags: AccountFlags, scale: Scale) -> (r: Self)
        ensures
            r == (Account { id, account_type, flags, scale, balance: zero_balance() }),
    {
        Self { id, account_type, flags, scale, balance: Balance::new() }
    }

    /// Check if this account can be debited by this amount.
    pub fn ensure_can_debit(&self, amount: Amount) -> (r: Result<(), LedgerError>)
        ensures
            r == spec_ensure_can_debit(*self, amount),
    {
        if self.flags.is_closed {
            return Err(LedgerError::AccountClosed(self.id));
        }
        if self.flags.debits_must_not_exceed_credits {
            let held = match self.balance.debits_posted.checked_add(self.balance.debits_pending) {
                Ok(t) => t,
                Err(e) => return Err(e),
            };
            let total_debits = match held.checked_add(amount) {
                Ok(t) => t,
                Err(e) => return Err(e),
            };
            if total_debits.as_u128() > self.balance.credits_posted.as_u128() {
                let available = match self.balance.available_liability() {
                    Ok(v) => v,
                    Err(e) => return Err(e),
                };
                return Err(LedgerError::InsufficientFunds { account_id: self.id, requested: amount, available });
            }
        }
        Ok(())
    }

    /// Check if this account can be credited by this amount.
    pub fn ensure_can_credit(&self, amount: Amount) -> (r: Result<(), LedgerError>)
        ensures
            r == spec_ensure_can_credit(*self, amount),
    {
        if self.flags.is_closed {
            return Err(LedgerError::AccountClosed(self.id));
        }
        if self.flags.credits_must_not_exceed_debits {
            let held = match self.balance.credits_posted.checked_add(self.balance.credits_pending) {
                Ok(t) => t,
                Err(e) => return Err(e),
            };
            let total_credits = match held.checked_add(amount) {
                Ok(t) => t,
                Err(e) => return Err(e),
            };
            if total_credits.as_u128() > self.balance.debits_posted.as_u128() {
                let available = match self.balance.available_asset() {
                    Ok(v) => v,
                    Err(e) => return Err(e),
                };
                return Err(LedgerError::InsufficientFunds { account_id: self.id, requested: amount, available });
            }
        }
        Ok(())
    }
}

} // verus!
