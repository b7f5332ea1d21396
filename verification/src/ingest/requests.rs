//! Requests and replies of the ingress service as the wire carries them, and
//! their conversion to and from ingress operations and ledger records.
//!
//! The service reads a request, converts it here, submits the operation to
//! the ingest queue, and converts the result back for the reply.

use vstd::prelude::*;

use crate::ingest::error::IngestError;
use crate::ingest::batch::MutationResult;
use crate::ingest::queue::IngestOp;
use crate::ingest::wire::{WireAmount, amount_to_wire, parse_amount, wire_units};
use crate::ledger_core::account::{Account, AccountFlags, AccountType, Balance};
use crate::ledger_core::amount::{Amount, MAX_SCALE, Scale, group_amount};
use crate::ledger_core::error::LedgerError;
use crate::ledger_core::id::{AccountId, TransferId, group_id};
use crate::ledger_core::transfer::{Transfer, TransferState};

verus! {

broadcast use {group_amount, group_id};

/// Why a wire message does not convert: invalid input with a reason, or a
/// ledger rule.
pub enum WireFault {
    /// The input is malformed; the reason says how.
    Invalid(Seq<char>),
    /// A ledger rule refuses the input.
    Ledger(LedgerError),
}

/// Whether the ingress error `e` reports the fault `f`.
pub open spec fn is_fault(e: IngestError, f: WireFault) -> bool {
    match f {
        WireFault::Invalid(reason) => e matches IngestError::InvalidInput(s) && s@ == reason,
        WireFault::Ledger(le) => e == IngestError::Ledger(le),
    }
}

/// Whether `r` is the conversion `spec` describes.
pub open spec fn converts_as<T>(r: Result<T, IngestError>, spec: Result<T, WireFault>) -> bool {
    match spec {
        Ok(v) => r == Ok::<T, IngestError>(v),
        Err(f) => r is Err && is_fault(r->Err_0, f),
    }
}

/// An account type as the wire names it.
#[derive(Clone, Copy, Debug, PartialEq, Eq, Structural)]
pub enum WireAccountType {
    /// No type given.
    Unspecified,
    /// An asset account.
    Asset,
    /// A liability account.
    Liability,
    /// An equity account.
    Equity,
    /// A revenue account.
    Revenue,
    /// An expense account.
    Expense,
}

/// A transfer state as the wire names it.
#[derive(Clone, Copy, Debug, PartialEq, Eq, Structural)]
pub enum WireTransferState {
    /// A hold awaiting post or void.
    Pending,
    /// Settled.
    Posted,
    /// Cancelled.
    Voided,
}

/// Account flags as the wire carries them.
#[derive(Clone, Copy, Debug, PartialEq, Eq, Structural)]
pub struct WireAccountFlags {
    /// Debits may not exceed credits.
    pub debits_must_not_exceed_credits: bool,
    /// Credits may not exceed debits.
    pub credits_must_not_exceed_debits: bool,
    /// The account is closed.
    pub is_closed: bool,
}

/// An account balance as the wire carries it.
#[derive(Clone, Copy, Debug, PartialEq, Eq, Structural)]
pub struct WireBalance {
    /// Settled debits.
    pub debits_posted: Option<WireAmount>,
    /// Settled credits.
    pub credits_posted: Option<WireAmount>,
    /// Held debits.
    pub debits_pending: Option<WireAmount>,
    /// Held credits.
    pub credits_pending: Option<WireAmount>,
}

/// An account as the wire carries it.
#[derive(Clone, Copy, Debug, PartialEq, Eq, Structural)]
pub struct WireAccount {
    /// Account ID, in 64 bits.
    pub id: u64,
    /// Account type.
    pub account_type: WireAccountType,
    /// Account rules.
    pub flags: Option<WireAccountFlags>,
    /// Currency scale.
    pub scale: u32,
    /// Balance.
    pub balance: Option<WireBalance>,
}

/// A transfer as the wire carries it.
#[derive(Clone, Copy, Debug, PartialEq, Eq, Structural)]
pub struct WireTransfer {
    /// Transfer ID, in 64 bits.
    pub id: u64,
    /// Account debited, in 64 bits.
    pub debit_account_id: u64,
    /// Account credited, in 64 bits.
    pub credit_account_id: u64,
    /// Amount moved.
    pub amount: Option<WireAmount>,
    /// State.
    pub state: WireTransferState,
    /// The hold it settles, in 64 bits.
    pub pending_id: Option<u64>,
    /// Timestamp.
    pub timestamp: u64,
}

/// A request to create an account.
#[derive(Clone, Copy, Debug, PartialEq, Eq, Structural)]
pub struct WireCreateAccount {
    /// Account ID.
    pub id: u64,
    /// Account type; `None` when the wire value names no type the schema
    /// knows.
    pub account_type: Option<WireAccountType>,
    /// Account rules; none means the default rules.
    pub flags: Option<WireAccountFlags>,
    /// Currency scale.
    pub scale: u32,
    /// Requested timestamp; zero asks the engine to allocate one.
    pub timestamp: u64,
}

/// A request to move or hold an amount between two accounts.
#[derive(Clone, Copy, Debug, PartialEq, Eq, Structural)]
pub struct WireMoveFunds {
    /// Transfer ID.
    pub id: u64,
    /// Account debited.
    pub debit_account_id: u64,
    /// Account credited.
    pub credit_account_id: u64,
    /// Amount.
    pub amount: Option<WireAmount>,
    /// Requested timestamp; zero asks the engine to allocate one.
    pub timestamp: u64,
}

/// A request to settle a hold.
#[derive(Clone, Copy, Debug, PartialEq, Eq, Structural)]
pub struct WirePostPending {
    /// The hold.
    pub pending_id: u64,
    /// ID of the settlement transfer.
    pub post_transfer_id: u64,
    /// Amount settled.
    pub amount: Option<WireAmount>,
    /// Requested timestamp; zero asks the engine to allocate one.
    pub timestamp: u64,
}

/// A request to cancel a hold.
#[derive(Clone, Copy, Debug, PartialEq, Eq, Structural)]
pub struct WireVoidPending {
    /// The hold.
    pub pending_id: u64,
    /// Requested timestamp; zero asks the engine to allocate one.
    pub timestamp: u64,
}

/// One operation of a batch request.
#[derive(Clone, Copy, Debug, PartialEq, Eq, Structural)]
pub enum WireOperation {
    /// Create an account.
    CreateAccount(WireCreateAccount),
    /// Create and settle a transfer.
    CreateTransfer(WireMoveFunds),
    /// Create a hold.
    CreatePending(WireMoveFunds),
    /// Settle a hold.
    PostPending(WirePostPending),
    /// Cancel a hold.
    VoidPending(WireVoidPending),
}

/// The account type a wire value names.
pub open spec fn spec_account_type(t: Option<WireAccountType>) -> Result<AccountType, WireFault> {
    match t {
        Some(WireAccountType::Asset) => Ok(AccountType::Asset),
        Some(WireAccountType::Liability) => Ok(AccountType::Liability),
        Some(WireAccountType::Equity) => Ok(AccountType::Equity),
        Some(WireAccountType::Revenue) => Ok(AccountType::Revenue),
        Some(WireAccountType::Expense) => Ok(AccountType::Expense),
        _ => Err(WireFault::Invalid("unknown or unspecified account type"@)),
    }
}

/// Read an account type from the wire.
pub fn account_type_from_wire(t: Option<WireAccountType>) -> (r: Result<AccountType, IngestError>)
    ensures
        converts_as(r, spec_account_type(t)),
{
    match t {
        Some(WireAccountType::Asset) => Ok(AccountType::Asset),
        Some(WireAccountType::Liability) => Ok(AccountType::Liability),
        Some(WireAccountType::Equity) => Ok(AccountType::Equity),
        Some(WireAccountType::Revenue) => Ok(AccountType::Revenue),
        Some(WireAccountType::Expense) => Ok(AccountType::Expense),
        _ => Err(IngestError::InvalidInput("unknown or unspecified account type".to_owned())),
    }
}

/// The wire name of an account type.
pub open spec fn spec_wire_account_type(t: AccountType) -> WireAccountType {
    match t {
        AccountType::Asset => WireAccountType::Asset,
        AccountType::Liability => WireAccountType::Liability,
        AccountType::Equity => WireAccountType::Equity,
        AccountType::Revenue => WireAccountType::Revenue,
        AccountType::Expense => WireAccountType::Expense,
    }
}

/// Name an account type on the wire.
pub fn account_type_to_wire(t: AccountType) -> (r: WireAccountType)
    ensures
        r == spec_wire_account_type(t),
{
    match t {
        AccountType::Asset => WireAccountType::Asset,
        AccountType::Liability => WireAccountType::Liability,
        AccountType::Equity => WireAccountType::Equity,
        AccountType::Revenue => WireAccountType::Revenue,
        AccountType::Expense => WireAccountType::Expense,
    }
}

/// Read account flags from the wire; none means the default rules.
pub fn flags_from_wire(flags: Option<WireAccountFlags>) -> (r: AccountFlags)
    ensures
        match flags {
            Some(f) => r == (AccountFlags {
                debits_must_not_exceed_credits: f.debits_must_not_exceed_credits,
                credits_must_not_exceed_debits: f.credits_must_not_exceed_debits,
                is_closed: f.is_closed,
            }),
            None => !r.debits_must_not_exceed_credits && !r.credits_must_not_exceed_debits && !r.is_closed,
        },
{
    match flags {
        Some(f) => AccountFlags {
            debits_must_not_exceed_credits: f.debits_must_not_exceed_credits,
            credits_must_not_exceed_debits: f.credits_must_not_exceed_debits,
            is_closed: f.is_closed,
        },
        None => AccountFlags::default(),
    }
}

/// Put account flags on the wire.
pub fn flags_to_wire(flags: AccountFlags) -> (r: WireAccountFlags)
    ensures
        r == (WireAccountFlags {
            debits_must_not_exceed_credits: flags.debits_must_not_exceed_credits,
            credits_must_not_exceed_debits: flags.credits_must_not_exceed_debits,
            is_closed: flags.is_closed,
        }),
{
    WireAccountFlags {
        debits_must_not_exceed_credits: flags.debits_must_not_exceed_credits,
        credits_must_not_exceed_debits: flags.credits_must_not_exceed_debits,
        is_closed: flags.is_closed,
    }
}

/// The scale a wire value names.
pub open spec fn spec_scale(scale: u32) -> Result<Scale, WireFault> {
    if scale > 255 {
        Err(WireFault::Invalid("scale exceeds u8 limit"@))
    } else if scale > MAX_SCALE {
        Err(WireFault::Ledger(LedgerError::InvalidScale(scale as u8)))
    } else {
        Ok(Scale::from_spec(scale as u8))
    }
}

/// Read a currency scale from the wire.
pub fn scale_from_wire(scale: u32) -> (r: Result<Scale, IngestError>)
    ensures
        converts_as(r, spec_scale(scale)),
{
    if scale > 255 {
        return Err(IngestError::InvalidInput("scale exceeds u8 limit".to_owned()));
    }
    match Scale::new(scale as u8) {
        Ok(s) => Ok(s),
        Err(e) => Err(IngestError::Ledger(e)),
    }
}

/// The amount a wire amount names, for a service whose scale is `expected`.
pub open spec fn spec_amount(expected: Scale, wire: Option<WireAmount>) -> Result<Amount, WireFault> {
    match wire {
        None => Err(WireFault::Invalid("amount is required"@)),
        Some(w) => if w.scale != 0 && w.scale > 255 {
            Err(WireFault::Invalid("amount scale exceeds u8 limit"@))
        } else if w.scale != 0 && w.scale > 18 {
            Err(WireFault::Ledger(LedgerError::InvalidScale(w.scale as u8)))
        } else if w.scale != 0 && w.scale != expected@ {
            Err(WireFault::Ledger(LedgerError::ScaleMismatch { expected, actual: Scale::from_spec(w.scale as u8) }))
        } else {
            Ok(Amount::from_spec(wire_units(w) as u128))
        },
    }
}

fn amount_from_wire(expected: Scale, wire: Option<WireAmount>) -> (r: Result<Amount, IngestError>)
    ensures
        converts_as(r, spec_amount(expected, wire)),
{
    parse_amount(expected, wire)
}

/// The operation a request to create an account stands for.
pub open spec fn spec_create_account_op(req: WireCreateAccount) -> Result<IngestOp, WireFault> {
    match spec_account_type(req.account_type) {
        Err(f) => Err(f),
        Ok(account_type) => match spec_scale(req.scale) {
            Err(f) => Err(f),
            Ok(scale) => Ok(IngestOp::CreateAccount {
                id: AccountId::from_spec(req.id as u128),
                account_type,
                flags: spec_flags(req.flags),
                scale,
                timestamp: req.timestamp,
            }),
        },
    }
}

/// The account rules a wire value names; none means the default rules.
pub open spec fn spec_flags(flags: Option<WireAccountFlags>) -> AccountFlags {
    match flags {
        Some(f) => AccountFlags {
            debits_must_not_exceed_credits: f.debits_must_not_exceed_credits,
            credits_must_not_exceed_debits: f.credits_must_not_exceed_debits,
            is_closed: f.is_closed,
        },
        None => AccountFlags {
            debits_must_not_exceed_credits: false,
            credits_must_not_exceed_debits: false,
            is_closed: false,
        },
    }
}

/// Convert a request to create an account.
pub fn create_account_op(req: WireCreateAccount) -> (r: Result<IngestOp, IngestError>)
    ensures
        converts_as(r, spec_create_account_op(req)),
{
    let account_type = match account_type_from_wire(req.account_type) {
        Ok(t) => t,
        Err(e) => return Err(e),
    };
    let flags = flags_from_wire(req.flags);
    let scale = match scale_from_wire(req.scale) {
        Ok(s) => s,
        Err(e) => return Err(e),
    };
    Ok(IngestOp::CreateAccount {
        id: AccountId::new(req.id as u128),
        account_type,
        flags,
        scale,
        timestamp: req.timestamp,
    })
}

/// The operation a request to move funds stands for: a settled transfer,
/// or a hold when `pending`.
pub open spec fn spec_move_funds_op(expected: Scale, req: WireMoveFunds, pending: bool) -> Result<IngestOp, WireFault> {
    match spec_amount(expected, req.amount) {
        Err(f) => Err(f),
        Ok(amount) => {
            let id = TransferId::from_spec(req.id as u128);
            let debit_account_id = AccountId::from_spec(req.debit_account_id as u128);
            let credit_account_id = AccountId::from_spec(req.credit_account_id as u128);
            if pending {
                Ok(IngestOp::CreatePending { id, debit_account_id, credit_account_id, amount, timestamp: req.timestamp })
            } else {
                Ok(IngestOp::CreateTransfer { id, debit_account_id, credit_account_id, amount, timestamp: req.timestamp })
            }
        },
    }
}

/// Convert a request to move funds: a settled transfer, or a hold when
/// `pending`.
pub fn move_funds_op(expected: Scale, req: WireMoveFunds, pending: bool) -> (r: Result<IngestOp, IngestError>)
    ensures
        converts_as(r, spec_move_funds_op(expected, req, pending)),
{
    let amount = match amount_from_wire(expected, req.amount) {
        Ok(a) => a,
        Err(e) => return Err(e),
    };
    let id = TransferId::new(req.id as u128);
    let debit_account_id = AccountId::new(req.debit_account_id as u128);
    let credit_account_id = AccountId::new(req.credit_account_id as u128);
    if pending {
        Ok(IngestOp::CreatePending { id, debit_account_id, credit_account_id, amount, timestamp: req.timestamp })
    } else {
        Ok(IngestOp::CreateTransfer { id, debit_account_id, credit_account_id, amount, timestamp: req.timestamp })
    }
}

/// The operation a request to settle a hold stands for.
pub open spec fn spec_post_pending_op(expected: Scale, req: WirePostPending) -> Result<IngestOp, WireFault> {
    match spec_amount(expected, req.amount) {
        Err(f) => Err(f),
        Ok(amount) => Ok(IngestOp::PostPending {
            pending_id: TransferId::from_spec(req.pending_id as u128),
            post_transfer_id: TransferId::from_spec(req.post_transfer_id as u128),
            amount,
            timestamp: req.timestamp,
        }),
    }
}

/// Convert a request to settle a hold.
pub fn post_pending_op(expected: Scale, req: WirePostPending) -> (r: Result<IngestOp, IngestError>)
    ensures
        converts_as(r, spec_post_pending_op(expected, req)),
{
    let amount = match amount_from_wire(expected, req.amount) {
        Ok(a) => a,
        Err(e) => return Err(e),
    };
    Ok(IngestOp::PostPending {
        pending_id: TransferId::new(req.pending_id as u128),
        post_transfer_id: TransferId::new(req.post_transfer_id as u128),
        amount,
        timestamp: req.timestamp,
    })
}

/// The operation a request to cancel a hold stands for.
pub open spec fn spec_void_pending_op(req: WireVoidPending) -> IngestOp {
    IngestOp::VoidPending { pending_id: TransferId::from_spec(req.pending_id as u128), timestamp: req.timestamp }
}

/// Convert a request to cancel a hold.
pub fn void_pending_op(req: WireVoidPending) -> (r: IngestOp)
    ensures
        r == spec_void_pending_op(req),
{
    IngestOp::VoidPending { pending_id: TransferId::new(req.pending_id as u128), timestamp: req.timestamp }
}

/// The operation one batch entry stands for; an entry without an
/// operation is refused.
pub open spec fn spec_batch_entry_op(expected: Scale, entry: Option<WireOperation>) -> Result<IngestOp, WireFault> {
    match entry {
        None => Err(WireFault::Invalid("empty batch operation"@)),
        Some(WireOperation::CreateAccount(c)) => spec_create_account_op(c),
        Some(WireOperation::CreateTransfer(t)) => spec_move_funds_op(expected, t, false),
        Some(WireOperation::CreatePending(p)) => spec_move_funds_op(expected, p, true),
        Some(WireOperation::PostPending(pp)) => spec_post_pending_op(expected, pp),
        Some(WireOperation::VoidPending(vp)) => Ok(spec_void_pending_op(vp)),
    }
}

/// Convert one batch entry.
pub fn batch_entry_op(expected: Scale, entry: Option<WireOperation>) -> (r: Result<IngestOp, IngestError>)
    ensures
        converts_as(r, spec_batch_entry_op(expected, entry)),
{
    match entry {
        None => Err(IngestError::InvalidInput("empty batch operation".to_owned())),
        Some(WireOperation::CreateAccount(c)) => create_account_op(c),
        Some(WireOperation::CreateTransfer(t)) => move_funds_op(expected, t, false),
        Some(WireOperation::CreatePending(p)) => move_funds_op(expected, p, true),
        Some(WireOperation::PostPending(pp)) => post_pending_op(expected, pp),
        Some(WireOperation::VoidPending(vp)) => Ok(void_pending_op(vp)),
    }
}

/// The operations a batch request stands for, in order, or the fault of
/// its first entry that does not convert.
pub open spec fn spec_batch_ops(expected: Scale, entries: Seq<Option<WireOperation>>) -> Result<Seq<IngestOp>, WireFault>
    decreases entries.len(),
{
    if entries.len() == 0 {
        Ok(Seq::empty())
    } else {
        match spec_batch_ops(expected, entries.drop_last()) {
            Err(f) => Err(f),
            Ok(ops) => match spec_batch_entry_op(expected, entries.last()) {
                Err(f) => Err(f),
                Ok(op) => Ok(ops.push(op)),
            },
        }
    }
}

/// Once a prefix of a batch fails, the whole batch fails the same way.
proof fn lemma_batch_fault_sticks(expected: Scale, entries: Seq<Option<WireOperation>>, k: int)
    requires
        0 <= k <= entries.len(),
        spec_batch_ops(expected, entries.take(k)) is Err,
    ensures
        spec_batch_ops(expected, entries) == spec_batch_ops(expected, entries.take(k)),
    decreases entries.len() - k,
{
    if k < entries.len() {
        assert(entries.take(k + 1).drop_last() == entries.take(k));
        lemma_batch_fault_sticks(expected, entries, k + 1);
    } else {
        assert(entries.take(k) == entries);
    }
}

/// Convert a whole batch request, entry by entry: the operations in order,
/// or the fault of the first entry that does not convert.
pub fn batch_ops_from_wire(expected: Scale, entries: &Vec<Option<WireOperation>>) -> (r: Result<Vec<IngestOp>, IngestError>)
    ensures
        match spec_batch_ops(expected, entries@) {
            Ok(ops) => r is Ok && r->Ok_0@ == ops,
            Err(f) => r is Err && is_fault(r->Err_0, f),
        },
{
    let mut ops: Vec<IngestOp> = Vec::new();
    let mut i: usize = 0;
    while i < entries.len()
        invariant
            0 <= i <= entries@.len(),
            spec_batch_ops(expected, entries@.take(i as int)) == Ok::<Seq<IngestOp>, WireFault>(ops@),
        decreases entries@.len() - i,
    {
        proof {
            assert(entries@.take(i + 1).drop_last() == entries@.take(i as int));
            assert(entries@.take(i + 1).last() == entries@[i as int]);
        }
        match batch_entry_op(expected, entries[i]) {
            Ok(op) => ops.push(op),
            Err(e) => {
                proof {
                    lemma_batch_fault_sticks(expected, entries@, i + 1);
                }
                return Err(e);
            },
        }
        i = i + 1;
    }
    proof {
        assert(entries@.take(i as int) == entries@);
    }
    Ok(ops)
}

/// Put a balance on the wire, in `scale`.
pub fn balance_to_wire(balance: Balance, scale: u32) -> (r: WireBalance)
    ensures
        r.debits_posted matches Some(w) && w.scale == scale && wire_units(w) == balance.debits_posted@,
        r.credits_posted matches Some(w) && w.scale == scale && wire_units(w) == balance.credits_posted@,
        r.debits_pending matches Some(w) && w.scale == scale && wire_units(w) == balance.debits_pending@,
        r.credits_pending matches Some(w) && w.scale == scale && wire_units(w) == balance.credits_pending@,
{
    WireBalance {
        debits_posted: Some(amount_to_wire(balance.debits_posted, scale)),
        credits_posted: Some(amount_to_wire(balance.credits_posted, scale)),
        debits_pending: Some(amount_to_wire(balance.debits_pending, scale)),
        credits_pending: Some(amount_to_wire(balance.credits_pending, scale)),
    }
}

/// Put an account on the wire; its ID keeps its low 64 bits.
pub fn account_to_wire(account: Account) -> (r: WireAccount)
    ensures
        r.id == account.id@ as u64,
        r.account_type == spec_wire_account_type(account.account_type),
        r.flags == Some(flags_to_wire_spec(account.flags)),
        r.scale == account.scale@,
        r.balance matches Some(b) && b.debits_posted matches Some(w) && w.scale == account.scale@ && wire_units(w)
            == account.balance.debits_posted@,
        r.balance matches Some(b) && b.credits_posted matches Some(w) && w.scale == account.scale@ && wire_units(w)
            == account.balance.credits_posted@,
        r.balance matches Some(b) && b.debits_pending matches Some(w) && w.scale == account.scale@ && wire_units(w)
            == account.balance.debits_pending@,
        r.balance matches Some(b) && b.credits_pending matches Some(w) && w.scale == account.scale@ && wire_units(w)
            == account.balance.credits_pending@,
{
    let scale: u32 = account.scale.as_u8() as u32;
    WireAccount {
        id: account.id.as_u128() as u64,
        account_type: account_type_to_wire(account.account_type),
        flags: Some(flags_to_wire(account.flags)),
        scale,
        balance: Some(balance_to_wire(account.balance, scale)),
    }
}

/// Account flags as the wire carries them.
pub open spec fn flags_to_wire_spec(flags: AccountFlags) -> WireAccountFlags {
    WireAccountFlags {
        debits_must_not_exceed_credits: flags.debits_must_not_exceed_credits,
        credits_must_not_exceed_debits: flags.credits_must_not_exceed_debits,
        is_closed: flags.is_closed,
    }
}

/// The wire name of a transfer state.
pub open spec fn spec_wire_transfer_state(s: TransferState) -> WireTransferState {
    match s {
        TransferState::Pending => WireTransferState::Pending,
        TransferState::Posted => WireTransferState::Posted,
        TransferState::Voided => WireTransferState::Voided,
    }
}

/// Name a transfer state on the wire.
pub fn transfer_state_to_wire(s: TransferState) -> (r: WireTransferState)
    ensures
        r == spec_wire_transfer_state(s),
{
    match s {
        TransferState::Pending => WireTransferState::Pending,
        TransferState::Posted => WireTransferState::Posted,
        TransferState::Voided => WireTransferState::Voided,
    }
}

/// Put a transfer on the wire with its amount in `scale`; IDs keep their
/// low 64 bits.
pub fn transfer_to_wire(transfer: &Transfer, scale: u32) -> (r: WireTransfer)
    ensures
        r.id == transfer@.id@ as u64,
        r.debit_account_id == transfer@.debit_account_id@ as u64,
        r.credit_account_id == transfer@.credit_account_id@ as u64,
        r.amount matches Some(w) && w.scale == scale && wire_units(w) == transfer@.amount@,
        r.state == spec_wire_transfer_state(transfer@.state),
        r.pending_id == (match transfer@.pending_id {
            Some(p) => Some(p@ as u64),
            None => None,
        }),
        r.timestamp == transfer@.timestamp,
{
    let pending_id = match transfer.pending_id() {
        Some(p) => Some(p.as_u128() as u64),
        None => None,
    };
    WireTransfer {
        id: transfer.id().as_u128() as u64,
        debit_account_id: transfer.debit_account_id().as_u128() as u64,
        credit_account_id: transfer.credit_account_id().as_u128() as u64,
        amount: Some(amount_to_wire(transfer.amount(), scale)),
        state: transfer_state_to_wire(transfer.state()),
        pending_id,
        timestamp: transfer.timestamp(),
    }
}

/// The reply to a request that creates an account: the account created, or
/// an internal error when the engine answered with a transfer.
pub fn account_reply(result: MutationResult) -> (r: Result<WireAccount, IngestError>)
    ensures
        match result {
            MutationResult::Account(a) => r matches Ok(w) && w.id == a.id@ as u64 && w.account_type == spec_wire_account_type(
                a.account_type,
            ) && w.scale == a.scale@,
            MutationResult::Transfer(_) => r matches Err(IngestError::Internal(m)) && m@ == "unexpected mutation result"@,
        },
{
    match result {
        MutationResult::Account(account) => Ok(account_to_wire(account)),
        MutationResult::Transfer(_) => Err(IngestError::Internal("unexpected mutation result".to_owned())),
    }
}

/// The reply to a request that creates or changes a transfer: the transfer,
/// with its amount in `scale`, or an internal error when the engine answered
/// with an account.
pub fn transfer_reply(result: MutationResult, scale: Scale) -> (r: Result<WireTransfer, IngestError>)
    ensures
        match result {
            MutationResult::Transfer(t) => r matches Ok(w) && w.id == t@.id@ as u64 && (w.amount matches Some(a)
                && a.scale == scale@ && wire_units(a) == t@.amount@) && w.state == spec_wire_transfer_state(t@.state),
            MutationResult::Account(_) => r matches Err(IngestError::Internal(m)) && m@ == "unexpected mutation result"@,
        },
{
    match result {
        MutationResult::Transfer(transfer) => Ok(transfer_to_wire(&transfer, scale.as_u8() as u32)),
        MutationResult::Account(_) => Err(IngestError::Internal("unexpected mutation result".to_owned())),
    }
}

/// A batch entry converts to the same operation as the single request of
/// its kind, and that operation is of the entry's kind with the entry's
/// fields: an account entry creates that account, a transfer entry moves
/// the parsed amount at once, a hold entry holds it, a posting entry
/// settles the hold for the parsed amount, and a voiding entry cancels the
/// hold. An entry whose amount does not parse fails with the amount's
/// fault; an entry without an operation is refused.
pub proof fn law_batch_entry_keeps_its_kind(expected: Scale, entry: Option<WireOperation>)
    ensures
        match entry {
            None => spec_batch_entry_op(expected, entry) == Err::<IngestOp, WireFault>(
                WireFault::Invalid("empty batch operation"@),
            ),
            Some(WireOperation::CreateAccount(c)) => {
                &&& spec_batch_entry_op(expected, entry) == spec_create_account_op(c)
                &&& (spec_account_type(c.account_type) is Ok && spec_scale(c.scale) is Ok) ==> spec_batch_entry_op(
                    expected,
                    entry,
                ) == Ok::<IngestOp, WireFault>(
                    IngestOp::CreateAccount {
                        id: AccountId::from_spec(c.id as u128),
                        account_type: spec_account_type(c.account_type)->Ok_0,
                        flags: spec_flags(c.flags),
                        scale: spec_scale(c.scale)->Ok_0,
                        timestamp: c.timestamp,
                    },
                )
            },
            Some(WireOperation::CreateTransfer(m)) => {
                &&& spec_batch_entry_op(expected, entry) == spec_move_funds_op(expected, m, false)
                &&& match spec_amount(expected, m.amount) {
                    Ok(a) => spec_batch_entry_op(expected, entry) == Ok::<IngestOp, WireFault>(
                        IngestOp::CreateTransfer {
                            id: TransferId::from_spec(m.id as u128),
                            debit_account_id: AccountId::from_spec(m.debit_account_id as u128),
                            credit_account_id: AccountId::from_spec(m.credit_account_id as u128),
                            amount: a,
                            timestamp: m.timestamp,
                        },
                    ),
                    Err(f) => spec_batch_entry_op(expected, entry) == Err::<IngestOp, WireFault>(f),
                }
            },
            Some(WireOperation::CreatePending(m)) => {
                &&& spec_batch_entry_op(expected, entry) == spec_move_funds_op(expected, m, true)
                &&& match spec_amount(expected, m.amount) {
                    Ok(a) => spec_batch_entry_op(expected, entry) == Ok::<IngestOp, WireFault>(
                        IngestOp::CreatePending {
                            id: TransferId::from_spec(m.id as u128),
                            debit_account_id: AccountId::from_spec(m.debit_account_id as u128),
                            credit_account_id: AccountId::from_spec(m.credit_account_id as u128),
                            amount: a,
                            timestamp: m.timestamp,
                        },
                    ),
                    Err(f) => spec_batch_entry_op(expected, entry) == Err::<IngestOp, WireFault>(f),
                }
            },
            Some(WireOperation::PostPending(pp)) => {
                &&& spec_batch_entry_op(expected, entry) == spec_post_pending_op(expected, pp)
                &&& match spec_amount(expected, pp.amount) {
                    Ok(a) => spec_batch_entry_op(expected, entry) == Ok::<IngestOp, WireFault>(
                        IngestOp::PostPending {
                            pending_id: TransferId::from_spec(pp.pending_id as u128),
                            post_transfer_id: TransferId::from_spec(pp.post_transfer_id as u128),
                            amount: a,
                            timestamp: pp.timestamp,
                        },
                    ),
                    Err(f) => spec_batch_entry_op(expected, entry) == Err::<IngestOp, WireFault>(f),
                }
            },
            Some(WireOperation::VoidPending(vp)) => spec_batch_entry_op(expected, entry) == Ok::<IngestOp, WireFault>(
                IngestOp::VoidPending { pending_id: TransferId::from_spec(vp.pending_id as u128), timestamp: vp.timestamp },
            ),
        },
{
}

} // verus!
