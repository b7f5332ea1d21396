//! The payment desk behind the HTTP API: the state that the endpoints share
//! and the decisions each endpoint makes on it.
//!
//! The application around it parses requests, serializes responses, takes
//! the locks and maps each [`ApiError`] to its HTTP status and message.

use std::collections::BTreeMap;

use vstd::prelude::*;
use vstd::string::StringSliceAdditionalSpecFns;

use crate::demo::error::{DemoError, IdempotencyError, PaymentError, RailError, ReconciliationError, WebhookError};
use crate::demo::idempotency::{Acquire, IdempotencyStore, spec_acquire, spec_complete, spec_release};
use crate::demo::payment::{AccountDirectory, Payment, PaymentState, spec_setup_accounts, customer_account, merchant_account, is_transition_error};
use crate::demo::webhook::{WebhookDeduplicator, WebhookPayload, WebhookVerifier, spec_verify_signature, spec_verify_freshness};
use crate::demo::rail::{MockAchRail, RailSubmission, SettlementRail, ach_rail_name, ach_reference, saturating_total};
use crate::ledger_core::account::{Account, spec_net_settled};
use crate::ledger_core::amount::{Amount, Scale, group_amount};
use crate::ledger_core::error::LedgerError;
use crate::ledger_core::id::{AccountId, TransferId, group_id};
use crate::ledger_core::journal::LedgerEvent;
use crate::ledger_core::ledger::{Ledger, LedgerView, lemma_sorted_keys};
use crate::ledger_core::model::{empty_state, spec_create_pending, spec_create_transfer, spec_post_pending, spec_void_pending};
use crate::ledger_core::message::push_str;
use crate::ledger_core::text::{push_decimal, spec_decimal};
use crate::ledger_core::transfer::{Transfer, TransferState, spec_new_transfer};

verus! {

broadcast use {group_amount, group_id, vstd::std_specs::btree::group_btree_axioms};

/// The HTTP status class of a failed request.
#[derive(Clone, Copy, Debug, PartialEq, Eq, Structural)]
pub enum ApiStatus {
    /// 400: the request cannot be carried out as given.
    BadRequest,
    /// 401: the request is not authenticated.
    Unauthorized,
    /// 402: the ledger refused to hold the funds.
    PaymentRequired,
    /// 404: the entity does not exist.
    NotFound,
    /// 409: the request conflicts with one in flight or already seen.
    Conflict,
    /// 500: the request failed inside the service.
    InternalServerError,
}

/// Why a request failed.
#[derive(Clone, Debug, PartialEq, Eq)]
pub enum ApiCause {
    /// The ledger refused an operation.
    Ledger(LedgerError),
    /// The payment lifecycle refused a transition.
    Payment(PaymentError),
    /// Webhook authentication, freshness or deduplication failed.
    Webhook(WebhookError),
    /// An operation under the same idempotency key is in flight.
    Idempotency(IdempotencyError),
    /// The reconciliation audit failed.
    Reconciliation(ReconciliationError),
    /// A settlement rail failed.
    Rail(RailError),
    /// No payment has this identifier.
    PaymentNotFound(u128),
    /// The payment carries no pending hold.
    NoPendingTransfer,
    /// The merchant has no account.
    MerchantAccountNotFound,
    /// The customer has no account.
    CustomerAccountNotFound(u128),
    /// The webhook carries no signature.
    MissingSignature,
    /// The webhook's signature does not match its body.
    InvalidSignature,
    /// The webhook's event type is not one the service handles.
    UnknownEventType,
    /// No captured payment awaits settlement.
    NoTransfersToSettle,
    /// The settlement batch sequence cannot advance.
    BatchSequenceExhausted,
    /// The captured volume does not fit in 128 bits.
    CapturedVolumeOverflow,
}

/// A failed request: its status and its cause.
#[derive(Clone, Debug, PartialEq, Eq)]
pub struct ApiError {
    /// The HTTP status class.
    pub status: ApiStatus,
    /// The cause.
    pub cause: ApiCause,
}

/// What the shared state of the service is.
pub struct AppView {
    /// The double-entry ledger.
    pub ledger: LedgerView,
    /// The payments by identifier.
    pub payments: Map<u128, Payment>,
    /// The idempotency keys of payment requests.
    pub requests: Map<Seq<char>, Option<Seq<char>>>,
    /// The webhook events seen so far.
    pub seen_events: Set<Seq<char>>,
    /// The secret that webhooks are signed with.
    pub webhook_secret: Seq<u8>,
    /// The ledger's currency scale.
    pub scale: Scale,
    /// The next payment identifier.
    pub next_payment_id: u64,
    /// The next ledger transfer identifier.
    pub next_transfer_id: u64,
    /// The next ledger timestamp.
    pub next_timestamp: u64,
    /// The sequence number of the last settlement batch.
    pub batch_seq: u64,
    /// The simulated discrepancy injected into reconciliation reports.
    pub simulated_drift: i64,
}

/// Shared state of the payment service.
pub struct AppState {
    ledger: Ledger,
    payments: BTreeMap<u128, Payment>,
    idempotency: IdempotencyStore,
    webhook_dedupe: WebhookDeduplicator,
    ach_rail: MockAchRail,
    webhook_secret: Vec<u8>,
    scale: Scale,
    next_payment_id: u64,
    next_transfer_id: u64,
    next_timestamp: u64,
    batch_seq: u64,
    simulated_drift: i64,
}

impl View for AppState {
    type V = AppView;

    closed spec fn view(&self) -> AppView {
        AppView {
            ledger: self.ledger@,
            payments: self.payments@,
            requests: self.idempotency@,
            seen_events: self.webhook_dedupe@,
            webhook_secret: self.webhook_secret@,
            scale: self.scale,
            next_payment_id: self.next_payment_id,
            next_transfer_id: self.next_transfer_id,
            next_timestamp: self.next_timestamp,
            batch_seq: self.batch_seq,
            simulated_drift: self.simulated_drift,
        }
    }
}

/// `x + 1`, wrapping at `u64::MAX`, as the service's counters advance.
pub open spec fn next_of(x: u64) -> u64 {
    if x == u64::MAX {
        0
    } else {
        (x + 1) as u64
    }
}

/// The ledger the service starts from: vault, fee revenue, merchants 1 to 3
/// and customers 101 to 103, each customer seeded with 1,000,000,000 units.
pub open spec fn initial_setup() -> (Result<(), LedgerError>, LedgerView) {
    spec_setup_accounts(
        LedgerView { scale: Scale::from_spec(6), state: empty_state(), journal: Seq::empty() },
        Scale::from_spec(6),
        seq![1u128, 2, 3],
        seq![101u128, 102, 103],
        1_000_000_000,
        1_700_000_000,
    )
}

/// A merchant's settled and held balances.
#[derive(Clone, Copy, Debug, PartialEq, Eq, Structural)]
pub struct MerchantBalance {
    /// The merchant.
    pub merchant_id: u128,
    /// Credits posted to the merchant's account.
    pub posted_balance: u128,
    /// Credits held for the merchant by pending transfers.
    pub pending_balance: u128,
}

/// A deposit into a customer's account.
#[derive(Clone, Copy, Debug, PartialEq, Eq, Structural)]
pub struct Deposit {
    /// The customer.
    pub customer_id: u128,
    /// The amount deposited.
    pub deposited_amount: u128,
    /// The customer's posted credits afterwards.
    pub new_balance: u128,
}

/// The amount deposited when a request names none: 100,000,000 units.
pub open spec fn default_deposit() -> u128 {
    100_000_000
}

/// The instant webhooks are checked for freshness against.
pub open spec fn webhook_clock() -> u64 {
    1_700_000_100
}

/// How old a webhook may be, in seconds.
pub open spec fn webhook_tolerance() -> u64 {
    300
}

/// Whether a payment is captured and not yet part of a settlement batch.
pub open spec fn awaits_settlement(p: Payment) -> bool {
    p.state == PaymentState::Captured && p.settlement_batch_seq is None
}

/// Whether some payment awaiting settlement was captured by transfer `tid`.
pub open spec fn settles_transfer(payments: Map<u128, Payment>, tid: u128) -> bool {
    exists|k: u128|
        #![trigger payments[k]]
        payments.contains_key(k) && awaits_settlement(payments[k]) && payments[k].posted_transfer_id == Some(tid)
}

/// Whether `ts` is the next settlement batch: the ledger's transfers that
/// captured a payment awaiting settlement, in increasing order of their IDs.
pub open spec fn is_settlement_batch(v: AppView, ts: Seq<Transfer>) -> bool {
    &&& forall|i: int|
        #![trigger ts[i]]
        0 <= i < ts.len() ==> v.ledger.state.transfers.contains_key(ts[i]@.id@) && v.ledger.state.transfers[ts[i]@.id@]
            == ts[i] && settles_transfer(v.payments, ts[i]@.id@)
    &&& forall|k: u128|
        #![trigger v.ledger.state.transfers.contains_key(k)]
        v.ledger.state.transfers.contains_key(k) && settles_transfer(v.payments, k) ==> in_batch(ts, k)
    &&& forall|i: int, j: int| #![trigger ts[i], ts[j]] 0 <= i < j < ts.len() ==> ts[i]@.id@ < ts[j]@.id@
}

/// Whether the payment with ID `k` is among the first `i` of a listing.
pub open spec fn listed_before(pays: Seq<Payment>, i: int, k: u128) -> bool {
    exists|j: int| 0 <= j < i && pays[j].id == k
}

/// Whether a transfer with ID `tid` is in the batch.
pub open spec fn in_batch(ts: Seq<Transfer>, tid: u128) -> bool {
    exists|i: int| 0 <= i < ts.len() && ts[i]@.id@ == tid
}

/// A payment after a batch settled: marked with the batch's sequence number
/// when it awaited settlement and its capture is in the batch.
pub open spec fn after_settlement(p: Payment, ts: Seq<Transfer>, seq: u64) -> Payment {
    if awaits_settlement(p) && p.posted_transfer_id is Some && in_batch(ts, p.posted_transfer_id->0) {
        Payment { settlement_batch_seq: Some(seq), ..p }
    } else {
        p
    }
}

/// The payments after a batch settled.
pub open spec fn settled_payments(payments: Map<u128, Payment>, ts: Seq<Transfer>, seq: u64) -> Map<u128, Payment> {
    Map::new(|k: u128| payments.contains_key(k), |k: u128| after_settlement(payments[k], ts, seq))
}

/// Whether a transfer with this ID is in the batch.
fn batch_contains(ts: &Vec<Transfer>, tid: u128) -> (r: bool)
    ensures
        r == in_batch(ts@, tid),
{
    let mut i: usize = 0;
    while i < ts.len()
        invariant
            i <= ts@.len(),
            forall|j: int| 0 <= j < i ==> ts@[j]@.id@ != tid,
        decreases ts@.len() - i,
    {
        if ts[i].id().as_u128() == tid {
            return true;
        }
        i += 1;
    }
    false
}

/// Whether some payment in `pays` awaits settlement and was captured by
/// transfer `tid`.
fn captured_by(pays: &Vec<Payment>, tid: u128) -> (r: bool)
    ensures
        r == exists|i: int| 0 <= i < pays@.len() && awaits_settlement(pays@[i]) && pays@[i].posted_transfer_id == Some(tid),
{
    let mut i: usize = 0;
    while i < pays.len()
        invariant
            i <= pays@.len(),
            forall|j: int|
                0 <= j < i ==> !(awaits_settlement(pays@[j]) && pays@[j].posted_transfer_id == Some(tid)),
        decreases pays@.len() - i,
    {
        let p = &pays[i];
        if p.state == PaymentState::Captured && p.settlement_batch_seq.is_none() && p.posted_transfer_id == Some(tid) {
            return true;
        }
        i += 1;
    }
    false
}

/// Whether `all` lists the ledger's transfers in increasing order of their IDs.
pub open spec fn listing_of(v: AppView, all: Seq<Transfer>) -> bool {
    &&& forall|j: int|
        0 <= j < all.len() ==> #[trigger] v.ledger.state.transfers.contains_key(all[j]@.id@)
            && v.ledger.state.transfers[all[j]@.id@] == all[j]
    &&& forall|j: int, l: int| 0 <= j < l < all.len() ==> all[j]@.id@ < all[l]@.id@
    &&& forall|k: u128| #[trigger] v.ledger.state.transfers.contains_key(k) ==> exists|j: int| 0 <= j < all.len() && all[j]@.id@ == k
}

/// Whether `pays` lists exactly the payments of the map, each once, in
/// increasing order of their identifiers.
pub open spec fn payments_listed(payments: Map<u128, Payment>, pays: Seq<Payment>) -> bool {
    &&& forall|j: int| 0 <= j < pays.len() ==> #[trigger] payments.contains_key(pays[j].id) && payments[pays[j].id] == pays[j]
    &&& forall|k: u128| #[trigger] payments.contains_key(k) ==> exists|j: int| 0 <= j < pays.len() && pays[j].id == k
    &&& forall|i: int, j: int| 0 <= i < j < pays.len() ==> pays[i].id < pays[j].id
}

/// Scanning a listing of the payments finds a capture by `tid` exactly when
/// one awaits settlement.
proof fn lemma_captured_by(payments: Map<u128, Payment>, pays: Seq<Payment>, tid: u128)
    requires
        payments_listed(payments, pays),
    ensures
        (exists|i: int| 0 <= i < pays.len() && awaits_settlement(pays[i]) && pays[i].posted_transfer_id == Some(tid))
            == settles_transfer(payments, tid),
{
    if exists|i: int| 0 <= i < pays.len() && awaits_settlement(pays[i]) && pays[i].posted_transfer_id == Some(tid) {
        let i = choose|i: int| 0 <= i < pays.len() && awaits_settlement(pays[i]) && pays[i].posted_transfer_id == Some(tid);
        assert(payments.contains_key(pays[i].id) && payments[pays[i].id] == pays[i]);
    }
    if settles_transfer(payments, tid) {
        let k = choose|k: u128|
            #![trigger payments[k]]
            payments.contains_key(k) && awaits_settlement(payments[k]) && payments[k].posted_transfer_id == Some(tid);
        let j = choose|j: int| 0 <= j < pays.len() && pays[j].id == k;
        assert(payments.contains_key(pays[j].id) && payments[pays[j].id] == pays[j]);
    }
}

/// The state a sample payment is driven to.
#[derive(Clone, Copy, Debug, PartialEq, Eq, Structural)]
pub enum SeedTarget {
    /// Authorized and captured.
    Captured,
    /// Authorized only.
    Authorized,
    /// Authorized, then voided.
    Voided,
}

/// A sample payment: customer, merchant, amount, fee and target state.
pub type Seed = (u128, u128, u128, u128, SeedTarget);

/// The sample payments placed by [`AppState::quick_seed`].
pub open spec fn sample_seeds() -> Seq<Seed> {
    seq![
        (101u128, 1u128, 150_000_000u128, 1_500_000u128, SeedTarget::Captured),
        (102u128, 2u128, 85_500_000u128, 855_000u128, SeedTarget::Captured),
        (103u128, 1u128, 42_000_000u128, 500_000u128, SeedTarget::Authorized),
        (101u128, 3u128, 20_000_000u128, 200_000u128, SeedTarget::Voided),
    ]
}

/// The customers topped up before the sample payments.
pub open spec fn sample_customers() -> Seq<u128> {
    seq![101u128, 102, 103]
}

/// Seeding a customer with 500,000,000 units from the vault.
pub open spec fn seed_deposit(v: AppView, customer_id: u128) -> (Result<(), ApiError>, AppView) {
    let v1 = AppView { next_transfer_id: next_of(v.next_transfer_id), next_timestamp: next_of(v.next_timestamp), ..v };
    match spec_new_transfer(
        TransferId::from_spec(v.next_transfer_id as u128),
        crate::demo::payment::vault_account(),
        customer_account(customer_id),
        Amount::from_spec(500_000_000),
        TransferState::Posted,
        None,
        v.next_timestamp,
    ) {
        Err(e) => (Err(api_error(ApiStatus::BadRequest, ApiCause::Ledger(e))), v1),
        Ok(t) => {
            let (lr, lv) = v.ledger.after(spec_create_transfer(v.ledger.state, t), LedgerEvent::TransferPosted { transfer: t });
            match lr {
                Err(e) => (Err(api_error(ApiStatus::InternalServerError, ApiCause::Ledger(e))), AppView { ledger: lv, ..v1 }),
                Ok(_) => (Ok(()), AppView { ledger: lv, ..v1 }),
            }
        },
    }
}

/// Seeding customers in order, stopping at the first failure.
pub open spec fn seed_deposits(v: AppView, customers: Seq<u128>) -> (Result<(), ApiError>, AppView)
    decreases customers.len(),
{
    if customers.len() == 0 {
        (Ok(()), v)
    } else {
        let (r, v1) = seed_deposits(v, customers.drop_last());
        if r is Err {
            (r, v1)
        } else {
            seed_deposit(v1, customers.last())
        }
    }
}

/// Placing one sample payment: its hold, then its capture or void.
pub open spec fn seed_payment(v: AppView, seed: Seed) -> (Result<(), ApiError>, AppView) {
    let (customer_id, merchant_id, amount, fee_amount, target) = seed;
    let hold_ts = v.next_timestamp;
    let pid = v.next_payment_id as u128;
    let hid = v.next_transfer_id as u128;
    let v1 = counters_advanced(v);
    match spec_new_transfer(
        TransferId::from_spec(hid),
        customer_account(customer_id),
        merchant_account(merchant_id),
        Amount::from_spec(amount),
        TransferState::Pending,
        None,
        hold_ts,
    ) {
        Err(e) => (Err(api_error(ApiStatus::BadRequest, ApiCause::Ledger(e))), v1),
        Ok(t) => {
            let (lr, lv) = v.ledger.after(
                spec_create_pending(v.ledger.state, t),
                LedgerEvent::TransferPendingCreated { transfer: t },
            );
            let p = Payment {
                id: pid,
                merchant_id,
                customer_id,
                amount,
                fee_amount,
                state: PaymentState::Authorized,
                pending_transfer_id: Some(hid),
                posted_transfer_id: None,
                settlement_batch_seq: None,
                created_at: hold_ts,
                updated_at: hold_ts,
            };
            let v2 = AppView { ledger: lv, ..v1 };
            match lr {
                Err(e) => (Err(api_error(ApiStatus::PaymentRequired, ApiCause::Ledger(e))), v2),
                Ok(_) => match target {
                    SeedTarget::Authorized => (Ok(()), AppView { payments: v.payments.insert(pid, p), ..v2 }),
                    SeedTarget::Captured => {
                        let post_ts = v2.next_timestamp;
                        let post_id = v2.next_transfer_id as u128;
                        let v3 = AppView {
                            next_transfer_id: next_of(v2.next_transfer_id),
                            next_timestamp: next_of(v2.next_timestamp),
                            ..v2
                        };
                        let (lr2, lv2) = lv.after(
                            spec_post_pending(
                                lv.state,
                                TransferId::from_spec(hid),
                                TransferId::from_spec(post_id),
                                Amount::from_spec(amount),
                                post_ts,
                            ),
                            LedgerEvent::TransferPendingPosted {
                                pending_id: TransferId::from_spec(hid),
                                post_transfer_id: TransferId::from_spec(post_id),
                                amount: Amount::from_spec(amount),
                                timestamp: post_ts,
                            },
                        );
                        match lr2 {
                            Err(e) => (
                                Err(api_error(ApiStatus::InternalServerError, ApiCause::Ledger(e))),
                                AppView { ledger: lv2, ..v3 },
                            ),
                            Ok(_) => (
                                Ok(()),
                                AppView {
                                    ledger: lv2,
                                    payments: v.payments.insert(
                                        pid,
                                        Payment {
                                            state: PaymentState::Captured,
                                            posted_transfer_id: Some(post_id),
                                            updated_at: post_ts,
                                            ..p
                                        },
                                    ),
                                    ..v3
                                },
                            ),
                        }
                    },
                    SeedTarget::Voided => {
                        let void_ts = v2.next_timestamp;
                        let v3 = AppView { next_timestamp: next_of(v2.next_timestamp), ..v2 };
                        let (lr2, lv2) = lv.after(
                            spec_void_pending(lv.state, TransferId::from_spec(hid), void_ts),
                            LedgerEvent::TransferPendingVoided {
                                pending_id: TransferId::from_spec(hid),
                                amount: lv.state.transfers[hid]@.amount,
                                timestamp: void_ts,
                            },
                        );
                        match lr2 {
                            Err(e) => (
                                Err(api_error(ApiStatus::InternalServerError, ApiCause::Ledger(e))),
                                AppView { ledger: lv2, ..v3 },
                            ),
                            Ok(_) => (
                                Ok(()),
                                AppView {
                                    ledger: lv2,
                                    payments: v.payments.insert(
                                        pid,
                                        Payment { state: PaymentState::Voided, updated_at: void_ts, ..p },
                                    ),
                                    ..v3
                                },
                            ),
                        }
                    },
                },
            }
        },
    }
}

/// Placing sample payments in order, stopping at the first failure.
pub open spec fn seed_payments(v: AppView, seeds: Seq<Seed>) -> (Result<(), ApiError>, AppView)
    decreases seeds.len(),
{
    if seeds.len() == 0 {
        (Ok(()), v)
    } else {
        let (r, v1) = seed_payments(v, seeds.drop_last());
        if r is Err {
            (r, v1)
        } else {
            seed_payment(v1, seeds.last())
        }
    }
}

/// Once a net balance has failed, more shown accounts change nothing.
proof fn lemma_summary_rows_stop(accounts: Map<u128, Account>, shown: Seq<ShownAccount>, k: int)
    requires
        0 <= k <= shown.len(),
        summary_rows(accounts, shown.take(k)) is Err,
    ensures
        summary_rows(accounts, shown) == summary_rows(accounts, shown.take(k)),
    decreases shown.len(),
{
    if k == shown.len() {
        assert(shown.take(k) =~= shown);
    } else {
        assert(shown.drop_last().take(k) =~= shown.take(k));
        lemma_summary_rows_stop(accounts, shown.drop_last(), k);
    }
}

/// The captured volume of a listing is at least that of any prefix.
proof fn lemma_captured_volume_grows(pays: Seq<Payment>, k: int)
    requires
        0 <= k <= pays.len(),
    ensures
        captured_volume_of(pays.take(k)) <= captured_volume_of(pays),
    decreases pays.len(),
{
    if k < pays.len() {
        assert(pays.drop_last().take(k) =~= pays.take(k));
        lemma_captured_volume_grows(pays.drop_last(), k);
    } else {
        assert(pays.take(k) =~= pays);
    }
}

/// Once a top-up has failed, topping up more customers changes nothing.
proof fn lemma_seed_deposits_stop(v: AppView, customers: Seq<u128>, k: int)
    requires
        0 <= k <= customers.len(),
        seed_deposits(v, customers.take(k)).0 is Err,
    ensures
        seed_deposits(v, customers) == seed_deposits(v, customers.take(k)),
    decreases customers.len(),
{
    if k == customers.len() {
        assert(customers.take(k) =~= customers);
    } else {
        assert(customers.drop_last().take(k) =~= customers.take(k));
        lemma_seed_deposits_stop(v, customers.drop_last(), k);
    }
}

/// Once a sample payment has failed, placing more changes nothing.
proof fn lemma_seed_payments_stop(v: AppView, seeds: Seq<Seed>, k: int)
    requires
        0 <= k <= seeds.len(),
        seed_payments(v, seeds.take(k)).0 is Err,
    ensures
        seed_payments(v, seeds) == seed_payments(v, seeds.take(k)),
    decreases seeds.len(),
{
    if k == seeds.len() {
        assert(seeds.take(k) =~= seeds);
    } else {
        assert(seeds.drop_last().take(k) =~= seeds.take(k));
        lemma_seed_payments_stop(v, seeds.drop_last(), k);
    }
}

/// The outcome of seeding sample payments.
#[derive(Clone, Debug, PartialEq, Eq)]
pub struct QuickSeed {
    /// How many sample payments were placed.
    pub seeded_count: usize,
    /// A summary for the operator.
    pub message: String,
}

/// A shown account as the dashboard shows it.
#[derive(Clone, Debug, PartialEq, Eq)]
pub struct AccountSummary {
    /// The account's number.
    pub id: u128,
    /// Who the account belongs to.
    pub label: String,
    /// The account type's name.
    pub account_type: String,
    /// Credits posted.
    pub credits_posted: u128,
    /// Debits posted.
    pub debits_posted: u128,
    /// Credits held by pending transfers.
    pub credits_pending: u128,
    /// Debits held by pending transfers.
    pub debits_pending: u128,
    /// The net settled balance for the account's type.
    pub net_balance: i128,
}

/// An account the dashboard tracks: its number, label and type name.
pub type ShownAccount = (u128, &'static str, &'static str);

/// The accounts the dashboard tracks, in display order.
pub open spec fn dashboard_accounts() -> Seq<ShownAccount> {
    seq![
        (100u128, "Bank Clearing Vault", "Asset"),
        (999_999u128, "Platform Fee Revenue", "Revenue"),
        (1_000_101u128, "Customer #101 (Alice)", "Liability"),
        (1_000_102u128, "Customer #102 (Bob)", "Liability"),
        (1_000_103u128, "Customer #103 (Charlie)", "Liability"),
        (2_000_001u128, "Merchant #1 (Acme Corp)", "Liability"),
        (2_000_002u128, "Merchant #2 (Globex)", "Liability"),
        (2_000_003u128, "Merchant #3 (Soylent)", "Liability"),
    ]
}

/// The rows of the shown accounts that exist, each with its account and
/// net balance, or the first failure to compute a net balance.
pub open spec fn summary_rows(accounts: Map<u128, Account>, shown: Seq<ShownAccount>) -> Result<
    Seq<(ShownAccount, Account, i128)>,
    LedgerError,
>
    decreases shown.len(),
{
    if shown.len() == 0 {
        Ok(Seq::empty())
    } else {
        match summary_rows(accounts, shown.drop_last()) {
            Err(e) => Err(e),
            Ok(rows) => {
                let t = shown.last();
                if !accounts.contains_key(t.0) {
                    Ok(rows)
                } else {
                    let a = accounts[t.0];
                    match spec_net_settled(a.balance, a.account_type) {
                        Err(e) => Err(e),
                        Ok(net) => Ok(rows.push((t, a, net))),
                    }
                }
            },
        }
    }
}

/// Whether a summary shows a row.
pub open spec fn shows_row(s: AccountSummary, row: (ShownAccount, Account, i128)) -> bool {
    let (t, a, net) = row;
    &&& s.id == t.0
    &&& s.label@ == t.1@
    &&& s.account_type@ == t.2@
    &&& s.credits_posted == a.balance.credits_posted@
    &&& s.debits_posted == a.balance.debits_posted@
    &&& s.credits_pending == a.balance.credits_pending@
    &&& s.debits_pending == a.balance.debits_pending@
    &&& s.net_balance == net
}

/// The total amount of the captured payments in a listing.
pub open spec fn captured_volume_of(pays: Seq<Payment>) -> int
    decreases pays.len(),
{
    if pays.len() == 0 {
        0
    } else {
        captured_volume_of(pays.drop_last()) + if pays.last().state == PaymentState::Captured {
            pays.last().amount as int
        } else {
            0
        }
    }
}

/// The outcome of a payment authorization request.
#[derive(Clone, Debug)]
pub enum AuthorizeOutcome {
    /// The request completed before under the same key: its stored response.
    Replay(String),
    /// The payment was authorized and its funds are held.
    Authorized(Payment),
}

/// The state with the payment, transfer and timestamp counters advanced.
pub open spec fn counters_advanced(v: AppView) -> AppView {
    AppView {
        next_payment_id: next_of(v.next_payment_id),
        next_transfer_id: next_of(v.next_transfer_id),
        next_timestamp: next_of(v.next_timestamp),
        ..v
    }
}

/// The hold that authorizes a payment: from the customer's account to the
/// merchant's, with the next transfer identifier and timestamp.
pub open spec fn hold_for(v: AppView, merchant_id: u128, customer_id: u128, amount: u128) -> Result<Transfer, LedgerError> {
    spec_new_transfer(
        TransferId::from_spec(v.next_transfer_id as u128),
        customer_account(customer_id),
        merchant_account(merchant_id),
        Amount::from_spec(amount),
        TransferState::Pending,
        None,
        v.next_timestamp,
    )
}

/// A failed request with the given status and cause.
pub open spec fn api_error(status: ApiStatus, cause: ApiCause) -> ApiError {
    ApiError { status, cause }
}

impl AppState {
    /// The ledger and the idempotency store are well formed.
    pub closed spec fn wf(&self) -> bool {
        &&& self.ledger.wf()
        &&& self.idempotency.wf()
        &&& forall|k: u128| #[trigger] self.payments@.contains_key(k) ==> self.payments@[k].id == k
    }

    /// Create the service state with its sample accounts.
    ///
    /// Fails with the ledger's error if the account setup fails.
    pub fn new(webhook_secret: Vec<u8>) -> (r: Result<Self, DemoError>)
        ensures
            match initial_setup() {
                (Ok(_), v) => r is Ok && r->Ok_0.wf() && r->Ok_0@ == (AppView {
                    ledger: v,
                    payments: Map::empty(),
                    requests: Map::empty(),
                    seen_events: Set::empty(),
                    webhook_secret: webhook_secret@,
                    scale: Scale::from_spec(6),
                    next_payment_id: 5000,
                    next_transfer_id: 20_000,
                    next_timestamp: 1_700_000_001,
                    batch_seq: 0,
                    simulated_drift: 0,
                }),
                (Err(e), _) => r == Err::<Self, DemoError>(DemoError::Payment(PaymentError::Ledger(e))),
            },
    {
        let scale = Scale::usdc();
        let mut ledger = Ledger::new(scale);
        let merchants: [u128; 3] = [1, 2, 3];
        let customers: [u128; 3] = [101, 102, 103];
        proof {
            assert(merchants@ =~= seq![1u128, 2, 3]);
            assert(customers@ =~= seq![101u128, 102, 103]);
        }
        if let Err(e) = AccountDirectory::setup_accounts(
            &mut ledger,
            scale,
            &merchants,
            &customers,
            1_000_000_000,
            1_700_000_000,
        ) {
            return Err(DemoError::Payment(e));
        }
        let state = AppState {
            ledger,
            payments: BTreeMap::new(),
            idempotency: IdempotencyStore::new(),
            webhook_dedupe: WebhookDeduplicator::new(),
            ach_rail: MockAchRail::new(),
            webhook_secret,
            scale,
            next_payment_id: 5000,
            next_transfer_id: 20_000,
            next_timestamp: 1_700_000_001,
            batch_seq: 0,
            simulated_drift: 0,
        };
        proof {
            assert(state@.payments =~= Map::<u128, Payment>::empty());
        }
        Ok(state)
    }

    /// Allocate the next timestamp for double-entry mutations.
    pub fn next_timestamp(&mut self) -> (r: u64)
        ensures
            r == old(self)@.next_timestamp,
            final(self)@ == (AppView { next_timestamp: next_of(old(self)@.next_timestamp), ..old(self)@ }),
            final(self).wf() == old(self).wf(),
    {
        let r = self.next_timestamp;
        self.next_timestamp = self.next_timestamp.wrapping_add(1);
        r
    }

    /// Currency decimal scale configured for this ledger.
    pub fn scale(&self) -> (r: Scale)
        ensures
            r == self@.scale,
    {
        self.scale
    }

    /// Authorize a payment under an idempotency key: place a hold on the
    /// customer's funds in favour of the merchant and record the payment.
    ///
    /// A key that completed before gets its stored response back; a key in
    /// flight is refused with `Conflict`. Otherwise the payment, transfer and
    /// timestamp counters advance, and a hold that cannot be built fails with
    /// `BadRequest`, one the ledger refuses with `PaymentRequired`; both free
    /// the key again. On success the key stays in flight until the response
    /// is recorded with [`Self::complete_request`].
    pub fn authorize(
        &mut self,
        idempotency_key: &str,
        merchant_id: u128,
        customer_id: u128,
        amount: u128,
        fee_amount: u128,
    ) -> (r: Result<AuthorizeOutcome, ApiError>)
        requires
            old(self).wf(),
            merchant_id <= u128::MAX - 2_000_000,
            customer_id <= u128::MAX - 1_000_000,
        ensures
            final(self).wf(),
            ({
                let v = old(self)@;
                let (acquired, m1) = spec_acquire(v.requests, idempotency_key@);
                let v1 = AppView { requests: m1, ..counters_advanced(v) };
                match acquired {
                    Acquire::InFlight => final(self)@ == v && r is Err && r->Err_0.status == ApiStatus::Conflict && (
                    r->Err_0.cause matches ApiCause::Idempotency(IdempotencyError::ConcurrentRequest(k)) && k@
                        == idempotency_key@),
                    Acquire::Replay(json) => final(self)@ == v && r is Ok && (r->Ok_0 matches AuthorizeOutcome::Replay(
                        s,
                    ) && s@ == json),
                    Acquire::Fresh => match hold_for(v, merchant_id, customer_id, amount) {
                        Err(e) => r == Err::<AuthorizeOutcome, ApiError>(
                            api_error(ApiStatus::BadRequest, ApiCause::Ledger(e)),
                        ) && final(self)@ == AppView { requests: spec_release(m1, idempotency_key@), ..v1 },
                        Ok(t) => {
                            let (lr, lv) = v.ledger.after(
                                spec_create_pending(v.ledger.state, t),
                                LedgerEvent::TransferPendingCreated { transfer: t },
                            );
                            match lr {
                                Err(e) => r == Err::<AuthorizeOutcome, ApiError>(
                                    api_error(ApiStatus::PaymentRequired, ApiCause::Ledger(e)),
                                ) && final(self)@ == AppView {
                                    ledger: lv,
                                    requests: spec_release(m1, idempotency_key@),
                                    ..v1
                                },
                                Ok(_) => {
                                    let payment = Payment {
                                        id: v.next_payment_id as u128,
                                        merchant_id,
                                        customer_id,
                                        amount,
                                        fee_amount,
                                        state: PaymentState::Authorized,
                                        pending_transfer_id: Some(v.next_transfer_id as u128),
                                        posted_transfer_id: None,
                                        settlement_batch_seq: None,
                                        created_at: v.next_timestamp,
                                        updated_at: v.next_timestamp,
                                    };
                                    r == Ok::<AuthorizeOutcome, ApiError>(AuthorizeOutcome::Authorized(payment))
                                        && final(self)@ == AppView {
                                        ledger: lv,
                                        payments: v.payments.insert(v.next_payment_id as u128, payment),
                                        ..v1
                                    }
                                },
                            }
                        },
                    },
                }
            }),
    {
        match self.idempotency.try_acquire(idempotency_key) {
            Err(e) => return Err(ApiError { status: ApiStatus::Conflict, cause: ApiCause::Idempotency(e) }),
            Ok(Some(json)) => return Ok(AuthorizeOutcome::Replay(json)),
            Ok(None) => {},
        }
        let payment_id = self.next_payment_id as u128;
        self.next_payment_id = self.next_payment_id.wrapping_add(1);
        let transfer_id = self.next_transfer_id as u128;
        self.next_transfer_id = self.next_transfer_id.wrapping_add(1);
        let now = self.next_timestamp;
        self.next_timestamp = self.next_timestamp.wrapping_add(1);

        let customer_acc = AccountDirectory::customer(customer_id);
        let merchant_acc = AccountDirectory::merchant(merchant_id);
        let hold = match Transfer::new_pending(
            TransferId::new(transfer_id),
            customer_acc,
            merchant_acc,
            Amount::new(amount),
            now,
        ) {
            Ok(t) => t,
            Err(e) => {
                self.idempotency.release_on_failure(idempotency_key);
                return Err(ApiError { status: ApiStatus::BadRequest, cause: ApiCause::Ledger(e) });
            },
        };
        if let Err(e) = self.ledger.create_pending(hold) {
            self.idempotency.release_on_failure(idempotency_key);
            return Err(ApiError { status: ApiStatus::PaymentRequired, cause: ApiCause::Ledger(e) });
        }
        let payment = Payment::new_authorized(
            payment_id,
            merchant_id,
            customer_id,
            amount,
            fee_amount,
            transfer_id,
            now,
        );
        self.payments.insert(payment_id, payment.clone());
        Ok(AuthorizeOutcome::Authorized(payment))
    }

    /// The payment with this identifier.
    fn find_payment(&self, payment_id: u128) -> (r: Option<Payment>)
        ensures
            self@.payments.contains_key(payment_id) ==> r == Some(self@.payments[payment_id]),
            !self@.payments.contains_key(payment_id) ==> r is None,
    {
        match self.payments.get(&payment_id) {
            Some(p) => Some(p.clone()),
            None => None,
        }
    }

    /// Capture an authorized payment: settle its hold in favour of the
    /// merchant and mark it captured.
    ///
    /// Fails with `NotFound` for an unknown payment and `BadRequest` when it
    /// has no hold; otherwise the transfer and timestamp counters advance, a
    /// settlement the ledger refuses fails with `InternalServerError`, and a
    /// payment that is not authorized fails with `BadRequest` after the
    /// ledger has settled the hold.
    pub fn capture(&mut self, payment_id: u128) -> (r: Result<Payment, ApiError>)
        requires
            old(self).wf(),
        ensures
            final(self).wf(),
            ({
                let v = old(self)@;
                let p = v.payments[payment_id];
                if !v.payments.contains_key(payment_id) {
                    r == Err::<Payment, ApiError>(api_error(ApiStatus::NotFound, ApiCause::PaymentNotFound(payment_id)))
                        && final(self)@ == v
                } else if p.pending_transfer_id is None {
                    r == Err::<Payment, ApiError>(api_error(ApiStatus::BadRequest, ApiCause::NoPendingTransfer))
                        && final(self)@ == v
                } else {
                    let post_id = v.next_transfer_id as u128;
                    let now = v.next_timestamp;
                    let v1 = AppView {
                        next_transfer_id: next_of(v.next_transfer_id),
                        next_timestamp: next_of(v.next_timestamp),
                        ..v
                    };
                    let pending_id = TransferId::from_spec(p.pending_transfer_id->0);
                    let post = TransferId::from_spec(post_id);
                    let (lr, lv) = v.ledger.after(
                        spec_post_pending(v.ledger.state, pending_id, post, Amount::from_spec(p.amount), now),
                        LedgerEvent::TransferPendingPosted {
                            pending_id,
                            post_transfer_id: post,
                            amount: Amount::from_spec(p.amount),
                            timestamp: now,
                        },
                    );
                    match lr {
                        Err(e) => r == Err::<Payment, ApiError>(
                            api_error(ApiStatus::InternalServerError, ApiCause::Ledger(e)),
                        ) && final(self)@ == AppView { ledger: lv, ..v1 },
                        Ok(_) => if p.state == PaymentState::Authorized {
                            let p2 = Payment {
                                state: PaymentState::Captured,
                                posted_transfer_id: Some(post_id),
                                updated_at: now,
                                ..p
                            };
                            r == Ok::<Payment, ApiError>(p2) && final(self)@ == AppView {
                                ledger: lv,
                                payments: v.payments.insert(payment_id, p2),
                                ..v1
                            }
                        } else {
                            r is Err && r->Err_0.status == ApiStatus::BadRequest && (r->Err_0.cause matches ApiCause::Payment(
                                pe,
                            ) && is_transition_error(pe, p, "Captured"@)) && final(self)@ == AppView { ledger: lv, ..v1 }
                        },
                    }
                }
            }),
    {
        let mut payment = match self.find_payment(payment_id) {
            Some(p) => p,
            None => {
                return Err(ApiError { status: ApiStatus::NotFound, cause: ApiCause::PaymentNotFound(payment_id) })
            },
        };
        let pending_id = match payment.pending_transfer_id {
            Some(id) => id,
            None => return Err(ApiError { status: ApiStatus::BadRequest, cause: ApiCause::NoPendingTransfer }),
        };
        let post_transfer_id = self.next_transfer_id as u128;
        self.next_transfer_id = self.next_transfer_id.wrapping_add(1);
        let now = self.next_timestamp;
        self.next_timestamp = self.next_timestamp.wrapping_add(1);
        if let Err(e) = self.ledger.post_pending(
            TransferId::new(pending_id),
            TransferId::new(post_transfer_id),
            Amount::new(payment.amount),
            now,
        ) {
            return Err(ApiError { status: ApiStatus::InternalServerError, cause: ApiCause::Ledger(e) });
        }
        if let Err(e) = payment.transition_to_captured(post_transfer_id, now) {
            return Err(ApiError { status: ApiStatus::BadRequest, cause: ApiCause::Payment(e) });
        }
        self.payments.insert(payment_id, payment.clone());
        Ok(payment)
    }

    /// Void an authorized payment: cancel its hold, releasing the funds to
    /// the customer, and mark it voided.
    ///
    /// Fails with `NotFound` for an unknown payment and `BadRequest` when it
    /// has no hold; otherwise the timestamp counter advances, a cancellation
    /// the ledger refuses fails with `InternalServerError`, and a payment
    /// that is not authorized fails with `BadRequest` after the ledger has
    /// cancelled the hold.
    pub fn void(&mut self, payment_id: u128) -> (r: Result<Payment, ApiError>)
        requires
            old(self).wf(),
        ensures
            final(self).wf(),
            ({
                let v = old(self)@;
                let p = v.payments[payment_id];
                if !v.payments.contains_key(payment_id) {
                    r == Err::<Payment, ApiError>(api_error(ApiStatus::NotFound, ApiCause::PaymentNotFound(payment_id)))
                        && final(self)@ == v
                } else if p.pending_transfer_id is None {
                    r == Err::<Payment, ApiError>(api_error(ApiStatus::BadRequest, ApiCause::NoPendingTransfer))
                        && final(self)@ == v
                } else {
                    let now = v.next_timestamp;
                    let v1 = AppView { next_timestamp: next_of(v.next_timestamp), ..v };
                    let pending_id = TransferId::from_spec(p.pending_transfer_id->0);
                    let (lr, lv) = v.ledger.after(
                        spec_void_pending(v.ledger.state, pending_id, now),
                        LedgerEvent::TransferPendingVoided {
                            pending_id,
                            amount: v.ledger.state.transfers[pending_id@]@.amount,
                            timestamp: now,
                        },
                    );
                    match lr {
                        Err(e) => r == Err::<Payment, ApiError>(
                            api_error(ApiStatus::InternalServerError, ApiCause::Ledger(e)),
                        ) && final(self)@ == AppView { ledger: lv, ..v1 },
                        Ok(_) => if p.state == PaymentState::Authorized {
                            let p2 = Payment { state: PaymentState::Voided, updated_at: now, ..p };
                            r == Ok::<Payment, ApiError>(p2) && final(self)@ == AppView {
                                ledger: lv,
                                payments: v.payments.insert(payment_id, p2),
                                ..v1
                            }
                        } else {
                            r is Err && r->Err_0.status == ApiStatus::BadRequest && (r->Err_0.cause matches ApiCause::Payment(
                                pe,
                            ) && is_transition_error(pe, p, "Voided"@)) && final(self)@ == AppView { ledger: lv, ..v1 }
                        },
                    }
                }
            }),
    {
        let mut payment = match self.find_payment(payment_id) {
            Some(p) => p,
            None => {
                return Err(ApiError { status: ApiStatus::NotFound, cause: ApiCause::PaymentNotFound(payment_id) })
            },
        };
        let pending_id = match payment.pending_transfer_id {
            Some(id) => id,
            None => return Err(ApiError { status: ApiStatus::BadRequest, cause: ApiCause::NoPendingTransfer }),
        };
        let now = self.next_timestamp;
        self.next_timestamp = self.next_timestamp.wrapping_add(1);
        if let Err(e) = self.ledger.void_pending(TransferId::new(pending_id), now) {
            return Err(ApiError { status: ApiStatus::InternalServerError, cause: ApiCause::Ledger(e) });
        }
        if let Err(e) = payment.transition_to_voided(now) {
            return Err(ApiError { status: ApiStatus::BadRequest, cause: ApiCause::Payment(e) });
        }
        self.payments.insert(payment_id, payment.clone());
        Ok(payment)
    }

    /// The settled and held balances of a merchant.
    ///
    /// Fails with `NotFound` when the merchant has no account.
    pub fn get_balance(&self, merchant_id: u128) -> (r: Result<MerchantBalance, ApiError>)
        requires
            merchant_id <= u128::MAX - 2_000_000,
        ensures
            ({
                let accounts = self@.ledger.state.accounts;
                let id = merchant_account(merchant_id)@;
                if accounts.contains_key(id) {
                    r == Ok::<MerchantBalance, ApiError>(MerchantBalance {
                        merchant_id,
                        posted_balance: accounts[id].balance.credits_posted@,
                        pending_balance: accounts[id].balance.credits_pending@,
                    })
                } else {
                    r == Err::<MerchantBalance, ApiError>(api_error(ApiStatus::NotFound, ApiCause::MerchantAccountNotFound))
                }
            }),
    {
        let acc_id = AccountDirectory::merchant(merchant_id);
        match self.ledger.get_account(acc_id) {
            Ok(acc) => Ok(MerchantBalance {
                merchant_id,
                posted_balance: acc.balance.credits_posted.as_u128(),
                pending_balance: acc.balance.credits_pending.as_u128(),
            }),
            Err(_) => Err(ApiError { status: ApiStatus::NotFound, cause: ApiCause::MerchantAccountNotFound }),
        }
    }

    /// Deposit funds from the vault into a customer's account; 100,000,000
    /// units when no amount is named.
    ///
    /// The transfer and timestamp counters advance; a deposit that cannot be
    /// built fails with `BadRequest` and one the ledger refuses with
    /// `InternalServerError`.
    pub fn deposit(&mut self, customer_id: u128, amount: Option<u128>) -> (r: Result<Deposit, ApiError>)
        requires
            old(self).wf(),
            customer_id <= u128::MAX - 1_000_000,
        ensures
            final(self).wf(),
            ({
                let v = old(self)@;
                let deposited = match amount {
                    Some(a) => a,
                    None => default_deposit(),
                };
                let v1 = AppView {
                    next_transfer_id: next_of(v.next_transfer_id),
                    next_timestamp: next_of(v.next_timestamp),
                    ..v
                };
                let account = customer_account(customer_id);
                match spec_new_transfer(
                    TransferId::from_spec(v.next_transfer_id as u128),
                    crate::demo::payment::vault_account(),
                    account,
                    Amount::from_spec(deposited),
                    TransferState::Posted,
                    None,
                    v.next_timestamp,
                ) {
                    Err(e) => r == Err::<Deposit, ApiError>(api_error(ApiStatus::BadRequest, ApiCause::Ledger(e)))
                        && final(self)@ == v1,
                    Ok(t) => {
                        let (lr, lv) = v.ledger.after(
                            spec_create_transfer(v.ledger.state, t),
                            LedgerEvent::TransferPosted { transfer: t },
                        );
                        &&& final(self)@ == AppView { ledger: lv, ..v1 }
                        &&& match lr {
                            Err(e) => r == Err::<Deposit, ApiError>(
                                api_error(ApiStatus::InternalServerError, ApiCause::Ledger(e)),
                            ),
                            Ok(_) => if lv.state.accounts.contains_key(account@) {
                                r == Ok::<Deposit, ApiError>(Deposit {
                                    customer_id,
                                    deposited_amount: deposited,
                                    new_balance: lv.state.accounts[account@].balance.credits_posted@,
                                })
                            } else {
                                r == Err::<Deposit, ApiError>(
                                    api_error(ApiStatus::NotFound, ApiCause::CustomerAccountNotFound(customer_id)),
                                )
                            },
                        }
                    },
                }
            }),
    {
        let deposit_amount = match amount {
            Some(a) => a,
            None => 100_000_000,
        };
        let transfer_id = self.next_transfer_id as u128;
        self.next_transfer_id = self.next_transfer_id.wrapping_add(1);
        let now = self.next_timestamp;
        self.next_timestamp = self.next_timestamp.wrapping_add(1);
        let cust_acc = AccountDirectory::customer(customer_id);
        let deposit = match Transfer::new_immediate(
            TransferId::new(transfer_id),
            AccountDirectory::vault_asset(),
            cust_acc,
            Amount::new(deposit_amount),
            now,
        ) {
            Ok(t) => t,
            Err(e) => return Err(ApiError { status: ApiStatus::BadRequest, cause: ApiCause::Ledger(e) }),
        };
        if let Err(e) = self.ledger.create_transfer(deposit) {
            return Err(ApiError { status: ApiStatus::InternalServerError, cause: ApiCause::Ledger(e) });
        }
        match self.ledger.get_account(cust_acc) {
            Ok(acc) => Ok(Deposit {
                customer_id,
                deposited_amount: deposit_amount,
                new_balance: acc.balance.credits_posted.as_u128(),
            }),
            Err(_) => Err(
                ApiError { status: ApiStatus::NotFound, cause: ApiCause::CustomerAccountNotFound(customer_id) },
            ),
        }
    }

    /// Check a webhook's signature header against its raw body.
    ///
    /// Fails with `Unauthorized` when the header is missing or the
    /// signature does not match.
    pub fn authenticate_webhook(&self, signature: Option<&str>, body: &[u8]) -> (r: Result<(), ApiError>)
        ensures
            match signature {
                None => r == Err::<(), ApiError>(api_error(ApiStatus::Unauthorized, ApiCause::MissingSignature)),
                Some(sig) => if spec_verify_signature(self@.webhook_secret, body@, sig.spec_bytes()) is Ok {
                    r is Ok
                } else {
                    r == Err::<(), ApiError>(api_error(ApiStatus::Unauthorized, ApiCause::InvalidSignature))
                },
            },
    {
        let sig = match signature {
            Some(s) => s,
            None => return Err(ApiError { status: ApiStatus::Unauthorized, cause: ApiCause::MissingSignature }),
        };
        match WebhookVerifier::verify_signature(self.webhook_secret.as_slice(), body, sig) {
            Ok(()) => Ok(()),
            Err(_) => Err(ApiError { status: ApiStatus::Unauthorized, cause: ApiCause::InvalidSignature }),
        }
    }

    /// Apply an authenticated card webhook: check its freshness and that its
    /// event was not seen before, then authorize the payment
    /// (`charge.authorized`) or capture it (`charge.captured`).
    ///
    /// A stale event fails with `BadRequest`, a repeated one with `Conflict`,
    /// an unknown event type with `BadRequest`; the ledger's refusals fail as
    /// in [`Self::authorize`] and [`Self::capture`]. A capture of an unknown
    /// payment, or of one without a hold, changes nothing.
    pub fn process_webhook(&mut self, payload: &WebhookPayload) -> (r: Result<(), ApiError>)
        requires
            old(self).wf(),
            spec_verify_freshness(payload.timestamp, webhook_clock(), webhook_tolerance()) is Ok
                && !old(self)@.seen_events.contains(payload.event_id@) && payload.event_type@ == "charge.authorized"@
                ==> payload.merchant_id <= u128::MAX - 2_000_000 && payload.customer_id <= u128::MAX - 1_000_000,
        ensures
            final(self).wf(),
            ({
                let v = old(self)@;
                let v0 = AppView { seen_events: v.seen_events.insert(payload.event_id@), ..v };
                let v1 = AppView { next_transfer_id: next_of(v.next_transfer_id), ..v0 };
                let tid = v.next_transfer_id as u128;
                let p = v.payments[payload.payment_id];
                match spec_verify_freshness(payload.timestamp, webhook_clock(), webhook_tolerance()) {
                    Err(e) => r == Err::<(), ApiError>(api_error(ApiStatus::BadRequest, ApiCause::Webhook(e)))
                        && final(self)@ == v,
                    Ok(_) => if v.seen_events.contains(payload.event_id@) {
                        final(self)@ == v && r is Err && r->Err_0.status == ApiStatus::Conflict && (r->Err_0.cause matches ApiCause::Webhook(
                            WebhookError::DuplicateEventId(id),
                        ) && id@ == payload.event_id@)
                    } else if payload.event_type@ == "charge.authorized"@ {
                        match spec_new_transfer(
                            TransferId::from_spec(tid),
                            customer_account(payload.customer_id),
                            merchant_account(payload.merchant_id),
                            Amount::from_spec(payload.amount),
                            TransferState::Pending,
                            None,
                            payload.timestamp,
                        ) {
                            Err(e) => r == Err::<(), ApiError>(api_error(ApiStatus::BadRequest, ApiCause::Ledger(e)))
                                && final(self)@ == v1,
                            Ok(t) => {
                                let (lr, lv) = v.ledger.after(
                                    spec_create_pending(v.ledger.state, t),
                                    LedgerEvent::TransferPendingCreated { transfer: t },
                                );
                                match lr {
                                    Err(e) => r == Err::<(), ApiError>(
                                        api_error(ApiStatus::PaymentRequired, ApiCause::Ledger(e)),
                                    ) && final(self)@ == AppView { ledger: lv, ..v1 },
                                    Ok(_) => r is Ok && final(self)@ == AppView {
                                        ledger: lv,
                                        payments: v.payments.insert(
                                            payload.payment_id,
                                            Payment {
                                                id: payload.payment_id,
                                                merchant_id: payload.merchant_id,
                                                customer_id: payload.customer_id,
                                                amount: payload.amount,
                                                fee_amount: payload.fee_amount,
                                                state: PaymentState::Authorized,
                                                pending_transfer_id: Some(tid),
                                                posted_transfer_id: None,
                                                settlement_batch_seq: None,
                                                created_at: payload.timestamp,
                                                updated_at: payload.timestamp,
                                            },
                                        ),
                                        ..v1
                                    },
                                }
                            },
                        }
                    } else if payload.event_type@ == "charge.captured"@ {
                        if !v.payments.contains_key(payload.payment_id) || p.pending_transfer_id is None {
                            r is Ok && final(self)@ == v0
                        } else {
                            let pending_id = TransferId::from_spec(p.pending_transfer_id->0);
                            let post = TransferId::from_spec(tid);
                            let (lr, lv) = v.ledger.after(
                                spec_post_pending(
                                    v.ledger.state,
                                    pending_id,
                                    post,
                                    Amount::from_spec(p.amount),
                                    payload.timestamp,
                                ),
                                LedgerEvent::TransferPendingPosted {
                                    pending_id,
                                    post_transfer_id: post,
                                    amount: Amount::from_spec(p.amount),
                                    timestamp: payload.timestamp,
                                },
                            );
                            match lr {
                                Err(e) => r == Err::<(), ApiError>(
                                    api_error(ApiStatus::InternalServerError, ApiCause::Ledger(e)),
                                ) && final(self)@ == AppView { ledger: lv, ..v1 },
                                Ok(_) => if p.state == PaymentState::Authorized {
                                    r is Ok && final(self)@ == AppView {
                                        ledger: lv,
                                        payments: v.payments.insert(
                                            payload.payment_id,
                                            Payment {
                                                state: PaymentState::Captured,
                                                posted_transfer_id: Some(tid),
                                                updated_at: payload.timestamp,
                                                ..p
                                            },
                                        ),
                                        ..v1
                                    }
                                } else {
                                    r is Err && r->Err_0.status == ApiStatus::BadRequest && (r->Err_0.cause matches ApiCause::Payment(
                                        pe,
                                    ) && is_transition_error(pe, p, "Captured"@)) && final(self)@ == AppView {
                                        ledger: lv,
                                        ..v1
                                    }
                                },
                            }
                        }
                    } else {
                        r == Err::<(), ApiError>(api_error(ApiStatus::BadRequest, ApiCause::UnknownEventType))
                            && final(self)@ == v0
                    },
                }
            }),
    {
        if let Err(e) = WebhookVerifier::verify_freshness(payload.timestamp, 1_700_000_100, 300) {
            return Err(ApiError { status: ApiStatus::BadRequest, cause: ApiCause::Webhook(e) });
        }
        if let Err(e) = self.webhook_dedupe.check_and_record(payload.event_id.as_str()) {
            return Err(ApiError { status: ApiStatus::Conflict, cause: ApiCause::Webhook(e) });
        }
        let authorized = "charge.authorized".to_owned();
        let captured = "charge.captured".to_owned();
        if payload.event_type == authorized {
            let transfer_id = self.next_transfer_id as u128;
            self.next_transfer_id = self.next_transfer_id.wrapping_add(1);
            let hold = match Transfer::new_pending(
                TransferId::new(transfer_id),
                AccountDirectory::customer(payload.customer_id),
                AccountDirectory::merchant(payload.merchant_id),
                Amount::new(payload.amount),
                payload.timestamp,
            ) {
                Ok(t) => t,
                Err(e) => return Err(ApiError { status: ApiStatus::BadRequest, cause: ApiCause::Ledger(e) }),
            };
            if let Err(e) = self.ledger.create_pending(hold) {
                return Err(ApiError { status: ApiStatus::PaymentRequired, cause: ApiCause::Ledger(e) });
            }
            let payment = Payment::new_authorized(
                payload.payment_id,
                payload.merchant_id,
                payload.customer_id,
                payload.amount,
                payload.fee_amount,
                transfer_id,
                payload.timestamp,
            );
            self.payments.insert(payload.payment_id, payment);
            Ok(())
        } else if payload.event_type == captured {
            let mut payment = match self.find_payment(payload.payment_id) {
                Some(p) => p,
                None => return Ok(()),
            };
            let pending_id = match payment.pending_transfer_id {
                Some(id) => id,
                None => return Ok(()),
            };
            let post_id = self.next_transfer_id as u128;
            self.next_transfer_id = self.next_transfer_id.wrapping_add(1);
            if let Err(e) = self.ledger.post_pending(
                TransferId::new(pending_id),
                TransferId::new(post_id),
                Amount::new(payment.amount),
                payload.timestamp,
            ) {
                return Err(ApiError { status: ApiStatus::InternalServerError, cause: ApiCause::Ledger(e) });
            }
            if let Err(e) = payment.transition_to_captured(post_id, payload.timestamp) {
                return Err(ApiError { status: ApiStatus::BadRequest, cause: ApiCause::Payment(e) });
            }
            self.payments.insert(payload.payment_id, payment);
            Ok(())
        } else {
            Err(ApiError { status: ApiStatus::BadRequest, cause: ApiCause::UnknownEventType })
        }
    }

    /// The payments, newest first: in decreasing order of their identifiers.
    pub fn payments_newest_first(&self) -> (r: Vec<Payment>)
        requires
            self.wf(),
        ensures
            forall|i: int|
                0 <= i < r@.len() ==> #[trigger] self@.payments.contains_key(r@[i].id) && self@.payments[r@[i].id]
                    == r@[i],
            forall|k: u128| #[trigger] self@.payments.contains_key(k) ==> exists|i: int| 0 <= i < r@.len() && r@[i].id == k,
            forall|i: int, j: int| 0 <= i < j < r@.len() ==> r@[i].id > r@[j].id,
    {
        let ascending = self.payments();
        let n = ascending.len();
        let mut out: Vec<Payment> = Vec::new();
        let mut i: usize = 0;
        while i < n
            invariant
                n == ascending@.len(),
                0 <= i <= n,
                out@.len() == i,
                forall|t: int| 0 <= t < i ==> #[trigger] out@[t] == ascending@[n - 1 - t],
            decreases n - i,
        {
            out.push(ascending[n - 1 - i].clone());
            i = i + 1;
        }
        proof {
            assert forall|k: u128| #[trigger] self@.payments.contains_key(k) implies exists|i: int|
                0 <= i < out@.len() && out@[i].id == k by {
                let j = choose|j: int| 0 <= j < ascending@.len() && ascending@[j].id == k;
                assert(out@[n - 1 - j] == ascending@[j]);
            }
            assert forall|i: int, j: int| 0 <= i < j < out@.len() implies out@[i].id > out@[j].id by {
                assert(out@[i] == ascending@[n - 1 - i]);
                assert(out@[j] == ascending@[n - 1 - j]);
            }
            assert forall|i: int| 0 <= i < out@.len() implies #[trigger] self@.payments.contains_key(out@[i].id)
                && self@.payments[out@[i].id] == out@[i] by {
                assert(out@[i] == ascending@[n - 1 - i]);
            }
        }
        out
    }

    /// The payments, in increasing order of their identifiers.
    pub fn payments(&self) -> (r: Vec<Payment>)
        requires
            self.wf(),
        ensures
            forall|i: int|
                0 <= i < r@.len() ==> #[trigger] self@.payments.contains_key(r@[i].id) && self@.payments[r@[i].id]
                    == r@[i],
            forall|k: u128| #[trigger] self@.payments.contains_key(k) ==> exists|i: int| 0 <= i < r@.len() && r@[i].id == k,
            forall|i: int, j: int| 0 <= i < j < r@.len() ==> r@[i].id < r@[j].id,
    {
        let values = self.payments.values();
        let ghost keys = choose|keys: Seq<u128>|
            {
                &&& vstd::std_specs::btree::increasing_seq(keys)
                &&& keys.to_set() == self.payments@.dom()
                &&& keys.no_duplicates()
                &&& vstd::std_specs::iter::IteratorSpec::remaining(&values) == keys.map(
                    |i: int, k: u128| &self.payments@[k],
                )
            };
        let mut out: Vec<Payment> = Vec::new();
        for p in it: values
            invariant
                out@.len() == it.index(),
                forall|i: int| 0 <= i < out@.len() ==> out@[i] == *it.seq()[i],
        {
            out.push(p.clone());
        }
        proof {
            lemma_sorted_keys(keys);
            assert forall|i: int| 0 <= i < out@.len() implies out@[i] == self.payments@[keys[i]] && keys.to_set().contains(
                keys[i],
            ) by {}
            assert forall|k: u128| #[trigger] self@.payments.contains_key(k) implies exists|i: int|
                0 <= i < out@.len() && out@[i].id == k by {
                assert(keys.to_set().contains(k));
                let i = choose|i: int| 0 <= i < keys.len() && keys[i] == k;
                assert(out@[i] == self.payments@[keys[i]]);
            }
        }
        out
    }

    /// The transfers of the next settlement batch: those that captured a
    /// payment awaiting settlement, in increasing order of their IDs.
    pub fn settlement_transfers(&self) -> (r: Vec<Transfer>)
        requires
            self.wf(),
        ensures
            is_settlement_batch(self@, r@),
    {
        let all = self.ledger.transfers();
        let pays = self.payments();
        let ghost v = self@;
        let mut out: Vec<Transfer> = Vec::new();
        let mut i: usize = 0;
        while i < all.len()
            invariant
                i <= all@.len(),
                v == self@,
                listing_of(v, all@),
                payments_listed(v.payments, pays@),
                forall|j: int|
                    0 <= j < out@.len() ==> #[trigger] v.ledger.state.transfers.contains_key(out@[j]@.id@)
                        && v.ledger.state.transfers[out@[j]@.id@] == out@[j] && settles_transfer(v.payments, out@[j]@.id@),
                forall|j: int|
                    0 <= j < i && settles_transfer(v.payments, #[trigger] all@[j]@.id@) ==> in_batch(out@, all@[j]@.id@),
                forall|j: int, l: int| 0 <= j < l < out@.len() ==> out@[j]@.id@ < out@[l]@.id@,
                i < all@.len() && out@.len() > 0 ==> out@.last()@.id@ < all@[i as int]@.id@,
            decreases all@.len() - i,
        {
            let tid = all[i].id().as_u128();
            let found = captured_by(&pays, tid);
            proof {
                lemma_captured_by(v.payments, pays@, tid);
            }
            let ghost before = out@;
            if found {
                out.push(all[i].clone());
                proof {
                    assert(out@.last() == all@[i as int]);
                    assert(in_batch(out@, all@[i as int]@.id@));
                }
            }
            proof {
                assert forall|j: int|
                    0 <= j < i + 1 && settles_transfer(v.payments, #[trigger] all@[j]@.id@) implies in_batch(
                    out@,
                    all@[j]@.id@,
                ) by {
                    if j < i {
                        assert(in_batch(before, all@[j]@.id@));
                        let l = choose|l: int| 0 <= l < before.len() && before[l]@.id@ == all@[j]@.id@;
                        assert(out@[l] == before[l]);
                    }
                }
                if i + 1 < all@.len() && out@.len() > 0 {
                    assert(all@[i as int]@.id@ < all@[i + 1]@.id@);
                }
            }
            i += 1;
        }
        proof {
            assert forall|k: u128|
                #[trigger] v.ledger.state.transfers.contains_key(k) && settles_transfer(v.payments, k) implies exists|l: int|
                0 <= l < out@.len() && out@[l]@.id@ == k by {
                let j = choose|j: int| 0 <= j < all@.len() && all@[j]@.id@ == k;
                assert(settles_transfer(v.payments, all@[j]@.id@));
                assert(in_batch(out@, all@[j]@.id@));
            }
            assert(forall|j: int|
                0 <= j < out@.len() ==> #[trigger] v.ledger.state.transfers.contains_key(out@[j]@.id@)
                    && v.ledger.state.transfers[out@[j]@.id@] == out@[j] && settles_transfer(v.payments, out@[j]@.id@));
            assert(forall|j: int, l: int| 0 <= j < l < out@.len() ==> out@[j]@.id@ < out@[l]@.id@);
            let ts = out@;
            assert(forall|i: int|
                #![trigger ts[i]]
                0 <= i < ts.len() ==> v.ledger.state.transfers.contains_key(ts[i]@.id@) && v.ledger.state.transfers[ts[i]@.id@]
                    == ts[i] && settles_transfer(v.payments, ts[i]@.id@));
            assert(forall|k: u128|
                #![trigger v.ledger.state.transfers.contains_key(k)]
                v.ledger.state.transfers.contains_key(k) && settles_transfer(v.payments, k) ==> in_batch(ts, k));
            assert(forall|i: int, j: int| #![trigger ts[i], ts[j]] 0 <= i < j < ts.len() ==> ts[i]@.id@ < ts[j]@.id@);
            assert(is_settlement_batch(v, ts));
        }
        out
    }

    /// Settle the next batch on the ACH rail: the transfers that captured a
    /// payment awaiting settlement are submitted under the next batch
    /// sequence number, and their payments are marked with it.
    ///
    /// Fails with `BadRequest` when nothing awaits settlement and with
    /// `InternalServerError` when the sequence number cannot advance; both
    /// leave the state unchanged.
    pub fn settle_ach(&mut self) -> (r: Result<RailSubmission, ApiError>)
        requires
            old(self).wf(),
        ensures
            final(self).wf(),
            exists|ts: Seq<Transfer>|
                #[trigger] is_settlement_batch(old(self)@, ts) && {
                    let v = old(self)@;
                    if ts.len() == 0 {
                        r == Err::<RailSubmission, ApiError>(api_error(ApiStatus::BadRequest, ApiCause::NoTransfersToSettle))
                            && final(self)@ == v
                    } else if v.batch_seq == u64::MAX {
                        r == Err::<RailSubmission, ApiError>(
                            api_error(ApiStatus::InternalServerError, ApiCause::BatchSequenceExhausted),
                        ) && final(self)@ == v
                    } else {
                        let seq = (v.batch_seq + 1) as u64;
                        &&& r is Ok
                        &&& r->Ok_0.rail_name@ == ach_rail_name()@
                        &&& r->Ok_0.batch_seq == seq
                        &&& r->Ok_0.transfer_count == ts.len()
                        &&& r->Ok_0.total_amount == saturating_total(ts)
                        &&& r->Ok_0.reference@ == ach_reference(seq)
                        &&& r->Ok_0.merkle_root is None
                        &&& final(self)@ == AppView {
                            payments: settled_payments(v.payments, ts, seq),
                            batch_seq: seq,
                            ..v
                        }
                    }
                },
    {
        let transfers = self.settlement_transfers();
        let ghost v = self@;
        if transfers.len() == 0 {
            return Err(ApiError { status: ApiStatus::BadRequest, cause: ApiCause::NoTransfersToSettle });
        }
        let seq = match self.batch_seq.checked_add(1) {
            Some(s) => s,
            None => {
                return Err(ApiError { status: ApiStatus::InternalServerError, cause: ApiCause::BatchSequenceExhausted })
            },
        };
        let submission = match self.ach_rail.submit_batch(seq, transfers.as_slice()) {
            Ok(sub) => sub,
            Err(e) => return Err(ApiError { status: ApiStatus::InternalServerError, cause: ApiCause::Rail(e) }),
        };
        let pays = self.payments();
        let mut i: usize = 0;
        while i < pays.len()
            invariant
                i <= pays@.len(),
                submission.batch_seq == seq,
                payments_listed(v.payments, pays@),
                forall|j: int, l: int| 0 <= j < l < pays@.len() ==> pays@[j].id < pays@[l].id,
                self.ledger.wf(),
                self.idempotency.wf(),
                self@ == (AppView { payments: self.payments@, ..v }),
                self.payments@.dom() == v.payments.dom(),
                forall|k: u128|
                    #[trigger] self.payments@.contains_key(k) ==> self.payments@[k] == if listed_before(pays@, i as int, k) {
                        after_settlement(v.payments[k], transfers@, seq)
                    } else {
                        v.payments[k]
                    },
            decreases pays@.len() - i,
        {
            let p = &pays[i];
            let mark = match p.posted_transfer_id {
                Some(id) => p.state == PaymentState::Captured && p.settlement_batch_seq.is_none() && batch_contains(
                    &transfers,
                    id,
                ),
                None => false,
            };
            let ghost key = p.id;
            let ghost before = self.payments@;
            proof {
                assert(v.payments.contains_key(key) && v.payments[key] == pays@[i as int]);
                assert(!listed_before(pays@, i as int, key)) by {
                    if listed_before(pays@, i as int, key) {
                        let j = choose|j: int| 0 <= j < i && pays@[j].id == key;
                        assert(pays@[j].id < pays@[i as int].id);
                    }
                }
                assert(before[key] == v.payments[key]);
            }
            if mark {
                let mut marked = p.clone();
                marked.settlement_batch_seq = Some(submission.batch_seq);
                self.payments.insert(p.id, marked);
            }
            proof {
                assert(self.payments@[key] == after_settlement(v.payments[key], transfers@, seq));
                assert(listed_before(pays@, i + 1, key)) by {
                    assert(pays@[i as int].id == key);
                }
                assert forall|k: u128| #[trigger] self.payments@.contains_key(k) implies self.payments@[k] == if listed_before(
                    pays@,
                    i + 1,
                    k,
                ) {
                    after_settlement(v.payments[k], transfers@, seq)
                } else {
                    v.payments[k]
                } by {
                    if k != key {
                        assert(before.contains_key(k));
                        assert(self.payments@[k] == before[k]);
                        assert(listed_before(pays@, i + 1, k) == listed_before(pays@, i as int, k)) by {
                            if listed_before(pays@, i + 1, k) {
                                let j = choose|j: int| 0 <= j < i + 1 && pays@[j].id == k;
                                assert(j != i);
                                assert(0 <= j < i && pays@[j].id == k);
                            }
                            if listed_before(pays@, i as int, k) {
                                let j = choose|j: int| 0 <= j < i && pays@[j].id == k;
                                assert(0 <= j < i + 1 && pays@[j].id == k);
                            }
                        }
                    }
                }
            }
            i += 1;
        }
        self.batch_seq = self.batch_seq.wrapping_add(1);
        proof {
            assert forall|k: u128| #[trigger] self.payments@.contains_key(k) implies self.payments@[k] == after_settlement(
                v.payments[k],
                transfers@,
                seq,
            ) by {
                assert(v.payments.contains_key(k));
                let j = choose|j: int| 0 <= j < pays@.len() && pays@[j].id == k;
                assert(listed_before(pays@, pays@.len() as int, k));
            }
            assert(self.payments@ =~= settled_payments(v.payments, transfers@, seq));
            assert(is_settlement_batch(old(self)@, transfers@));
        }
        Ok(submission)
    }

    /// Top up a customer with 500,000,000 units from the vault.
    fn seed_deposit_step(&mut self, customer_id: u128) -> (r: Result<(), ApiError>)
        requires
            old(self).wf(),
            customer_id <= u128::MAX - 1_000_000,
        ensures
            final(self).wf(),
            (r, final(self)@) == seed_deposit(old(self)@, customer_id),
    {
        let deposit_now = self.next_timestamp;
        self.next_timestamp = self.next_timestamp.wrapping_add(1);
        let deposit_id = self.next_transfer_id as u128;
        self.next_transfer_id = self.next_transfer_id.wrapping_add(1);
        let deposit = match Transfer::new_immediate(
            TransferId::new(deposit_id),
            AccountDirectory::vault_asset(),
            AccountDirectory::customer(customer_id),
            Amount::new(500_000_000),
            deposit_now,
        ) {
            Ok(t) => t,
            Err(e) => return Err(ApiError { status: ApiStatus::BadRequest, cause: ApiCause::Ledger(e) }),
        };
        if let Err(e) = self.ledger.create_transfer(deposit) {
            return Err(ApiError { status: ApiStatus::InternalServerError, cause: ApiCause::Ledger(e) });
        }
        Ok(())
    }

    /// Place one sample payment.
    fn seed_payment_step(&mut self, seed: Seed) -> (r: Result<(), ApiError>)
        requires
            old(self).wf(),
            seed.0 <= u128::MAX - 1_000_000,
            seed.1 <= u128::MAX - 2_000_000,
        ensures
            final(self).wf(),
            (r, final(self)@) == seed_payment(old(self)@, seed),
    {
        let (cust, merch, amt, fee, target) = seed;
        let hold_ts = self.next_timestamp;
        self.next_timestamp = self.next_timestamp.wrapping_add(1);
        let p_id = self.next_payment_id as u128;
        self.next_payment_id = self.next_payment_id.wrapping_add(1);
        let hold_id = self.next_transfer_id as u128;
        self.next_transfer_id = self.next_transfer_id.wrapping_add(1);
        let hold = match Transfer::new_pending(
            TransferId::new(hold_id),
            AccountDirectory::customer(cust),
            AccountDirectory::merchant(merch),
            Amount::new(amt),
            hold_ts,
        ) {
            Ok(t) => t,
            Err(e) => return Err(ApiError { status: ApiStatus::BadRequest, cause: ApiCause::Ledger(e) }),
        };
        if let Err(e) = self.ledger.create_pending(hold) {
            return Err(ApiError { status: ApiStatus::PaymentRequired, cause: ApiCause::Ledger(e) });
        }
        let mut payment = Payment::new_authorized(p_id, merch, cust, amt, fee, hold_id, hold_ts);
        match target {
            SeedTarget::Captured => {
                let post_ts = self.next_timestamp;
                self.next_timestamp = self.next_timestamp.wrapping_add(1);
                let post_id = self.next_transfer_id as u128;
                self.next_transfer_id = self.next_transfer_id.wrapping_add(1);
                if let Err(e) = self.ledger.post_pending(
                    TransferId::new(hold_id),
                    TransferId::new(post_id),
                    Amount::new(amt),
                    post_ts,
                ) {
                    return Err(ApiError { status: ApiStatus::InternalServerError, cause: ApiCause::Ledger(e) });
                }
                if let Err(e) = payment.transition_to_captured(post_id, post_ts) {
                    return Err(ApiError { status: ApiStatus::BadRequest, cause: ApiCause::Payment(e) });
                }
            },
            SeedTarget::Voided => {
                let void_ts = self.next_timestamp;
                self.next_timestamp = self.next_timestamp.wrapping_add(1);
                if let Err(e) = self.ledger.void_pending(TransferId::new(hold_id), void_ts) {
                    return Err(ApiError { status: ApiStatus::InternalServerError, cause: ApiCause::Ledger(e) });
                }
                if let Err(e) = payment.transition_to_voided(void_ts) {
                    return Err(ApiError { status: ApiStatus::BadRequest, cause: ApiCause::Payment(e) });
                }
            },
            SeedTarget::Authorized => {},
        }
        self.payments.insert(p_id, payment);
        Ok(())
    }

    /// Seed sample payments: top up customers 101 to 103 from the vault,
    /// then place four sample payments, captured, authorized or voided.
    ///
    /// Stops at the first failure, which is reported as the corresponding
    /// endpoint reports it; what was done before it stays.
    pub fn quick_seed(&mut self) -> (r: Result<QuickSeed, ApiError>)
        requires
            old(self).wf(),
        ensures
            final(self).wf(),
            ({
                let (r1, v1) = seed_deposits(old(self)@, sample_customers());
                let (r2, v2) = seed_payments(v1, sample_seeds());
                if r1 is Err {
                    r == Err::<QuickSeed, ApiError>(r1->Err_0) && final(self)@ == v1
                } else if r2 is Err {
                    r == Err::<QuickSeed, ApiError>(r2->Err_0) && final(self)@ == v2
                } else {
                    final(self)@ == v2 && r is Ok && r->Ok_0.seeded_count == 4 && r->Ok_0.message@
                        == "Successfully seeded "@ + spec_decimal(4) + " sample payments."@
                }
            }),
    {
        let customers: [u128; 3] = [101, 102, 103];
        let seeds: [Seed; 4] = [
            (101, 1, 150_000_000, 1_500_000, SeedTarget::Captured),
            (102, 2, 85_500_000, 855_000, SeedTarget::Captured),
            (103, 1, 42_000_000, 500_000, SeedTarget::Authorized),
            (101, 3, 20_000_000, 200_000, SeedTarget::Voided),
        ];
        proof {
            assert(customers@ =~= sample_customers());
            assert(seeds@ =~= sample_seeds());
        }
        let ghost v0 = self@;
        let mut i: usize = 0;
        while i < 3
            invariant
                i <= 3,
                customers@ == sample_customers(),
                v0 == old(self)@,
                self.wf(),
                seed_deposits(v0, customers@.take(i as int)) == (Ok::<(), ApiError>(()), self@),
            decreases 3 - i,
        {
            proof {
                assert(customers@.take(i as int + 1).drop_last() =~= customers@.take(i as int));
            }
            if let Err(e) = self.seed_deposit_step(customers[i]) {
                proof {
                    lemma_seed_deposits_stop(v0, customers@, i as int + 1);
                }
                return Err(e);
            }
            i += 1;
        }
        proof {
            assert(customers@.take(3) =~= customers@);
        }
        let ghost v1 = self@;
        let mut k: usize = 0;
        let mut seeded: usize = 0;
        while k < 4
            invariant
                k <= 4,
                seeded == k,
                seeds@ == sample_seeds(),
                v0 == old(self)@,
                self.wf(),
                seed_deposits(v0, sample_customers()) == (Ok::<(), ApiError>(()), v1),
                seed_payments(v1, seeds@.take(k as int)) == (Ok::<(), ApiError>(()), self@),
            decreases 4 - k,
        {
            proof {
                assert(seeds@.take(k as int + 1).drop_last() =~= seeds@.take(k as int));
            }
            if let Err(e) = self.seed_payment_step(seeds[k]) {
                proof {
                    lemma_seed_payments_stop(v1, seeds@, k as int + 1);
                }
                return Err(e);
            }
            seeded += 1;
            k += 1;
        }
        proof {
            assert(seeds@.take(4) =~= seeds@);
        }
        let mut message = String::new();
        push_str(&mut message, "Successfully seeded ");
        push_decimal(&mut message, seeded as u128);
        push_str(&mut message, " sample payments.");
        Ok(QuickSeed { seeded_count: seeded, message })
    }

    /// The shown accounts that exist, with their balances, in display
    /// order.
    ///
    /// Fails with `InternalServerError` when a net balance cannot be
    /// represented.
    pub fn account_summaries(&self) -> (r: Result<Vec<AccountSummary>, ApiError>)
        ensures
            match summary_rows(self@.ledger.state.accounts, dashboard_accounts()) {
                Err(e) => r == Err::<Vec<AccountSummary>, ApiError>(
                    api_error(ApiStatus::InternalServerError, ApiCause::Ledger(e)),
                ),
                Ok(rows) => r is Ok && r->Ok_0@.len() == rows.len() && forall|i: int|
                    0 <= i < rows.len() ==> #[trigger] shows_row(r->Ok_0@[i], rows[i]),
            },
    {
        let shown: [ShownAccount; 8] = [
            (100, "Bank Clearing Vault", "Asset"),
            (999_999, "Platform Fee Revenue", "Revenue"),
            (1_000_101, "Customer #101 (Alice)", "Liability"),
            (1_000_102, "Customer #102 (Bob)", "Liability"),
            (1_000_103, "Customer #103 (Charlie)", "Liability"),
            (2_000_001, "Merchant #1 (Acme Corp)", "Liability"),
            (2_000_002, "Merchant #2 (Globex)", "Liability"),
            (2_000_003, "Merchant #3 (Soylent)", "Liability"),
        ];
        proof {
            assert(shown@ =~= dashboard_accounts());
        }
        let ghost accounts = self@.ledger.state.accounts;
        let mut list: Vec<AccountSummary> = Vec::new();
        let mut i: usize = 0;
        while i < 8
            invariant
                i <= 8,
                shown@ == dashboard_accounts(),
                accounts == self@.ledger.state.accounts,
                summary_rows(accounts, shown@.take(i as int)) is Ok,
                list@.len() == summary_rows(accounts, shown@.take(i as int))->Ok_0.len(),
                forall|j: int|
                    0 <= j < list@.len() ==> #[trigger] shows_row(
                        list@[j],
                        summary_rows(accounts, shown@.take(i as int))->Ok_0[j],
                    ),
            decreases 8 - i,
        {
            proof {
                assert(shown@.take(i as int + 1).drop_last() =~= shown@.take(i as int));
            }
            let (id, label, acc_type) = shown[i];
            if let Ok(acc) = self.ledger.get_account(AccountId::new(id)) {
                let net = match acc.balance.net_settled(acc.account_type) {
                    Ok(n) => n,
                    Err(e) => {
                        proof {
                            lemma_summary_rows_stop(accounts, shown@, i as int + 1);
                        }
                        return Err(ApiError { status: ApiStatus::InternalServerError, cause: ApiCause::Ledger(e) });
                    },
                };
                list.push(
                    AccountSummary {
                        id,
                        label: label.to_owned(),
                        account_type: acc_type.to_owned(),
                        credits_posted: acc.balance.credits_posted.as_u128(),
                        debits_posted: acc.balance.debits_posted.as_u128(),
                        credits_pending: acc.balance.credits_pending.as_u128(),
                        debits_pending: acc.balance.debits_pending.as_u128(),
                        net_balance: net,
                    },
                );
            }
            i += 1;
        }
        proof {
            assert(shown@.take(8) =~= shown@);
        }
        Ok(list)
    }

    /// The total amount of the captured payments.
    ///
    /// Fails with `InternalServerError` when it does not fit in 128 bits.
    pub fn captured_volume(&self) -> (r: Result<u128, ApiError>)
        requires
            self.wf(),
        ensures
            exists|pays: Seq<Payment>|
                #[trigger] payments_listed(self@.payments, pays) && if captured_volume_of(pays) > u128::MAX {
                    r == Err::<u128, ApiError>(api_error(ApiStatus::InternalServerError, ApiCause::CapturedVolumeOverflow))
                } else {
                    r == Ok::<u128, ApiError>(captured_volume_of(pays) as u128)
                },
    {
        let pays = self.payments();
        assert(payments_listed(self@.payments, pays@));
        let mut total: u128 = 0;
        let mut i: usize = 0;
        while i < pays.len()
            invariant
                i <= pays@.len(),
                payments_listed(self@.payments, pays@),
                total == captured_volume_of(pays@.take(i as int)),
            decreases pays@.len() - i,
        {
            proof {
                assert(pays@.take(i as int + 1).drop_last() =~= pays@.take(i as int));
            }
            if pays[i].state == PaymentState::Captured {
                total = match total.checked_add(pays[i].amount) {
                    Some(t) => t,
                    None => {
                        proof {
                            lemma_captured_volume_grows(pays@, i as int + 1);
                            assert(payments_listed(self@.payments, pays@));
                        }
                        return Err(
                            ApiError { status: ApiStatus::InternalServerError, cause: ApiCause::CapturedVolumeOverflow },
                        );
                    },
                };
            }
            i += 1;
        }
        proof {
            assert(pays@.take(pays@.len() as int) =~= pays@);
            assert(payments_listed(self@.payments, pays@));
        }
        Ok(total)
    }

    /// The number of transfers recorded in the ledger.
    pub fn transfer_count(&self) -> (r: usize)
        requires
            self.wf(),
        ensures
            r == self@.ledger.state.transfers.dom().len(),
    {
        self.ledger.transfers().len()
    }

    /// Set the simulated discrepancy injected into reconciliation reports.
    pub fn set_simulated_drift(&mut self, drift: i64)
        ensures
            final(self)@ == (AppView { simulated_drift: drift, ..old(self)@ }),
            final(self).wf() == old(self).wf(),
    {
        self.simulated_drift = drift;
    }

    /// The simulated discrepancy injected into reconciliation reports.
    pub fn simulated_drift(&self) -> (r: i64)
        ensures
            r == self@.simulated_drift,
    {
        self.simulated_drift
    }

    /// The sequence number of the last settlement batch.
    pub fn batch_seq(&self) -> (r: u64)
        ensures
            r == self@.batch_seq,
    {
        self.batch_seq
    }

    /// Record the response of a completed request, so that a repeat of it
    /// gets that response back.
    pub fn complete_request(&mut self, idempotency_key: &str, response_json: String)
        requires
            old(self).wf(),
        ensures
            final(self).wf(),
            final(self)@ == (AppView {
                requests: spec_complete(old(self)@.requests, idempotency_key@, response_json@),
                ..old(self)@
            }),
    {
        self.idempotency.complete(idempotency_key, response_json);
    }

    /// The ledger.
    pub fn ledger(&self) -> (r: &Ledger)
        ensures
            r@ == self@.ledger,
            self.wf() ==> r.wf(),
    {
        &self.ledger
    }
}

} // verus!
