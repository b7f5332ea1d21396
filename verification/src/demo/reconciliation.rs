//! Three-way reconciliation: payment records against the ledger's merchant
//! balances and the total committed on chain.

use vstd::prelude::*;

use crate::demo::error::ReconciliationError;
use crate::demo::payment::{AccountDirectory, Payment, PaymentState, merchant_account};
use crate::ledger_core::account::Account;
use crate::ledger_core::amount::group_amount;
use crate::ledger_core::id::group_id;
use crate::ledger_core::ledger::Ledger;
use crate::ledger_core::message::push_str;
use crate::ledger_core::text::{push_decimal, push_signed_decimal, spec_decimal, spec_signed_decimal};

verus! {

broadcast use {group_amount, group_id};

/// Outcome status of a reconciliation audit.
#[derive(Clone, Copy, Debug, PartialEq, Eq, Structural)]
pub enum ReconciliationStatus {
    /// Zero drift detected; all three sources agree exactly.
    Clean,
    /// Discrepancy detected across sources of truth; operational incident raised.
    DriftDetected,
}

/// Structured incident data generated when reconciliation drift is detected.
#[derive(Clone, Debug, PartialEq, Eq)]
pub struct ReconciliationIncident {
    /// Unique incident ID.
    pub incident_id: String,
    /// Calculated difference between ledger and external sources.
    pub drift_amount: i128,
    /// Detailed discrepancy message.
    pub details: String,
    /// Recommended operational triage action.
    pub recommended_action: String,
}

/// Comprehensive audit report produced by the three-way reconciliation job.
#[derive(Clone, Debug, PartialEq, Eq)]
pub struct ReconciliationReport {
    /// Unix timestamp of the audit.
    pub timestamp: u64,
    /// Audit status (`Clean` or `DriftDetected`).
    pub status: ReconciliationStatus,
    /// Total amount captured according to application payment records.
    pub app_settled_total: u128,
    /// Total amount credited to merchant liability accounts in the double-entry ledger.
    pub ledger_settled_total: u128,
    /// Total amount committed on chain.
    pub chain_settled_total: u128,
    /// Discrepancy between ledger and app state (`ledger - app`).
    pub drift: i128,
    /// Number of verified matching transfers.
    pub reconciled_transfers: usize,
    /// Incident details if drift was detected.
    pub incident: Option<ReconciliationIncident>,
}

/// What reconciliation reads of the settlement root committed on chain.
#[derive(Clone, Copy, Debug, PartialEq, Eq, Structural)]
pub struct SettlementRoot {
    /// Cumulative amount settled by the committed batches.
    pub total_settled_amount: u128,
}

/// `a + b`, saturating at `u128::MAX`.
pub open spec fn sat_add(a: u128, b: u128) -> u128 {
    if a + b > u128::MAX {
        u128::MAX
    } else {
        (a + b) as u128
    }
}

/// The saturating total of the captured payments' amounts.
pub open spec fn app_total(payments: Seq<Payment>) -> u128
    decreases payments.len(),
{
    if payments.len() == 0 {
        0
    } else if payments.last().state == PaymentState::Captured {
        sat_add(app_total(payments.drop_last()), payments.last().amount)
    } else {
        app_total(payments.drop_last())
    }
}

/// The number of captured payments.
pub open spec fn captured_count(payments: Seq<Payment>) -> nat
    decreases payments.len(),
{
    if payments.len() == 0 {
        0
    } else if payments.last().state == PaymentState::Captured {
        captured_count(payments.drop_last()) + 1
    } else {
        captured_count(payments.drop_last())
    }
}

/// The saturating total of the merchants' posted credits, or the number of
/// the first merchant account that is missing.
pub open spec fn ledger_total(accounts: Map<u128, Account>, merchants: Seq<u128>) -> Result<u128, u128>
    decreases merchants.len(),
{
    if merchants.len() == 0 {
        Ok(0)
    } else {
        match ledger_total(accounts, merchants.drop_last()) {
            Err(id) => Err(id),
            Ok(t) => {
                let id = merchant_account(merchants.last())@;
                if accounts.contains_key(id) {
                    Ok(sat_add(t, accounts[id].balance.credits_posted@))
                } else {
                    Err(id)
                }
            },
        }
    }
}

/// Whether the ledger and app totals differ by an amount that fits in an
/// `i128`, as the drift computation needs.
pub open spec fn drift_fits(ledger_amount: u128, app_amount: u128) -> bool {
    i128::MIN <= (ledger_amount as i128) - (app_amount as i128) <= i128::MAX
}

/// The drift between the ledger and app totals.
pub open spec fn drift_of(ledger_amount: u128, app_amount: u128) -> i128 {
    ((ledger_amount as i128) - (app_amount as i128)) as i128
}

/// The identifier of the incident raised by an audit at `timestamp`.
pub open spec fn incident_id_text(timestamp: u64) -> Seq<char> {
    "INC-RECON-"@ + spec_decimal(timestamp as nat)
}

/// The description of a discrepancy.
pub open spec fn incident_details(app_amount: u128, ledger_amount: u128, chain_amount: u128, drift: i128) -> Seq<char> {
    "Discrepancy: App="@ + spec_decimal(app_amount as nat) + ", Ledger="@ + spec_decimal(ledger_amount as nat)
        + ", Chain="@ + spec_decimal(chain_amount as nat) + ", Drift="@ + spec_signed_decimal(drift as int)
}

/// The action recommended when drift is detected.
pub open spec fn recommended_action_text() -> &'static str {
    "Halt automated batch settlement and inspect unposted transaction buffer."
}

/// Core reconciliation auditor.
pub struct ReconciliationEngine;

impl ReconciliationEngine {
    /// The saturating total of the captured payments' amounts, and how many
    /// payments are captured.
    pub fn app_settled_total(payments: &[Payment]) -> (r: (u128, usize))
        ensures
            r.0 == app_total(payments@),
            r.1 == captured_count(payments@),
    {
        let mut app: u128 = 0;
        let mut captured: usize = 0;
        let mut i: usize = 0;
        while i < payments.len()
            invariant
                i <= payments@.len(),
                app == app_total(payments@.take(i as int)),
                captured == captured_count(payments@.take(i as int)),
                captured <= i,
            decreases payments@.len() - i,
        {
            proof {
                assert(payments@.take(i as int + 1).drop_last() =~= payments@.take(i as int));
            }
            if payments[i].state == PaymentState::Captured {
                app = app.saturating_add(payments[i].amount);
                captured += 1;
            }
            i += 1;
        }
        proof {
            assert(payments@.take(payments@.len() as int) =~= payments@);
        }
        (app, captured)
    }

    /// The saturating total of the merchants' posted credits, or the number
    /// of the first merchant account that is missing.
    pub fn ledger_settled_total(ledger: &Ledger, merchants: &[u128]) -> (r: Result<u128, u128>)
        requires
            forall|i: int| 0 <= i < merchants@.len() ==> merchants@[i] <= u128::MAX - 2_000_000,
        ensures
            r == ledger_total(ledger@.state.accounts, merchants@),
    {
        let mut total: u128 = 0;
        let mut k: usize = 0;
        while k < merchants.len()
            invariant
                k <= merchants@.len(),
                forall|j: int| 0 <= j < merchants@.len() ==> merchants@[j] <= u128::MAX - 2_000_000,
                ledger_total(ledger@.state.accounts, merchants@.take(k as int)) == Ok::<u128, u128>(total),
            decreases merchants@.len() - k,
        {
            proof {
                assert(merchants@.take(k as int + 1).drop_last() =~= merchants@.take(k as int));
            }
            let acc_id = AccountDirectory::merchant(merchants[k]);
            let acc = match ledger.get_account(acc_id) {
                Ok(a) => a,
                Err(_) => {
                    proof {
                        lemma_ledger_total_stops(ledger@.state.accounts, merchants@, k as int + 1);
                    }
                    return Err(acc_id.as_u128());
                },
            };
            total = total.saturating_add(acc.balance.credits_posted.as_u128());
            k += 1;
        }
        proof {
            assert(merchants@.take(merchants@.len() as int) =~= merchants@);
        }
        Ok(total)
    }

    /// Whether the ledger and app totals, each read as an `i128`, differ by
    /// an amount that fits in an `i128`, as [`Self::audit`] requires.
    pub fn drift_fits(ledger_amount: u128, app_amount: u128) -> (r: bool)
        ensures
            r == drift_fits(ledger_amount, app_amount),
    {
        let ledger_signed = ledger_amount as i128;
        let app_signed = app_amount as i128;
        ledger_signed.checked_sub(app_signed).is_some()
    }
}

impl ReconciliationEngine {
    /// Perform a three-way reconciliation audit across app records, the
    /// double-entry ledger and the on-chain state.
    ///
    /// The app total sums the captured payments, the ledger total the posted
    /// credits of the merchants' accounts; the audit is clean when they
    /// agree and, if a root was committed on chain, its total agrees with the
    /// ledger too. Fails with `AccountNotFound` at the first merchant whose
    /// account is missing.
    pub fn audit(
        payments: &[Payment],
        ledger: &Ledger,
        merchants: &[u128],
        chain_root: Option<&SettlementRoot>,
        timestamp: u64,
    ) -> (r: Result<ReconciliationReport, ReconciliationError>)
        requires
            forall|i: int| 0 <= i < merchants@.len() ==> merchants@[i] <= u128::MAX - 2_000_000,
            ledger_total(ledger@.state.accounts, merchants@) matches Ok(lt) ==> drift_fits(lt, app_total(payments@)),
        ensures
            match ledger_total(ledger@.state.accounts, merchants@) {
                Err(id) => r == Err::<ReconciliationReport, ReconciliationError>(ReconciliationError::AccountNotFound(id)),
                Ok(lt) => r is Ok && {
                    let rep = r->Ok_0;
                    let at = app_total(payments@);
                    let ct: u128 = match chain_root {
                        Some(root) => root.total_settled_amount,
                        None => 0,
                    };
                    let drift = drift_of(lt, at);
                    let clean = drift == 0 && (chain_root is None || ct == lt);
                    &&& rep.timestamp == timestamp
                    &&& rep.app_settled_total == at
                    &&& rep.ledger_settled_total == lt
                    &&& rep.chain_settled_total == ct
                    &&& rep.reconciled_transfers == captured_count(payments@)
                    &&& clean ==> rep.status == ReconciliationStatus::Clean && rep.drift == 0 && rep.incident is None
                    &&& !clean ==> rep.status == ReconciliationStatus::DriftDetected && rep.drift == drift
                        && rep.incident is Some && rep.incident->0.drift_amount == drift
                        && rep.incident->0.incident_id@ == incident_id_text(timestamp)
                        && rep.incident->0.details@ == incident_details(at, lt, ct, drift)
                        && rep.incident->0.recommended_action@ == recommended_action_text()@
                },
            },
    {
        let (app, captured) = Self::app_settled_total(payments);
        let total = match Self::ledger_settled_total(ledger, merchants) {
            Ok(t) => t,
            Err(id) => return Err(ReconciliationError::AccountNotFound(id)),
        };
        let chain_total: u128 = match chain_root {
            Some(root) => root.total_settled_amount,
            None => 0,
        };
        let drift: i128 = (total as i128) - (app as i128);
        let is_clean = drift == 0 && (chain_root.is_none() || chain_total == total);
        if is_clean {
            Ok(ReconciliationReport {
                timestamp,
                status: ReconciliationStatus::Clean,
                app_settled_total: app,
                ledger_settled_total: total,
                chain_settled_total: chain_total,
                drift: 0,
                reconciled_transfers: captured,
                incident: None,
            })
        } else {
            let mut incident_id = String::new();
            push_str(&mut incident_id, "INC-RECON-");
            push_decimal(&mut incident_id, timestamp as u128);
            let mut details = String::new();
            push_str(&mut details, "Discrepancy: App=");
            push_decimal(&mut details, app);
            push_str(&mut details, ", Ledger=");
            push_decimal(&mut details, total);
            push_str(&mut details, ", Chain=");
            push_decimal(&mut details, chain_total);
            push_str(&mut details, ", Drift=");
            push_signed_decimal(&mut details, drift);
            let mut recommended_action = String::new();
            push_str(&mut recommended_action, "Halt automated batch settlement and inspect unposted transaction buffer.");
            let incident = ReconciliationIncident { incident_id, drift_amount: drift, details, recommended_action };
            Ok(ReconciliationReport {
                timestamp,
                status: ReconciliationStatus::DriftDetected,
                app_settled_total: app,
                ledger_settled_total: total,
                chain_settled_total: chain_total,
                drift,
                reconciled_transfers: captured,
                incident: Some(incident),
            })
        }
    }
}

/// Once a merchant account is found missing, later merchants change nothing.
proof fn lemma_ledger_total_stops(accounts: Map<u128, Account>, merchants: Seq<u128>, k: int)
    requires
        0 <= k <= merchants.len(),
        ledger_total(accounts, merchants.take(k)) is Err,
    ensures
        ledger_total(accounts, merchants) == ledger_total(accounts, merchants.take(k)),
    decreases merchants.len(),
{
    if k == merchants.len() {
        assert(merchants.take(k) =~= merchants);
    } else {
        assert(merchants.drop_last().take(k) =~= merchants.take(k));
        lemma_ledger_total_stops(accounts, merchants.drop_last(), k);
    }
}

/// The action recommended when a simulated discrepancy is injected.
pub open spec fn simulated_action_text() -> &'static str {
    "Audit bank clearing records and click 'Heal Drift' to re-balance."
}

/// Inject a simulated discrepancy of `drift_offset` units into a report:
/// the drift grows by it and an incident is raised, described by `details`.
/// A zero offset leaves the report as it is.
pub fn apply_simulated_drift(report: ReconciliationReport, drift_offset: i64, details: String) -> (r: ReconciliationReport)
    requires
        drift_offset != 0 ==> i128::MIN <= report.drift + drift_offset <= i128::MAX,
    ensures
        drift_offset == 0 ==> r == report,
        drift_offset != 0 ==> {
            &&& r.timestamp == report.timestamp
            &&& r.app_settled_total == report.app_settled_total
            &&& r.ledger_settled_total == report.ledger_settled_total
            &&& r.chain_settled_total == report.chain_settled_total
            &&& r.reconciled_transfers == report.reconciled_transfers
            &&& r.drift == report.drift + drift_offset
            &&& r.status == ReconciliationStatus::DriftDetected
            &&& r.incident is Some
            &&& r.incident->0.incident_id@ == "INC-SIMULATED-DRIFT-"@ + spec_decimal(report.timestamp as nat)
            &&& r.incident->0.drift_amount == report.drift + drift_offset
            &&& r.incident->0.details@ == details@
            &&& r.incident->0.recommended_action@ == simulated_action_text()@
        },
{
    if drift_offset == 0 {
        return report;
    }
    let mut report = report;
    report.drift = report.drift + drift_offset as i128;
    report.status = ReconciliationStatus::DriftDetected;
    let mut incident_id = String::new();
    push_str(&mut incident_id, "INC-SIMULATED-DRIFT-");
    push_decimal(&mut incident_id, report.timestamp as u128);
    let mut recommended_action = String::new();
    push_str(&mut recommended_action, "Audit bank clearing records and click 'Heal Drift' to re-balance.");
    report.incident = Some(
        ReconciliationIncident { incident_id, drift_amount: report.drift, details, recommended_action },
    );
    report
}

/// An audit is clean exactly when the ledger agrees with the payment records
/// and with the chain total, if a root was committed.
pub proof fn law_clean_means_agreement(ledger_amount: u128, app_amount: u128, chain: Option<u128>)
    requires
        drift_fits(ledger_amount, app_amount),
    ensures
        (drift_of(ledger_amount, app_amount) == 0 && (chain is None || chain->0 == ledger_amount)) <==> (
        ledger_amount == app_amount && (chain is None || chain->0 == ledger_amount)),
{
    assert(drift_of(ledger_amount, app_amount) == 0 <==> ledger_amount == app_amount) by (bit_vector)
        requires
            i128::MIN <= (ledger_amount as i128) - (app_amount as i128) <= i128::MAX,
    ;
}

/// Only payments in the Captured state count towards the app total and the
/// reconciled count: no payment counts in an empty list; adding a payment in
/// any other state (authorized, voided, refunded) changes neither; adding a
/// captured one adds its amount (saturating at `u128::MAX`) and one to the
/// count.
pub proof fn law_only_captured_payments_count(payments: Seq<Payment>, p: Payment)
    ensures
        app_total(Seq::<Payment>::empty()) == 0,
        captured_count(Seq::<Payment>::empty()) == 0,
        p.state != PaymentState::Captured ==> app_total(payments.push(p)) == app_total(payments) && captured_count(
            payments.push(p),
        ) == captured_count(payments),
        p.state == PaymentState::Captured ==> captured_count(payments.push(p)) == captured_count(payments) + 1
            && app_total(payments.push(p)) == (if app_total(payments) + p.amount > u128::MAX {
            u128::MAX as int
        } else {
            app_total(payments) + p.amount
        }),
{
    assert(payments.push(p).drop_last() =~= payments);
}

} // verus!
