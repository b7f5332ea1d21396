//! Canonical leaf hashing of transfers and journal events.
//!
//! A record is encoded with postcard in the field order of its type (an enum
//! as its variant index followed by the variant's fields), and its leaf hash
//! is `Sha256(0x00 || encoding)`.

use vstd::prelude::*;

use crate::ledger_core::account::{AccountFlags, AccountType};
use crate::ledger_core::amount::group_amount;
use crate::ledger_core::id::group_id;
use crate::ledger_core::journal::LedgerEvent;
use crate::ledger_core::transfer::{Transfer, TransferState, TransferView, group_transfer};
use crate::merkle::error::MmrError;
use crate::merkle::hash::{Hash32, hash_leaf, leaf_hash_of};
use crate::merkle::mmr::MerkleMountainRange;

verus! {

broadcast use {group_amount, group_id, group_transfer};

/// The position of a transfer state among the type's variants.
pub open spec fn transfer_state_index(s: TransferState) -> u32 {
    match s {
        TransferState::Pending => 0,
        TransferState::Posted => 1,
        TransferState::Voided => 2,
    }
}

/// The position of an account type among the type's variants.
pub open spec fn account_type_index(t: AccountType) -> u32 {
    match t {
        AccountType::Asset => 0,
        AccountType::Liability => 1,
        AccountType::Equity => 2,
        AccountType::Revenue => 3,
        AccountType::Expense => 4,
    }
}

/// A transfer's fields in declaration order: ID, debit account, credit
/// account, amount, state index, hold link, timestamp.
pub open spec fn transfer_fields(t: TransferView) -> (u128, u128, u128, u128, u32, Option<u128>, u64) {
    (
        t.id@,
        t.debit_account_id@,
        t.credit_account_id@,
        t.amount@,
        transfer_state_index(t.state),
        match t.pending_id {
            Some(p) => Some(p@),
            None => None,
        },
        t.timestamp,
    )
}

/// An account's flags in declaration order.
pub open spec fn flag_fields(f: AccountFlags) -> (bool, bool, bool) {
    (f.debits_must_not_exceed_credits, f.credits_must_not_exceed_debits, f.is_closed)
}

/// The postcard encoding of a transfer's fields.
pub uninterp spec fn spec_transfer_encoding(fields: (u128, u128, u128, u128, u32, Option<u128>, u64)) -> Seq<u8>;

/// The postcard encoding of an account-creation event's variant index and
/// fields (ID, type index, flags, scale, timestamp).
pub uninterp spec fn spec_account_created_encoding(fields: (u32, u128, u32, (bool, bool, bool), u8, u64)) -> Seq<u8>;

/// The postcard encoding of an account-closure event's variant index and
/// fields (ID, timestamp).
pub uninterp spec fn spec_account_closed_encoding(fields: (u32, u128, u64)) -> Seq<u8>;

/// The postcard encoding of a transfer event's variant index and transfer.
pub uninterp spec fn spec_transfer_event_encoding(fields: (u32, (u128, u128, u128, u128, u32, Option<u128>, u64))) -> Seq<u8>;

/// The postcard encoding of a hold-posting event's variant index and fields
/// (hold, settlement ID, amount, timestamp).
pub uninterp spec fn spec_pending_posted_encoding(fields: (u32, u128, u128, u128, u64)) -> Seq<u8>;

/// The postcard encoding of a hold-voiding event's variant index and fields
/// (hold, amount, timestamp).
pub uninterp spec fn spec_pending_voided_encoding(fields: (u32, u128, u128, u64)) -> Seq<u8>;

/// Encode a transfer's fields.
///
/// Calls `postcard::to_allocvec` on the tuple of fields; the bytes are named
/// by [`spec_transfer_encoding`]. Encoding these plain values into the
/// allocating vector flavor cannot fail: its pushes and its finish always
/// succeed.
#[verifier::external_body]
fn encode_transfer_fields(fields: (u128, u128, u128, u128, u32, Option<u128>, u64)) -> (r: Result<Vec<u8>, String>)
    ensures
        r is Ok,
        r->Ok_0@ == spec_transfer_encoding(fields),
{
    match postcard::to_allocvec(&fields) {
        Ok(b) => Ok(b),
        Err(e) => Err(e.to_string()),
    }
}

/// Encode an account-creation event.
///
/// Calls `postcard::to_allocvec` on the tuple; the bytes are named by
/// [`spec_account_created_encoding`]; it cannot fail, as for [`encode_transfer_fields`].
#[verifier::external_body]
fn encode_account_created(fields: (u32, u128, u32, (bool, bool, bool), u8, u64)) -> (r: Result<Vec<u8>, String>)
    ensures
        r is Ok,
        r->Ok_0@ == spec_account_created_encoding(fields),
{
    match postcard::to_allocvec(&fields) {
        Ok(b) => Ok(b),
        Err(e) => Err(e.to_string()),
    }
}

/// Encode an account-closure event.
///
/// Calls `postcard::to_allocvec` on the tuple; the bytes are named by
/// [`spec_account_closed_encoding`]; it cannot fail, as for [`encode_transfer_fields`].
#[verifier::external_body]
fn encode_account_closed(fields: (u32, u128, u64)) -> (r: Result<Vec<u8>, String>)
    ensures
        r is Ok,
        r->Ok_0@ == spec_account_closed_encoding(fields),
{
    match postcard::to_allocvec(&fields) {
        Ok(b) => Ok(b),
        Err(e) => Err(e.to_string()),
    }
}

/// Encode a transfer event.
///
/// Calls `postcard::to_allocvec` on the tuple; the bytes are named by
/// [`spec_transfer_event_encoding`]; it cannot fail, as for [`encode_transfer_fields`].
#[verifier::external_body]
fn encode_transfer_event(fields: (u32, (u128, u128, u128, u128, u32, Option<u128>, u64))) -> (r: Result<Vec<u8>, String>)
    ensures
        r is Ok,
        r->Ok_0@ == spec_transfer_event_encoding(fields),
{
    match postcard::to_allocvec(&fields) {
        Ok(b) => Ok(b),
        Err(e) => Err(e.to_string()),
    }
}

/// Encode a hold-posting event.
///
/// Calls `postcard::to_allocvec` on the tuple; the bytes are named by
/// [`spec_pending_posted_encoding`]; it cannot fail, as for [`encode_transfer_fields`].
#[verifier::external_body]
fn encode_pending_posted(fields: (u32, u128, u128, u128, u64)) -> (r: Result<Vec<u8>, String>)
    ensures
        r is Ok,
        r->Ok_0@ == spec_pending_posted_encoding(fields),
{
    match postcard::to_allocvec(&fields) {
        Ok(b) => Ok(b),
        Err(e) => Err(e.to_string()),
    }
}

/// Encode a hold-voiding event.
///
/// Calls `postcard::to_allocvec` on the tuple; the bytes are named by
/// [`spec_pending_voided_encoding`]; it cannot fail, as for [`encode_transfer_fields`].
#[verifier::external_body]
fn encode_pending_voided(fields: (u32, u128, u128, u64)) -> (r: Result<Vec<u8>, String>)
    ensures
        r is Ok,
        r->Ok_0@ == spec_pending_voided_encoding(fields),
{
    match postcard::to_allocvec(&fields) {
        Ok(b) => Ok(b),
        Err(e) => Err(e.to_string()),
    }
}

/// The canonical record of a transfer: the encoding of its fields.
pub open spec fn spec_transfer_record(t: TransferView) -> Seq<u8> {
    spec_transfer_encoding(transfer_fields(t))
}

/// The canonical record of a journal event: the encoding of its variant
/// index followed by its fields.
pub open spec fn spec_event_record(e: LedgerEvent) -> Seq<u8> {
    match e {
        LedgerEvent::AccountCreated { id, account_type, flags, scale, timestamp } => spec_account_created_encoding(
            (0, id@, account_type_index(account_type), flag_fields(flags), scale@, timestamp),
        ),
        LedgerEvent::AccountClosed { id, timestamp } => spec_account_closed_encoding((1, id@, timestamp)),
        LedgerEvent::TransferPosted { transfer } => spec_transfer_event_encoding((2, transfer_fields(transfer@))),
        LedgerEvent::TransferPendingCreated { transfer } => spec_transfer_event_encoding(
            (3, transfer_fields(transfer@)),
        ),
        LedgerEvent::TransferPendingPosted { pending_id, post_transfer_id, amount, timestamp } =>
            spec_pending_posted_encoding((4, pending_id@, post_transfer_id@, amount@, timestamp)),
        LedgerEvent::TransferPendingVoided { pending_id, amount, timestamp } => spec_pending_voided_encoding(
            (5, pending_id@, amount@, timestamp),
        ),
    }
}

fn state_index(s: TransferState) -> (r: u32)
    ensures
        r == transfer_state_index(s),
{
    match s {
        TransferState::Pending => 0,
        TransferState::Posted => 1,
        TransferState::Voided => 2,
    }
}

fn type_index(t: AccountType) -> (r: u32)
    ensures
        r == account_type_index(t),
{
    match t {
        AccountType::Asset => 0,
        AccountType::Liability => 1,
        AccountType::Equity => 2,
        AccountType::Revenue => 3,
        AccountType::Expense => 4,
    }
}

fn fields_of(transfer: &Transfer) -> (r: (u128, u128, u128, u128, u32, Option<u128>, u64))
    ensures
        r == transfer_fields(transfer@),
{
    let pending_id = match transfer.pending_id() {
        Some(p) => Some(p.as_u128()),
        None => None,
    };
    (
        transfer.id().as_u128(),
        transfer.debit_account_id().as_u128(),
        transfer.credit_account_id().as_u128(),
        transfer.amount().as_u128(),
        state_index(transfer.state()),
        pending_id,
        transfer.timestamp(),
    )
}

/// The leaf hash of a record's bytes, or a serialization error.
fn leaf_of(encoded: Result<Vec<u8>, String>) -> (r: Result<Hash32, MmrError>)
    ensures
        match encoded {
            Ok(b) => r is Ok && r->Ok_0@ == leaf_hash_of(b@),
            Err(m) => r == Err::<Hash32, MmrError>(MmrError::Serialization(m)),
        },
{
    match encoded {
        Ok(bytes) => Ok(hash_leaf(bytes.as_slice())),
        Err(m) => Err(MmrError::Serialization(m)),
    }
}

/// The canonical leaf hash of a transfer: `Sha256(0x00 || record)`; it
/// always succeeds.
pub fn hash_transfer(transfer: &Transfer) -> (r: Result<Hash32, MmrError>)
    ensures
        r is Ok,
        r->Ok_0@ == leaf_hash_of(spec_transfer_record(transfer@)),
{
    leaf_of(encode_transfer_fields(fields_of(transfer)))
}

/// The canonical leaf hash of a journal event: `Sha256(0x00 || record)`;
/// it always succeeds.
pub fn hash_ledger_event(event: &LedgerEvent) -> (r: Result<Hash32, MmrError>)
    ensures
        r is Ok,
        r->Ok_0@ == leaf_hash_of(spec_event_record(*event)),
{
    let encoded = match event {
        LedgerEvent::AccountCreated { id, account_type, flags, scale, timestamp } => encode_account_created(
            (
                0,
                id.as_u128(),
                type_index(*account_type),
                (flags.debits_must_not_exceed_credits, flags.credits_must_not_exceed_debits, flags.is_closed),
                scale.as_u8(),
                *timestamp,
            ),
        ),
        LedgerEvent::AccountClosed { id, timestamp } => encode_account_closed((1, id.as_u128(), *timestamp)),
        LedgerEvent::TransferPosted { transfer } => encode_transfer_event((2, fields_of(transfer))),
        LedgerEvent::TransferPendingCreated { transfer } => encode_transfer_event((3, fields_of(transfer))),
        LedgerEvent::TransferPendingPosted { pending_id, post_transfer_id, amount, timestamp } =>
            encode_pending_posted((4, pending_id.as_u128(), post_transfer_id.as_u128(), amount.as_u128(), *timestamp)),
        LedgerEvent::TransferPendingVoided { pending_id, amount, timestamp } => encode_pending_voided(
            (5, pending_id.as_u128(), amount.as_u128(), *timestamp),
        ),
    };
    leaf_of(encoded)
}

impl MerkleMountainRange {
    /// Encode a transfer canonically and append its leaf hash; returns the
    /// new leaf's index.
    pub fn append_transfer(&mut self, transfer: &Transfer) -> (r: Result<usize, MmrError>)
        requires
            old(self).wf(),
            old(self).leaves().len() < usize::MAX / 4,
        ensures
            final(self).wf(),
            r == Ok::<usize, MmrError>(old(self).leaves().len() as usize),
            final(self).leaves() == old(self).leaves().push(leaf_hash_of(spec_transfer_record(transfer@))),
    {
        match hash_transfer(transfer) {
            Ok(hash) => Ok(self.append_leaf_hash(hash)),
            Err(e) => Err(e),
        }
    }

    /// Encode a journal event canonically and append its leaf hash; returns
    /// the new leaf's index.
    pub fn append_ledger_event(&mut self, event: &LedgerEvent) -> (r: Result<usize, MmrError>)
        requires
            old(self).wf(),
            old(self).leaves().len() < usize::MAX / 4,
        ensures
            final(self).wf(),
            r == Ok::<usize, MmrError>(old(self).leaves().len() as usize),
            final(self).leaves() == old(self).leaves().push(leaf_hash_of(spec_event_record(*event))),
    {
        match hash_ledger_event(event) {
            Ok(hash) => Ok(self.append_leaf_hash(hash)),
            Err(e) => Err(e),
        }
    }
}

} // verus!
