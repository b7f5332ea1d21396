//! Account and transfer identifier types.

use vstd::prelude::*;

use crate::ledger_core::error::LedgerError;
use crate::ledger_core::text::{is_digit_char, spec_parse_u128, parse_u128};

verus! {

/// Unique account ID.
///
/// The inner `u128` is private; IDs are created through [`AccountId::new`].
#[derive(Copy, Clone, Debug, PartialEq, Eq, PartialOrd, Ord, Hash, Structural)]
pub struct AccountId(u128);

impl View for AccountId {
    type V = u128;

    closed spec fn view(&self) -> u128 {
        self.0
    }
}

/// Unique transfer ID.
///
/// The inner `u128` is private; IDs are created through [`TransferId::new`].
#[derive(Copy, Clone, Debug, PartialEq, Eq, PartialOrd, Ord, Hash, Structural)]
pub struct TransferId(u128);

impl View for TransferId {
    type V = u128;

    closed spec fn view(&self) -> u128 {
        self.0
    }
}

impl AccountId {
    /// The account ID with the given number.
    pub closed spec fn from_spec(id: u128) -> AccountId {
        AccountId(id)
    }

    /// Create an account ID from a raw number.
    pub fn new(id: u128) -> (r: Self)
        ensures
            r@ == id,
    {
        Self(id)
    }

    /// Get the raw u128 number.
    pub fn as_u128(self) -> (r: u128)
        ensures
            r == self@,
    {
        self.0
    }

    /// Parse an account ID from its decimal representation.
    pub fn parse(s: &str) -> (r: Result<Self, LedgerError>)
        ensures
            spec_parse_u128(s@) is Some ==> r == Ok::<AccountId, LedgerError>(AccountId::from_spec(spec_parse_u128(s@)->0)),
            spec_parse_u128(s@) is None ==> (r matches Err(LedgerError::InvalidIdentifier(t)) && t@ == s@),
    {
        match parse_u128(s) {
            Some(v) => Ok(Self(v)),
            None => Err(LedgerError::InvalidIdentifier(s.to_owned())),
        }
    }
}

impl TransferId {
    /// The transfer ID with the given number.
    pub closed spec fn from_spec(id: u128) -> TransferId {
        TransferId(id)
    }

    /// Create a transfer ID from a raw number.
    pub fn new(id: u128) -> (r: Self)
        ensures
            r@ == id,
    {
        Self(id)
    }

    /// Get the raw u128 number.
    pub fn as_u128(self) -> (r: u128)
        ensures
            r == self@,
    {
        self.0
    }

    /// Parse a transfer ID from its decimal representation.
    pub fn parse(s: &str) -> (r: Result<Self, LedgerError>)
        ensures
            spec_parse_u128(s@) is Some ==> r == Ok::<TransferId, LedgerError>(TransferId::from_spec(spec_parse_u128(s@)->0)),
            spec_parse_u128(s@) is None ==> (r matches Err(LedgerError::InvalidIdentifier(t)) && t@ == s@),
    {
        match parse_u128(s) {
            Some(v) => Ok(Self(v)),
            None => Err(LedgerError::InvalidIdentifier(s.to_owned())),
        }
    }
}

/// An account ID is determined by its number.
pub broadcast proof fn lemma_account_id_from_spec(v: u128)
    ensures
        #[trigger] AccountId::from_spec(v)@ == v,
{
}

/// An account ID is determined by its number.
pub broadcast proof fn lemma_account_id_view(a: AccountId)
    ensures
        #[trigger] AccountId::from_spec(a@) == a,
{
}

/// A transfer ID is determined by its number.
pub broadcast proof fn lemma_transfer_id_from_spec(v: u128)
    ensures
        #[trigger] TransferId::from_spec(v)@ == v,
{
}

/// A transfer ID is determined by its number.
pub broadcast proof fn lemma_transfer_id_view(a: TransferId)
    ensures
        #[trigger] TransferId::from_spec(a@) == a,
{
}

/// The facts that relate identifiers to their raw numbers.
pub broadcast group group_id {
    lemma_account_id_from_spec,
    lemma_account_id_view,
    lemma_transfer_id_from_spec,
    lemma_transfer_id_view,
}

impl core::str::FromStr for AccountId {
    type Err = LedgerError;

    fn from_str(s: &str) -> (r: Result<Self, Self::Err>)
        ensures
            spec_parse_u128(s@) is Some ==> r == Ok::<AccountId, LedgerError>(AccountId::from_spec(spec_parse_u128(s@)->0)),
            spec_parse_u128(s@) is None ==> (r matches Err(LedgerError::InvalidIdentifier(t)) && t@ == s@),
    {
        Self::parse(s)
    }
}

impl core::str::FromStr for TransferId {
    type Err = LedgerError;

    fn from_str(s: &str) -> (r: Result<Self, Self::Err>)
        ensures
            spec_parse_u128(s@) is Some ==> r == Ok::<TransferId, LedgerError>(TransferId::from_spec(spec_parse_u128(s@)->0)),
            spec_parse_u128(s@) is None ==> (r matches Err(LedgerError::InvalidIdentifier(t)) && t@ == s@),
    {
        Self::parse(s)
    }
}

} // verus!
