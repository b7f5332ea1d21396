//! Amounts as they travel on the wire: 128-bit units split into two 64-bit
//! halves, with the scale they are expressed in.

use vstd::prelude::*;

use crate::ingest::error::IngestError;
use crate::ledger_core::amount::{Amount, Scale, group_amount};
use crate::ledger_core::error::LedgerError;

verus! {

broadcast use group_amount;

/// An amount as the wire carries it.
#[derive(Clone, Copy, Debug, PartialEq, Eq, Structural)]
pub struct WireAmount {
    /// The low 64 bits of the units.
    pub units: u64,
    /// The scale the units are expressed in; zero means the service's own.
    pub scale: u32,
    /// The high 64 bits of the units.
    pub units_high: u64,
}

/// The units a wire amount carries.
pub open spec fn wire_units(w: WireAmount) -> int {
    w.units_high * 0x1_0000_0000_0000_0000 + w.units
}

/// Whether `e` reports invalid input with the given reason.
pub open spec fn is_invalid_input(e: IngestError, reason: Seq<char>) -> bool {
    e matches IngestError::InvalidInput(s) && s@ == reason
}

/// Put an amount on the wire, expressed in `scale`.
pub fn amount_to_wire(amount: Amount, scale: u32) -> (r: WireAmount)
    ensures
        r.scale == scale,
        wire_units(r) == amount@,
{
    let val = amount.as_u128();
    let units: u64 = (val & 0xFFFF_FFFF_FFFF_FFFF) as u64;
    let units_high: u64 = (val >> 64u128) as u64;
    assert(units_high * 0x1_0000_0000_0000_0000 + units == val) by (bit_vector)
        requires
            units == (val & 0xFFFF_FFFF_FFFF_FFFF) as u64,
            units_high == (val >> 64u128) as u64,
    ;
    WireAmount { units, scale, units_high }
}

/// Read an amount from the wire for a service whose scale is `expected`.
///
/// Fails with `InvalidInput` when the amount is missing or its scale does
/// not fit in a byte, and with the ledger's `InvalidScale` or
/// `ScaleMismatch` when a non-zero scale is not the service's.
pub fn parse_amount(expected: Scale, wire: Option<WireAmount>) -> (r: Result<Amount, IngestError>)
    ensures
        wire is None ==> r is Err && is_invalid_input(r->Err_0, "amount is required"@),
        wire matches Some(w) ==> {
            if w.scale != 0 && w.scale > 255 {
                r is Err && is_invalid_input(r->Err_0, "amount scale exceeds u8 limit"@)
            } else if w.scale != 0 && w.scale > 18 {
                r == Err::<Amount, IngestError>(IngestError::Ledger(LedgerError::InvalidScale(w.scale as u8)))
            } else if w.scale != 0 && w.scale != expected@ {
                r == Err::<Amount, IngestError>(
                    IngestError::Ledger(LedgerError::ScaleMismatch { expected, actual: Scale::from_spec(w.scale as u8) }),
                )
            } else {
                r == Ok::<Amount, IngestError>(Amount::from_spec(wire_units(w) as u128))
            }
        },
{
    let w = match wire {
        Some(w) => w,
        None => return Err(IngestError::InvalidInput("amount is required".to_owned())),
    };
    if w.scale != 0 {
        if w.scale > 255 {
            return Err(IngestError::InvalidInput("amount scale exceeds u8 limit".to_owned()));
        }
        let scale = match Scale::new(w.scale as u8) {
            Ok(s) => s,
            Err(e) => return Err(IngestError::Ledger(e)),
        };
        if scale.as_u8() != expected.as_u8() {
            return Err(IngestError::Ledger(LedgerError::ScaleMismatch { expected, actual: scale }));
        }
    }
    let high = w.units_high as u128;
    let low = w.units as u128;
    let units: u128 = (high << 64u128) | low;
    assert(units == high * 0x1_0000_0000_0000_0000 + low) by (bit_vector)
        requires
            units == (high << 64u128) | low,
            high < 0x1_0000_0000_0000_0000,
            low < 0x1_0000_0000_0000_0000,
    ;
    Ok(Amount::new(units))
}

} // verus!
