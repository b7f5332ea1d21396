//! Checks of journal event batches as they are persisted.
//!
//! Batches are encoded and decoded with postcard by the application around
//! the library; the library decides what a decoded batch must satisfy.

use vstd::prelude::*;

use crate::ledger_core::message::push_str;
use crate::ledger_core::text::{push_decimal, spec_decimal};

verus! {

/// Errors encoding or decoding a journal event batch.
#[derive(Debug, Clone, PartialEq, Eq)]
pub enum CodecError {
    /// Serialization of a batch failed.
    Encode(String),
    /// Deserialization of a persisted batch failed.
    Decode(String),
}

/// The message describing a codec error.
pub open spec fn codec_error_message(e: CodecError) -> Seq<char> {
    match e {
        CodecError::Encode(s) => "journal event batch failed to encode: "@ + s@,
        CodecError::Decode(s) => "journal event bytes failed to decode: "@ + s@,
    }
}

/// The reason given when bytes are left over after a batch.
pub open spec fn trailing_bytes_reason(count: usize) -> Seq<char> {
    "unexpected trailing leftover bytes ("@ + spec_decimal(count as nat) + " bytes)"@
}

impl CodecError {
    /// The message describing this error.
    pub fn to_string(&self) -> (r: String)
        ensures
            r@ == codec_error_message(*self),
    {
        let mut out = String::new();
        match self {
            CodecError::Encode(s) => {
                push_str(&mut out, "journal event batch failed to encode: ");
                push_str(&mut out, s.as_str());
            },
            CodecError::Decode(s) => {
                push_str(&mut out, "journal event bytes failed to decode: ");
                push_str(&mut out, s.as_str());
            },
        }
        out
    }
}

/// Accept a decoded batch only when it consumed every byte: a torn batch
/// never silently becomes a shorter (wrong) history.
///
/// Fails with `Decode` naming the count of leftover bytes otherwise.
pub fn ensure_fully_consumed(remainder_len: usize) -> (r: Result<(), CodecError>)
    ensures
        remainder_len == 0 ==> r is Ok,
        remainder_len != 0 ==> r is Err && (r->Err_0 matches CodecError::Decode(s) && s@ == trailing_bytes_reason(remainder_len)),
{
    if remainder_len == 0 {
        return Ok(());
    }
    let mut reason = String::new();
    push_str(&mut reason, "unexpected trailing leftover bytes (");
    push_decimal(&mut reason, remainder_len as u128);
    push_str(&mut reason, " bytes)");
    Err(CodecError::Decode(reason))
}

} // verus!
