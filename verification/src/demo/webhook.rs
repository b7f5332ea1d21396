//! Webhook authentication with HMAC-SHA256 signatures, replay protection and
//! deduplication.

use hmac::{Hmac, Mac};
use sha2::Sha256;

use vstd::prelude::*;
use vstd::string::StringSliceAdditionalSpecFns;

use crate::demo::error::WebhookError;
use crate::merkle::hash::{hex_of, hex_digit, nibble_of, push_hex_digit, lemma_hex_of_index};

verus! {

/// Payload of an incoming payment webhook from a card processor or PSP.
#[derive(Clone, Debug, PartialEq, Eq)]
pub struct WebhookPayload {
    /// Unique event identifier assigned by the payment service provider.
    pub event_id: String,
    /// Type of event: `charge.authorized`, `charge.captured`, or `charge.refunded`.
    pub event_type: String,
    /// Associated payment identifier.
    pub payment_id: u128,
    /// Merchant receiving payment.
    pub merchant_id: u128,
    /// Customer making payment.
    pub customer_id: u128,
    /// Gross payment amount in units.
    pub amount: u128,
    /// Platform fee in units.
    pub fee_amount: u128,
    /// Unix timestamp of the event in seconds.
    pub timestamp: u64,
}

/// The HMAC-SHA256 tag of `message` under `key`.
pub uninterp spec fn spec_hmac_sha256(key: Seq<u8>, message: Seq<u8>) -> Seq<u8>;

/// HMAC-SHA256 of `message` under `key`.
///
/// Calls `hmac::Hmac::<Sha256>::new_from_slice`, `update` and `finalize`.
/// The tag is named by [`spec_hmac_sha256`]: it depends on the key and the
/// message alone. `new_from_slice` accepts keys of every length for HMAC,
/// as its source shows, so the `expect` never fires.
#[verifier::external_body]
fn hmac_sha256(key: &[u8], message: &[u8]) -> (r: [u8; 32])
    ensures
        r@ == spec_hmac_sha256(key@, message@),
{
    let mut mac = <Hmac<Sha256> as Mac>::new_from_slice(key).expect("HMAC can take key of any size");
    mac.update(message);
    mac.finalize().into_bytes().into()
}

/// Constant-time check of `tag` against the HMAC-SHA256 of `message` under
/// `key`.
///
/// Calls `hmac::Mac::verify_slice`, which accepts exactly when `tag` has the
/// tag's length and equals it byte for byte.
#[verifier::external_body]
fn hmac_sha256_matches(key: &[u8], message: &[u8], tag: &[u8]) -> (r: bool)
    ensures
        r == (tag@ == spec_hmac_sha256(key@, message@)),
{
    let mut mac = <Hmac<Sha256> as Mac>::new_from_slice(key).expect("HMAC can take key of any size");
    mac.update(message);
    mac.verify_slice(tag).is_ok()
}

/// The bytes that hex text decodes to: `None` when its length is odd or one
/// of its bytes is not a hex digit (either case).
pub open spec fn spec_decode_hex(text: Seq<u8>) -> Option<Seq<u8>> {
    if text.len() % 2 != 0 {
        None
    } else if exists|i: int| 0 <= i < text.len() && #[trigger] nibble_of(text[i]) is None {
        None
    } else {
        Some(
            Seq::new(
                text.len() / 2,
                |i: int| (nibble_of(text[2 * i])->0 * 16 + nibble_of(text[2 * i + 1])->0) as u8,
            ),
        )
    }
}

/// Decode hex text into bytes.
fn decode_hex(s: &str) -> (r: Option<Vec<u8>>)
    ensures
        match spec_decode_hex(s.spec_bytes()) {
            Some(b) => r is Some && r->0@ == b,
            None => r is None,
        },
{
    let chars = s.as_bytes();
    if chars.len() % 2 != 0 {
        return None;
    }
    let ghost text = chars@;
    let mut bytes: Vec<u8> = Vec::new();
    let mut i: usize = 0;
    while i < chars.len()
        invariant
            chars@ == text,
            text == s.spec_bytes(),
            text.len() % 2 == 0,
            i % 2 == 0,
            i <= text.len(),
            bytes@.len() == i / 2,
            forall|j: int| 0 <= j < i ==> (#[trigger] nibble_of(text[j])) is Some,
            forall|j: int|
                0 <= j < i / 2 ==> #[trigger] bytes@[j] == (nibble_of(text[2 * j])->0 * 16 + nibble_of(
                    text[2 * j + 1],
                )->0) as u8,
        decreases text.len() - i,
    {
        let hi = match decode_nibble(chars[i]) {
            Some(v) => v,
            None => return None,
        };
        let lo = match decode_nibble(chars[i + 1]) {
            Some(v) => v,
            None => return None,
        };
        bytes.push(hi * 16 + lo);
        i += 2;
    }
    proof {
        let expected = Seq::new(
            text.len() / 2,
            |j: int| (nibble_of(text[2 * j])->0 * 16 + nibble_of(text[2 * j + 1])->0) as u8,
        );
        assert(bytes@ =~= expected);
    }
    Some(bytes)
}

/// Decode a single ASCII hex digit.
fn decode_nibble(b: u8) -> (r: Option<u8>)
    ensures
        r == nibble_of(b),
        r is Some ==> r->0 < 16,
{
    if 48 <= b && b <= 57 {
        Some(b - 48)
    } else if 97 <= b && b <= 102 {
        Some(b - 87)
    } else if 65 <= b && b <= 70 {
        Some(b - 55)
    } else {
        None
    }
}

/// Lowercase hex text of bytes.
fn hex_string(bytes: &[u8]) -> (r: String)
    ensures
        r@ == hex_of(bytes@),
{
    let mut out = String::new();
    let mut i: usize = 0;
    while i < bytes.len()
        invariant
            i <= bytes@.len(),
            out@ == hex_of(bytes@.take(i as int)),
        decreases bytes@.len() - i,
    {
        let byte = bytes[i];
        push_hex_digit(&mut out, byte / 16);
        push_hex_digit(&mut out, byte % 16);
        proof {
            assert(bytes@.take(i as int + 1).drop_last() =~= bytes@.take(i as int));
        }
        i += 1;
    }
    proof {
        assert(bytes@.take(bytes@.len() as int) =~= bytes@);
    }
    out
}

/// The result of checking a signature given as hex text.
pub open spec fn spec_verify_signature(secret: Seq<u8>, payload: Seq<u8>, signature_hex: Seq<u8>) -> Result<(), WebhookError> {
    if spec_decode_hex(signature_hex) == Some(spec_hmac_sha256(secret, payload)) {
        Ok(())
    } else {
        Err(WebhookError::InvalidSignature)
    }
}

/// The result of checking an event's age against the replay window.
pub open spec fn spec_verify_freshness(event_time: u64, current_time: u64, max_allowed_seconds: u64) -> Result<(), WebhookError> {
    if current_time > event_time && current_time - event_time > max_allowed_seconds {
        Err(WebhookError::ExpiredTimestamp { age_seconds: (current_time - event_time) as u64, max_allowed: max_allowed_seconds })
    } else {
        Ok(())
    }
}

/// Verifies HMAC-SHA256 signatures on incoming webhook payloads.
pub struct WebhookVerifier;

impl WebhookVerifier {
    /// Compute the expected HMAC-SHA256 signature of a raw payload, as
    /// lowercase hex text.
    pub fn compute_signature(secret: &[u8], payload: &[u8]) -> (r: Result<String, WebhookError>)
        ensures
            r is Ok,
            r->Ok_0@ == hex_of(spec_hmac_sha256(secret@, payload@)),
            r->Ok_0@.len() == 64,
    {
        let tag = hmac_sha256(secret, payload);
        proof {
            lemma_hex_of_index(tag@);
        }
        Ok(hex_string(&tag))
    }

    /// Verify that `signature_hex` is the HMAC-SHA256 of `payload`, with a
    /// constant-time comparison.
    ///
    /// Fails with `InvalidSignature` when the signature is not hex text of
    /// the right tag.
    pub fn verify_signature(secret: &[u8], payload: &[u8], signature_hex: &str) -> (r: Result<(), WebhookError>)
        ensures
            r == spec_verify_signature(secret@, payload@, signature_hex.spec_bytes()),
    {
        let signature_bytes = match decode_hex(signature_hex) {
            Some(b) => b,
            None => return Err(WebhookError::InvalidSignature),
        };
        if hmac_sha256_matches(secret, payload, signature_bytes.as_slice()) {
            Ok(())
        } else {
            Err(WebhookError::InvalidSignature)
        }
    }

    /// Verify that the webhook timestamp is within `max_allowed_seconds` of `current_time`.
    ///
    /// Fails with `ExpiredTimestamp` when the event is older than the
    /// tolerance; events from the future are accepted.
    pub fn verify_freshness(event_time: u64, current_time: u64, max_allowed_seconds: u64) -> (r: Result<(), WebhookError>)
        ensures
            r == spec_verify_freshness(event_time, current_time, max_allowed_seconds),
    {
        if current_time > event_time {
            let age = current_time - event_time;
            if age > max_allowed_seconds {
                return Err(WebhookError::ExpiredTimestamp { age_seconds: age, max_allowed: max_allowed_seconds });
            }
        }
        Ok(())
    }
}

/// Tracks the `event_id`s of ingested webhooks.
#[derive(Debug)]
pub struct WebhookDeduplicator {
    seen_events: Vec<String>,
}

impl View for WebhookDeduplicator {
    type V = Set<Seq<char>>;

    /// The identifiers recorded so far.
    closed spec fn view(&self) -> Set<Seq<char>> {
        Set::new(|k: Seq<char>| exists|i: int| 0 <= i < self.seen_events@.len() && #[trigger] self.seen_events@[i]@ == k)
    }
}

impl Default for WebhookDeduplicator {
    fn default() -> (r: Self)
        ensures
            r@ == Set::<Seq<char>>::empty(),
    {
        Self::new()
    }
}

impl WebhookDeduplicator {
    /// Create a new deduplicator.
    pub fn new() -> (r: Self)
        ensures
            r@ == Set::<Seq<char>>::empty(),
    {
        let r = WebhookDeduplicator { seen_events: Vec::new() };
        assert(r@ =~= Set::<Seq<char>>::empty());
        r
    }

    /// Check and record an `event_id`.
    ///
    /// Fails with `DuplicateEventId`, recording nothing, when this
    /// `event_id` was recorded before.
    pub fn check_and_record(&mut self, event_id: &str) -> (r: Result<(), WebhookError>)
        ensures
            old(self)@.contains(event_id@) ==> final(self)@ == old(self)@ && r is Err && (r->Err_0 matches WebhookError::DuplicateEventId(id) && id@ == event_id@),
            !old(self)@.contains(event_id@) ==> final(self)@ == old(self)@.insert(event_id@) && r is Ok,
    {
        let wanted = event_id.to_owned();
        let mut i: usize = 0;
        while i < self.seen_events.len()
            invariant
                i <= self.seen_events@.len(),
                wanted@ == event_id@,
                forall|j: int| 0 <= j < i ==> #[trigger] self.seen_events@[j]@ != event_id@,
            decreases self.seen_events@.len() - i,
        {
            if self.seen_events[i] == wanted {
                return Err(WebhookError::DuplicateEventId(wanted));
            }
            i += 1;
        }
        let ghost before = *self;
        self.seen_events.push(wanted);
        proof {
            assert forall|k: Seq<char>| #![auto] self@.contains(k) == before@.insert(event_id@).contains(k) by {
                if self@.contains(k) && k != event_id@ {
                    let j = choose|j: int| 0 <= j < self.seen_events@.len() && #[trigger] self.seen_events@[j]@ == k;
                    assert(before.seen_events@[j] == self.seen_events@[j]);
                }
                if before@.contains(k) {
                    let j = choose|j: int| 0 <= j < before.seen_events@.len() && #[trigger] before.seen_events@[j]@ == k;
                    assert(self.seen_events@[j] == before.seen_events@[j]);
                }
                if k == event_id@ {
                    assert(self.seen_events@[before.seen_events@.len() as int]@ == k);
                }
            }
            assert(self@ =~= before@.insert(event_id@));
        }
        Ok(())
    }
}

/// Decoding the hex text of bytes gives the bytes back.
pub proof fn lemma_decode_hex_of(bytes: Seq<u8>, text: &str)
    requires
        text@ == hex_of(bytes),
    ensures
        spec_decode_hex(text.spec_bytes()) == Some(bytes),
{
    broadcast use vstd::string::is_ascii_spec_bytes;

    lemma_hex_of_index(bytes);
    assert forall|i: int| 0 <= i < text@.len() implies '\0' <= #[trigger] text@[i] <= '\u{7f}' by {
        let j = i / 2;
        if i % 2 == 0 {
            assert(i == 2 * j);
            assert(text@[i] == hex_digit(bytes[j] / 16));
        } else {
            assert(i == 2 * j + 1);
            assert(text@[i] == hex_digit(bytes[j] % 16));
        }
    }
    assert(vstd::string::is_ascii(text));
    let b = text.spec_bytes();
    assert(b.len() == 2 * bytes.len());
    assert forall|i: int| 0 <= i < bytes.len() implies nibble_of(b[2 * i]) == Some((#[trigger] bytes[i]) / 16)
        && nibble_of(b[2 * i + 1]) == Some(bytes[i] % 16) by {
        assert(b[2 * i] == text@[2 * i] as u8);
        assert(b[2 * i + 1] == text@[2 * i + 1] as u8);
    }
    assert(!(exists|i: int| 0 <= i < b.len() && #[trigger] nibble_of(b[i]) is None)) by {
        if exists|i: int| 0 <= i < b.len() && #[trigger] nibble_of(b[i]) is None {
            let i = choose|i: int| 0 <= i < b.len() && #[trigger] nibble_of(b[i]) is None;
            let j = i / 2;
            assert(nibble_of(b[2 * j]) == Some(bytes[j] / 16));
            assert(nibble_of(b[2 * j + 1]) == Some(bytes[j] % 16));
            if i % 2 == 0 {
                assert(i == 2 * j);
            } else {
                assert(i == 2 * j + 1);
            }
        }
    }
    let decoded = Seq::new(b.len() / 2, |i: int| (nibble_of(b[2 * i])->0 * 16 + nibble_of(b[2 * i + 1])->0) as u8);
    assert(decoded =~= bytes) by {
        assert forall|i: int| 0 <= i < bytes.len() implies #[trigger] decoded[i] == bytes[i] by {
            assert(nibble_of(b[2 * i]) == Some(bytes[i] / 16));
            assert(nibble_of(b[2 * i + 1]) == Some(bytes[i] % 16));
        }
    }
}

/// An event recorded once is a duplicate from then on.
pub proof fn law_recorded_event_is_duplicate(seen: Set<Seq<char>>, event_id: Seq<char>)
    ensures
        seen.insert(event_id).contains(event_id),
        seen.insert(event_id).insert(event_id) == seen.insert(event_id),
{
    assert(seen.insert(event_id).insert(event_id) =~= seen.insert(event_id));
}

/// A signature computed for a payload is accepted for that payload under the
/// same secret.
pub proof fn law_signature_roundtrip(secret: Seq<u8>, payload: Seq<u8>, signature: &str)
    requires
        signature@ == hex_of(spec_hmac_sha256(secret, payload)),
    ensures
        spec_verify_signature(secret, payload, signature.spec_bytes()) is Ok,
{
    lemma_decode_hex_of(spec_hmac_sha256(secret, payload), signature);
}

} // verus!
