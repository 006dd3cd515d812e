//! Notifications from the API: is this one authentic, and is it fresh?
//!
//! A notification is signed with HMAC-SHA256 under a secret that the API
//! and its client share. The signature is the code in lower-case
//! hexadecimal digits, with `sha256=` before it or without.

use crate::error::{ErrorModel, TapsilatError};
use crate::mac::{hmac_sha256, hmac_sha256_of};
use crate::text::{chars_of, decimal, decimal_of, slice_of, starts_with, string_of};
use crate::time::{epoch_of, iso_of, parse_iso8601, parse_timestamp, TimestampFault};
use crate::types::webhook::{WebhookEvent, WebhookVerificationConfig, WebhookVerificationResult};
use vstd::prelude::*;
use vstd::string::StringExecFns;
use vstd::utf8::encode_utf8;

verus! {

/// What a signature may start with.
pub const SIGNATURE_PREFIX: &'static str = "sha256=";

/// The namespace of the operations on notifications.
pub struct WebhookModule;

/// The lower-case hexadecimal digit for a number below sixteen.
pub open spec fn hex_digit(n: int) -> char {
    if n < 10 {
        (n + '0' as int) as char
    } else {
        (n - 10 + 'a' as int) as char
    }
}

/// Whether `c` is a lower-case hexadecimal digit.
pub open spec fn is_hex_digit(c: char) -> bool {
    ('0' <= c && c <= '9') || ('a' <= c && c <= 'f')
}

/// The bytes in lower-case hexadecimal digits, two for each byte.
pub open spec fn hex_of(bytes: Seq<u8>) -> Seq<char>
    decreases bytes.len(),
{
    if bytes.len() == 0 {
        Seq::empty()
    } else {
        hex_of(bytes.drop_last()).push(hex_digit(bytes.last() as int / 16)).push(
            hex_digit(bytes.last() as int % 16),
        )
    }
}

/// The signature without `sha256=` at its start.
pub open spec fn bare_signature(signature: Seq<char>) -> Seq<char> {
    if seq!['s', 'h', 'a', '2', '5', '6', '='].is_prefix_of(signature) {
        signature.skip(7)
    } else {
        signature
    }
}

/// The signature that a payload has under a secret: the HMAC-SHA256 code
/// of its bytes under the bytes of the secret, in hexadecimal digits.
pub open spec fn expected_signature(payload: Seq<char>, secret: Seq<char>) -> Seq<char> {
    hex_of(hmac_sha256_of(encode_utf8(secret), encode_utf8(payload)))
}

/// How far two moments lie apart.
pub open spec fn distance(a: u64, b: u64) -> nat {
    if a > b {
        (a - b) as nat
    } else {
        (b - a) as nat
    }
}

/// What the clock gave: the seconds since 1970, or the reason why it gave
/// none.
pub open spec fn clock_reading(now: Result<u64, String>) -> Result<u64, Seq<char>> {
    match now {
        Ok(seconds) => Ok(seconds),
        Err(reason) => Err(reason@),
    }
}

/// What is wrong with the time stamp of a notification that is looked at
/// at the moment `now`, if anything: it cannot be read, the clock gave no
/// time, or it lies further from `now` than `tolerance` seconds.
pub open spec fn timestamp_fault(
    timestamp: Seq<char>,
    tolerance: u64,
    now: Result<u64, Seq<char>>,
) -> Option<Seq<char>> {
    match epoch_of(timestamp) {
        Err(fault) => Some("Invalid timestamp format: "@ + fault.text()),
        Ok(at) => match now {
            Err(reason) => Some("System time error: "@ + reason),
            Ok(seconds) => if distance(seconds, at) > tolerance {
                Some(
                    "Webhook timestamp too old or too far in future. Difference: "@ + decimal_of(
                        distance(seconds, at),
                    ) + "s, tolerance: "@ + decimal_of(tolerance as nat) + "s"@,
                )
            } else {
                None
            },
        },
    }
}

/// Why a notification is not accepted, if it is not. `parsed` is the time
/// stamp found in the payload, or the reason why the payload could not be
/// read; `now` is what the clock gave. The payload is looked at first,
/// then the time stamp if a tolerance is set, then the signature.
pub open spec fn verification_fault(
    payload: Seq<char>,
    signature: Seq<char>,
    secret: Seq<char>,
    tolerance: Option<u64>,
    parsed: Result<Seq<char>, Seq<char>>,
    now: Result<u64, Seq<char>>,
) -> Option<Seq<char>> {
    match parsed {
        Err(detail) => Some("Invalid webhook payload: "@ + detail),
        Ok(timestamp) => if tolerance is Some && timestamp_fault(timestamp, tolerance->0, now)
            is Some {
            Some(
                "Timestamp validation failed: Invalid response: "@ + timestamp_fault(
                    timestamp,
                    tolerance->0,
                    now,
                )->0,
            )
        } else if bare_signature(signature) != expected_signature(payload, secret) {
            Some("Invalid signature"@)
        } else {
            None
        },
    }
}

impl WebhookVerificationResult {
    /// Whether the result reports the given fault, or none.
    pub open spec fn reports(&self, fault: Option<Seq<char>>) -> bool {
        match fault {
            None => self.is_valid && self.error is None,
            Some(m) => !self.is_valid && (self.error matches Some(e) && e@ == m),
        }
    }
}

/// The digits of `hex_of` are hexadecimal digits, two for each byte.
pub proof fn lemma_hex_of(bytes: Seq<u8>)
    ensures
        hex_of(bytes).len() == 2 * bytes.len(),
        forall|i: int| 0 <= i < hex_of(bytes).len() ==> is_hex_digit(#[trigger] hex_of(bytes)[i]),
    decreases bytes.len(),
{
    if bytes.len() > 0 {
        lemma_hex_of(bytes.drop_last());
    }
}

/// A signature made of hexadecimal digits is bare: it does not start with
/// `sha256=`.
pub proof fn lemma_hex_is_bare(bytes: Seq<u8>)
    ensures
        bare_signature(hex_of(bytes)) == hex_of(bytes),
{
    lemma_hex_of(bytes);
    let prefix = seq!['s', 'h', 'a', '2', '5', '6', '='];
    if prefix.is_prefix_of(hex_of(bytes)) {
        assert(hex_of(bytes)[0] == prefix[0]);
        assert(is_hex_digit(hex_of(bytes)[0]));
    }
}

/// A notification that can be read, whose time stamp is in order and that
/// comes with the signature of its payload under the secret, with
/// `sha256=` before it or without, is accepted.
pub proof fn lemma_signed_payload_accepted(
    payload: Seq<char>,
    secret: Seq<char>,
    tolerance: Option<u64>,
    timestamp: Seq<char>,
    now: Result<u64, Seq<char>>,
    prefixed: bool,
)
    requires
        tolerance matches Some(t) ==> timestamp_fault(timestamp, t, now) is None,
    ensures
        verification_fault(
            payload,
            if prefixed {
                seq!['s', 'h', 'a', '2', '5', '6', '='] + expected_signature(payload, secret)
            } else {
                expected_signature(payload, secret)
            },
            secret,
            tolerance,
            Ok(timestamp),
            now,
        ) is None,
{
    let code = hmac_sha256_of(encode_utf8(secret), encode_utf8(payload));
    let prefix = seq!['s', 'h', 'a', '2', '5', '6', '='];
    lemma_hex_is_bare(code);
    if prefixed {
        let signature = prefix + hex_of(code);
        assert(prefix.is_prefix_of(signature)) by {
            assert(signature.subrange(0, 7) =~= prefix);
        }
        assert(signature.skip(7) =~= hex_of(code));
    }
}

/// The hexadecimal digits tell the bytes: bytes that are written alike
/// are alike.
pub proof fn lemma_hex_tells_bytes(a: Seq<u8>, b: Seq<u8>)
    requires
        hex_of(a) == hex_of(b),
    ensures
        a == b,
    decreases a.len(),
{
    lemma_hex_of(a);
    lemma_hex_of(b);
    if a.len() == 0 {
        assert(a =~= b);
    } else {
        let x = a.last() as int;
        let y = b.last() as int;
        let short_a = hex_of(a.drop_last());
        let short_b = hex_of(b.drop_last());
        let n = hex_of(a).len() as int;
        assert(hex_of(a) == short_a.push(hex_digit(x / 16)).push(hex_digit(x % 16)));
        assert(hex_of(b) == short_b.push(hex_digit(y / 16)).push(hex_digit(y % 16)));
        assert(hex_of(a)[n - 1] == hex_digit(x % 16) && hex_of(a)[n - 2] == hex_digit(x / 16));
        assert(hex_of(b)[n - 1] == hex_digit(y % 16) && hex_of(b)[n - 2] == hex_digit(y / 16));
        assert(x % 16 == y % 16 && x / 16 == y / 16);
        assert(short_a =~= hex_of(a).take(n - 2));
        assert(short_b =~= hex_of(b).take(n - 2));
        lemma_hex_tells_bytes(a.drop_last(), b.drop_last());
        assert(a =~= a.drop_last().push(a.last()));
        assert(b =~= b.drop_last().push(b.last()));
    }
}

/// A notification whose payload was changed after it was signed is not
/// accepted, where the changed payload has another code under the secret
/// than the payload that was signed. That it has is nothing that is known
/// of every two payloads.
pub proof fn lemma_altered_payload_rejected(
    payload: Seq<char>,
    altered: Seq<char>,
    secret: Seq<char>,
    tolerance: Option<u64>,
    parsed: Result<Seq<char>, Seq<char>>,
    now: Result<u64, Seq<char>>,
    prefixed: bool,
)
    requires
        hmac_sha256_of(encode_utf8(secret), encode_utf8(altered)) != hmac_sha256_of(
            encode_utf8(secret),
            encode_utf8(payload),
        ),
    ensures
        verification_fault(
            altered,
            if prefixed {
                seq!['s', 'h', 'a', '2', '5', '6', '='] + expected_signature(payload, secret)
            } else {
                expected_signature(payload, secret)
            },
            secret,
            tolerance,
            parsed,
            now,
        ) is Some,
{
    let code = hmac_sha256_of(encode_utf8(secret), encode_utf8(payload));
    let other = hmac_sha256_of(encode_utf8(secret), encode_utf8(altered));
    let prefix = seq!['s', 'h', 'a', '2', '5', '6', '='];
    lemma_hex_is_bare(code);
    if hex_of(code) == hex_of(other) {
        lemma_hex_tells_bytes(code, other);
    }
    if prefixed {
        let signature = prefix + hex_of(code);
        assert(prefix.is_prefix_of(signature)) by {
            assert(signature.subrange(0, 7) =~= prefix);
        }
        assert(signature.skip(7) =~= hex_of(code));
    }
}

/// A notification whose bare signature is not the signature of its
/// payload under the secret is not accepted.
pub proof fn lemma_wrong_signature_rejected(
    payload: Seq<char>,
    signature: Seq<char>,
    secret: Seq<char>,
    tolerance: Option<u64>,
    parsed: Result<Seq<char>, Seq<char>>,
    now: Result<u64, Seq<char>>,
)
    requires
        bare_signature(signature) != expected_signature(payload, secret),
    ensures
        verification_fault(payload, signature, secret, tolerance, parsed, now) is Some,
{
}

/// The hexadecimal digit for a number below sixteen.
fn hex_char(n: u8) -> (c: char)
    requires
        n < 16,
    ensures
        c == hex_digit(n as int),
{
    match n {
        0 => '0',
        1 => '1',
        2 => '2',
        3 => '3',
        4 => '4',
        5 => '5',
        6 => '6',
        7 => '7',
        8 => '8',
        9 => '9',
        10 => 'a',
        11 => 'b',
        12 => 'c',
        13 => 'd',
        14 => 'e',
        _ => 'f',
    }
}

/// Writes bytes in lower-case hexadecimal digits.
pub fn to_hex(bytes: &Vec<u8>) -> (digits: Vec<char>)
    ensures
        digits@ == hex_of(bytes@),
{
    let mut digits: Vec<char> = Vec::new();
    let mut i: usize = 0;
    while i < bytes.len()
        invariant
            i <= bytes.len(),
            digits@ == hex_of(bytes@.take(i as int)),
        decreases bytes.len() - i,
    {
        assert(bytes@.take(i + 1).drop_last() =~= bytes@.take(i as int));
        assert(bytes@.take(i + 1).last() == bytes@[i as int]);
        digits.push(hex_char(bytes[i] / 16));
        digits.push(hex_char(bytes[i] % 16));
        i += 1;
    }
    assert(bytes@.take(bytes@.len() as int) =~= bytes@);
    digits
}

/// Tells whether `a` and `b` hold the same characters. Where they are of
/// one length, every pair of characters is looked at, equal or not, so
/// that the time taken does not tell where they differ.
pub fn same_in_fixed_time(a: &Vec<char>, b: &Vec<char>) -> (r: bool)
    ensures
        r == (a@ == b@),
{
    if a.len() != b.len() {
        return false;
    }
    let mut difference: u32 = 0;
    let mut i: usize = 0;
    assert(a@.take(0) =~= b@.take(0));
    while i < a.len()
        invariant
            i <= a.len(),
            a.len() == b.len(),
            difference == 0 <==> a@.take(i as int) == b@.take(i as int),
        decreases a.len() - i,
    {
        let x = a[i] as u32;
        let y = b[i] as u32;
        let ghost before = difference;
        difference = difference | (x ^ y);
        proof {
            assert((before | (x ^ y)) == 0 <==> before == 0 && x == y) by (bit_vector);
            vstd::utf8::char_u32_cast(a@[i as int], x);
            vstd::utf8::char_u32_cast(b@[i as int], y);
            assert(x == y <==> a@[i as int] == b@[i as int]);
            if a@.take(i + 1) == b@.take(i + 1) {
                assert(a@.take(i as int) =~= a@.take(i + 1).take(i as int));
                assert(b@.take(i as int) =~= b@.take(i + 1).take(i as int));
                assert(a@.take(i + 1)[i as int] == b@.take(i + 1)[i as int]);
            }
            if a@.take(i as int) == b@.take(i as int) && a@[i as int] == b@[i as int] {
                assert(a@.take(i + 1) =~= a@.take(i as int).push(a@[i as int]));
                assert(b@.take(i + 1) =~= b@.take(i as int).push(b@[i as int]));
            }
        }
        i += 1;
    }
    assert(a@.take(a@.len() as int) =~= a@);
    assert(b@.take(b@.len() as int) =~= b@);
    difference == 0
}

impl WebhookModule {
    /// What a notification is verified with.
    pub fn create_verification_config(secret: String, tolerance_seconds: Option<u64>) -> (config:
        WebhookVerificationConfig)
        ensures
            config.secret == secret,
            config.tolerance_seconds == tolerance_seconds,
    {
        WebhookVerificationConfig { secret, tolerance_seconds }
    }

    /// The signature of `payload` under `secret`.
    pub fn create_signature(payload: &str, secret: &str) -> (signature: String)
        ensures
            signature@ == expected_signature(payload@, secret@),
            signature@.len() == 64,
    {
        let code = hmac_sha256(secret.as_bytes(), payload.as_bytes());
        let digits = to_hex(&code);
        proof {
            lemma_hex_of(code@);
        }
        string_of(&digits)
    }

    /// Tells whether `signature`, without `sha256=` at its start, is the
    /// code `code` in hexadecimal digits.
    pub fn signature_matches(signature: &str, code: &Vec<u8>) -> (b: bool)
        ensures
            b == (bare_signature(signature@) == hex_of(code@)),
    {
        let given = chars_of(signature);
        let prefix = chars_of(SIGNATURE_PREFIX);
        proof {
            reveal_strlit("sha256=");
            assert(prefix@ =~= seq!['s', 'h', 'a', '2', '5', '6', '=']);
        }
        let bare = if starts_with(&given, &prefix) {
            let bare = slice_of(&given, 7, given.len());
            assert(bare@ =~= signature@.skip(7));
            bare
        } else {
            given
        };
        let expected = to_hex(code);
        same_in_fixed_time(&bare, &expected)
    }

    /// Tells whether `signature` is the signature of `payload` under
    /// `secret`, with `sha256=` before it or without.
    pub fn verify_signature(payload: &str, signature: &str, secret: &str) -> (b: bool)
        ensures
            b == (bare_signature(signature@) == expected_signature(payload@, secret@)),
    {
        let code = hmac_sha256(secret.as_bytes(), payload.as_bytes());
        Self::signature_matches(signature, &code)
    }

    /// Reads an ISO 8601 date and time as seconds since 1970.
    pub fn parse_iso8601_timestamp(timestamp: &str) -> (r: Result<u64, TapsilatError>)
        ensures
            match r {
                Ok(at) => iso_of(timestamp@) == Ok::<u64, TimestampFault>(at),
                Err(e) => iso_of(timestamp@) matches Err(fault) && e@
                    == ErrorModel::InvalidResponse("Invalid timestamp format: "@ + fault.text()),
            },
    {
        match parse_iso8601(timestamp) {
            Ok(at) => Ok(at),
            Err(fault) => Err(Self::timestamp_unreadable(fault)),
        }
    }

    /// The error for a time stamp that cannot be read.
    fn timestamp_unreadable(fault: TimestampFault) -> (e: TapsilatError)
        ensures
            e@ == ErrorModel::InvalidResponse("Invalid timestamp format: "@ + fault.text()),
    {
        TapsilatError::InvalidResponse(
            String::from_str("Invalid timestamp format: ").concat(fault.describe()),
        )
    }

    /// Checks the time stamp of a notification at the moment `now`: what
    /// the clock gave, in seconds since 1970, or the reason why it gave no
    /// time. The time stamp has to lie within `tolerance_seconds` of the
    /// moment, before or after; without a moment there is nothing to hold
    /// it against, and the check fails.
    pub fn verify_timestamp(timestamp: &str, tolerance_seconds: u64, now: &Result<u64, String>) -> (r:
        Result<(), TapsilatError>)
        ensures
            match timestamp_fault(timestamp@, tolerance_seconds, clock_reading(*now)) {
                None => r is Ok,
                Some(m) => r matches Err(e) && e@ == ErrorModel::InvalidResponse(m),
            },
    {
        let at = match parse_timestamp(timestamp) {
            Ok(at) => at,
            Err(fault) => {
                return Err(Self::timestamp_unreadable(fault));
            },
        };
        let seconds = match now {
            Ok(seconds) => *seconds,
            Err(reason) => {
                return Err(
                    TapsilatError::InvalidResponse(
                        String::from_str("System time error: ").concat(reason.as_str()),
                    ),
                );
            },
        };
        let difference = if seconds > at {
            seconds - at
        } else {
            at - seconds
        };
        if difference > tolerance_seconds {
            let message = String::from_str(
                "Webhook timestamp too old or too far in future. Difference: ",
            ).concat(decimal(difference as u128).as_str()).concat("s, tolerance: ").concat(
                decimal(tolerance_seconds as u128).as_str(),
            ).concat("s");
            return Err(TapsilatError::InvalidResponse(message));
        }
        Ok(())
    }

    /// The error for a payload that cannot be read as a notification.
    /// `detail` is the reader's report.
    pub fn parse_failure(detail: &str) -> (e: TapsilatError)
        ensures
            e@ == ErrorModel::InvalidResponse("Failed to parse webhook payload: "@ + detail@),
    {
        TapsilatError::InvalidResponse(
            String::from_str("Failed to parse webhook payload: ").concat(detail),
        )
    }

    /// Verifies a notification at the moment `now`: what the clock gave,
    /// in seconds since 1970, or the reason why it gave no time. `parsed`
    /// is the notification read from the payload, or the reason why it
    /// could not be read.
    ///
    /// A payload that cannot be read, a time stamp out of the tolerance
    /// and a signature that does not match are all reported in the result;
    /// the time stamp is looked at only where the configuration sets a
    /// tolerance.
    pub fn verify_webhook(
        payload: &str,
        signature: &str,
        config: &WebhookVerificationConfig,
        parsed: &Result<WebhookEvent, String>,
        now: &Result<u64, String>,
    ) -> (result: WebhookVerificationResult)
        ensures
            result.reports(
                verification_fault(
                    payload@,
                    signature@,
                    config.secret@,
                    config.tolerance_seconds,
                    match *parsed {
                        Ok(event) => Ok(event.timestamp@),
                        Err(detail) => Err(detail@),
                    },
                    clock_reading(*now),
                ),
            ),
    {
        let event = match parsed {
            Ok(event) => event,
            Err(detail) => {
                return WebhookVerificationResult {
                    is_valid: false,
                    error: Some(String::from_str("Invalid webhook payload: ").concat(detail.as_str())),
                };
            },
        };
        match config.tolerance_seconds {
            Some(tolerance) => {
                match Self::verify_timestamp(event.timestamp.as_str(), tolerance, now) {
                    Ok(()) => {},
                    Err(e) => {
                        let text = e.to_text();
                        proof {
                            let m = timestamp_fault(
                                event.timestamp@,
                                tolerance,
                                clock_reading(*now),
                            )->0;
                            assert("Timestamp validation failed: "@ + ("Invalid response: "@ + m)
                                =~= "Timestamp validation failed: Invalid response: "@ + m) by {
                                reveal_strlit("Timestamp validation failed: ");
                                reveal_strlit("Invalid response: ");
                                reveal_strlit("Timestamp validation failed: Invalid response: ");
                            }
                        }
                        return WebhookVerificationResult {
                            is_valid: false,
                            error: Some(
                                String::from_str("Timestamp validation failed: ").concat(
                                    text.as_str(),
                                ),
                            ),
                        };
                    },
                }
            },
            None => {},
        }
        if Self::verify_signature(payload, signature, config.secret.as_str()) {
            WebhookVerificationResult { is_valid: true, error: None }
        } else {
            WebhookVerificationResult {
                is_valid: false,
                error: Some(String::from_str("Invalid signature")),
            }
        }
    }
}

} // verus!
