//! Local checks on values that a caller hands in, made before anything is
//! sent.

use crate::amount::{Amount, CENT};
use crate::error::{ErrorModel, TapsilatError};
use crate::pattern::{regex_search, search};
use crate::text::{
    all_digits, char_to_digit, chars_of, decimal, decimal_of, digit_value, has_byte_length,
    is_digit, lemma_digits_bytes, lemma_strip_keeps, only_digits, slice_of, starts_with,
    string_of, strip, strip_of, utf8_len, CharClass,
};
use vstd::prelude::*;
use vstd::string::StringExecFns;

verus! {

/// The pattern that an e-mail address has to match.
pub const EMAIL_PATTERN: &'static str = r"^[^\s@]+@[^\s@]+\.[^\s@]+$";

/// The smallest number of installments.
pub const MIN_INSTALLMENTS: u8 = 1;

/// The largest number of installments.
pub const MAX_INSTALLMENTS: u8 = 12;

/// The namespace of the validators.
pub struct Validators;

/// A GSM number as typed, without any white space and without any hyphen,
/// wherever they stand.
pub open spec fn gsm_cleaned(raw: Seq<char>) -> Seq<char> {
    strip_of(raw, CharClass::WhitespaceOr('-'))
}

/// The national significant number: the cleaned input without `+90`, `90`
/// or `0` at its start, whichever comes first in this order.
pub open spec fn gsm_national(raw: Seq<char>) -> Seq<char> {
    let c = gsm_cleaned(raw);
    if seq!['+', '9', '0'].is_prefix_of(c) {
        c.skip(3)
    } else if seq!['9', '0'].is_prefix_of(c) {
        c.skip(2)
    } else if seq!['0'].is_prefix_of(c) {
        c.skip(1)
    } else {
        c
    }
}

/// Whether the input is a Turkish mobile number: its national significant
/// number is ten digits, the first of them a five.
pub open spec fn gsm_accepted(raw: Seq<char>) -> bool {
    let n = gsm_national(raw);
    n.len() == 10 && all_digits(n) && n[0] == '5'
}

/// What is wrong with a GSM number, if anything. The length is taken in
/// bytes of UTF-8, and is looked at first.
pub open spec fn gsm_fault(raw: Seq<char>) -> Option<Seq<char>> {
    let n = gsm_national(raw);
    if utf8_len(n) != 10 {
        Some("GSM number must be 10 digits long"@)
    } else if n.len() == 0 || n[0] != '5' {
        Some("Turkish mobile numbers must start with 5"@)
    } else if !all_digits(n) {
        Some("GSM number must contain only digits"@)
    } else {
        None
    }
}

/// The canonical form of an accepted GSM number: `90` and the national
/// significant number.
pub open spec fn gsm_canonical(raw: Seq<char>) -> Seq<char> {
    seq!['9', '0'] + gsm_national(raw)
}

/// The digit of an identity number at position `i`.
pub open spec fn id_digit(id: Seq<char>, i: int) -> int {
    digit_value(id[i])
}

/// The tenth digit that the first nine digits of an identity number call
/// for: seven times the sum of the digits at positions 0, 2, 4, 6 and 8,
/// less the sum of those at positions 1, 3, 5 and 7, modulo ten.
pub open spec fn tenth_digit(id: Seq<char>) -> int {
    ((id_digit(id, 0) + id_digit(id, 2) + id_digit(id, 4) + id_digit(id, 6) + id_digit(id, 8)) * 7
        - (id_digit(id, 1) + id_digit(id, 3) + id_digit(id, 5) + id_digit(id, 7))) % 10
}

/// The eleventh digit that the first ten digits of an identity number call
/// for: their sum modulo ten.
pub open spec fn eleventh_digit(id: Seq<char>) -> int {
    (id_digit(id, 0) + id_digit(id, 1) + id_digit(id, 2) + id_digit(id, 3) + id_digit(id, 4)
        + id_digit(id, 5) + id_digit(id, 6) + id_digit(id, 7) + id_digit(id, 8) + id_digit(id, 9))
        % 10
}

/// Whether `id` is a well-formed identity number: eleven digits, the first
/// not zero, the last two as the others call for.
pub open spec fn identity_well_formed(id: Seq<char>) -> bool {
    &&& id.len() == 11
    &&& all_digits(id)
    &&& id[0] != '0'
    &&& tenth_digit(id) == id_digit(id, 9)
    &&& eleventh_digit(id) == id_digit(id, 10)
}

/// What is wrong with an identity number, if anything. The input is taken
/// as it is given. The length is taken in bytes of UTF-8, and is looked at
/// first.
pub open spec fn identity_fault(id: Seq<char>) -> Option<Seq<char>> {
    if utf8_len(id) != 11 {
        Some("Identity number must be 11 digits"@)
    } else if !all_digits(id) {
        Some("Identity number must contain only digits"@)
    } else if id[0] == '0' {
        Some("Identity number cannot start with 0"@)
    } else if tenth_digit(id) != id_digit(id, 9) || eleventh_digit(id) != id_digit(id, 10) {
        Some("Invalid identity number checksum"@)
    } else {
        None
    }
}

/// What is wrong with an amount, if anything: it is not above zero, or it
/// is not a whole number of hundredths.
pub open spec fn amount_fault(units: int) -> Option<Seq<char>> {
    if units <= 0 {
        Some("Amount must be greater than 0"@)
    } else if units % (CENT as int) != 0 {
        Some("Amount cannot have more than 2 decimal places"@)
    } else {
        None
    }
}

/// The message for a number of installments out of range.
pub open spec fn installments_message(installments: u8) -> Seq<char> {
    "Invalid installment count: "@ + decimal_of(installments as nat) + ". Valid values are 1-12"@
}

/// What the outcome of the search for the e-mail pattern means for the
/// address.
pub open spec fn email_fault(outcome: Result<bool, Seq<char>>) -> Option<Seq<char>> {
    match outcome {
        Ok(true) => None,
        Ok(false) => Some("Invalid email format"@),
        Err(e) => Some("Email regex error: "@ + e),
    }
}

/// The result that a validator gives for a fault, or for none.
pub open spec fn verdict(r: Result<(), TapsilatError>, fault: Option<Seq<char>>) -> bool {
    match fault {
        None => r is Ok,
        Some(m) => r matches Err(e) && e@ == ErrorModel::ValidationError(m),
    }
}

/// The tenth digit for the two sums of the first nine digits.
fn tenth_for(odd: u32, even: u32) -> (t: u32)
    requires
        odd <= 45,
        even <= 36,
    ensures
        t == (odd * 7 - even) % 10,
{
    // Forty is a multiple of ten and keeps the difference above zero.
    (odd * 7 + 40 - even) % 10
}

/// The two check digits that the first nine, and then the first ten, of
/// eleven digits call for.
fn check_digits(d: &Vec<u8>) -> (r: (u32, u32))
    requires
        d@.len() == 11,
        forall|j: int| 0 <= j < 11 ==> d@[j] < 10,
    ensures
        r.0 == ((d@[0] + d@[2] + d@[4] + d@[6] + d@[8]) * 7 - (d@[1] + d@[3] + d@[5] + d@[7]))
            % 10,
        r.1 == (d@[0] + d@[1] + d@[2] + d@[3] + d@[4] + d@[5] + d@[6] + d@[7] + d@[8] + d@[9])
            % 10,
{
    assert(d@[0] < 10 && d@[1] < 10 && d@[2] < 10 && d@[3] < 10 && d@[4] < 10 && d@[5] < 10
        && d@[6] < 10 && d@[7] < 10 && d@[8] < 10 && d@[9] < 10);
    let odd: u32 = d[0] as u32 + d[2] as u32 + d[4] as u32 + d[6] as u32 + d[8] as u32;
    let even: u32 = d[1] as u32 + d[3] as u32 + d[5] as u32 + d[7] as u32;
    let tenth = tenth_for(odd, even);
    let total: u32 = odd + even + d[9] as u32;
    assert(total == d@[0] + d@[1] + d@[2] + d@[3] + d@[4] + d@[5] + d@[6] + d@[7] + d@[8]
        + d@[9]);
    (tenth, total % 10)
}

/// A GSM number has no fault exactly when it is accepted.
pub proof fn lemma_gsm_fault(raw: Seq<char>)
    ensures
        gsm_fault(raw) is None <==> gsm_accepted(raw),
{
    let n = gsm_national(raw);
    if all_digits(n) {
        lemma_digits_bytes(n);
    }
}

/// The canonical form of an accepted GSM number is accepted in its turn,
/// and is its own canonical form.
pub proof fn lemma_gsm_canonical_is_fixed(raw: Seq<char>)
    requires
        gsm_accepted(raw),
    ensures
        gsm_accepted(gsm_canonical(raw)),
        gsm_canonical(gsm_canonical(raw)) == gsm_canonical(raw),
{
    let national = gsm_national(raw);
    let canonical = gsm_canonical(raw);
    assert(canonical.len() == 12);
    assert forall|i: int| 0 <= i < canonical.len() implies is_digit(#[trigger] canonical[i]) by {
        if i >= 2 {
            assert(canonical[i] == national[i - 2]);
        }
    }
    assert forall|i: int| 0 <= i < canonical.len() implies !CharClass::WhitespaceOr('-').holds(
        #[trigger] canonical[i],
    ) by {
        assert(is_digit(canonical[i]));
    }
    lemma_strip_keeps(canonical, CharClass::WhitespaceOr('-'));
    assert(gsm_cleaned(canonical) == canonical);
    assert(!seq!['+', '9', '0'].is_prefix_of(canonical)) by {
        if seq!['+', '9', '0'].is_prefix_of(canonical) {
            assert(canonical[0] == seq!['+', '9', '0'][0]);
        }
    }
    assert(seq!['9', '0'].is_prefix_of(canonical)) by {
        assert(canonical.subrange(0, 2) =~= seq!['9', '0']);
    }
    assert(canonical.skip(2) =~= national);
}

/// An identity number has no fault exactly when it is well formed.
pub proof fn lemma_identity_fault(id: Seq<char>)
    ensures
        identity_fault(id) is None <==> identity_well_formed(id),
{
    if all_digits(id) {
        lemma_digits_bytes(id);
    }
}

/// Adding seven times a non-zero amount below ten changes the last digit.
proof fn lemma_seven_times_shifts(x: int, delta: int)
    requires
        -9 <= delta <= 9,
        delta != 0,
    ensures
        (x + 7 * delta) % 10 != x % 10,
{
}

/// Adding a non-zero amount below ten changes the last digit.
proof fn lemma_shifts(x: int, delta: int)
    requires
        -9 <= delta <= 9,
        delta != 0,
    ensures
        (x + delta) % 10 != x % 10,
{
}

/// The seven-fold sum of the digits at the even positions, less the sum of
/// those at the odd positions below nine.
spec fn weighted(id: Seq<char>) -> int {
    (id_digit(id, 0) + id_digit(id, 2) + id_digit(id, 4) + id_digit(id, 6) + id_digit(id, 8)) * 7
        - (id_digit(id, 1) + id_digit(id, 3) + id_digit(id, 5) + id_digit(id, 7))
}

/// Changing one digit of a well-formed identity number gives a number that
/// is not well formed.
pub proof fn lemma_well_formed_mutation(id: Seq<char>, k: int, c: char)
    requires
        identity_well_formed(id),
        0 <= k < 11,
        is_digit(c),
        c != id[k],
    ensures
        !identity_well_formed(id.update(k, c)),
{
    let changed = id.update(k, c);
    assert(is_digit(id[k]));
    let delta = digit_value(c) - digit_value(id[k]);
    assert(-9 <= delta <= 9 && delta != 0);
    assert(tenth_digit(id) == weighted(id) % 10);
    assert(tenth_digit(changed) == weighted(changed) % 10);
    assert forall|j: int| 0 <= j < 11 && j != k implies id_digit(changed, j) == id_digit(id, j) by {
        assert(changed[j] == id[j]);
    }
    assert(id_digit(changed, k) == id_digit(id, k) + delta);
    if k == 0 || k == 2 || k == 4 || k == 6 || k == 8 {
        assert(weighted(changed) == weighted(id) + 7 * delta);
        lemma_seven_times_shifts(weighted(id), delta);
    } else if k == 1 || k == 3 || k == 5 || k == 7 {
        assert(weighted(changed) == weighted(id) + (-delta));
        lemma_shifts(weighted(id), -delta);
    } else if k == 9 {
        assert(weighted(changed) == weighted(id));
    } else {
        assert(weighted(changed) == weighted(id));
        assert(eleventh_digit(changed) == eleventh_digit(id));
    }
}

/// Changing one character of a well-formed identity number, to another
/// digit or to anything else, gives an input that is refused.
pub proof fn lemma_identity_mutation_rejected(id: Seq<char>, i: int, c: char)
    requires
        identity_well_formed(id),
        0 <= i < id.len(),
        c != id[i],
    ensures
        !identity_well_formed(id.update(i, c)),
        identity_fault(id.update(i, c)) is Some,
{
    let changed = id.update(i, c);
    if is_digit(c) {
        lemma_well_formed_mutation(id, i, c);
    } else {
        assert(changed[i] == c);
    }
    lemma_identity_fault(changed);
}

impl Validators {
    /// Checks a Turkish GSM number and gives its canonical form,
    /// `90XXXXXXXXXX`.
    pub fn validate_gsm_number(gsm: &str) -> (r: Result<String, TapsilatError>)
        ensures
            r is Ok <==> gsm_accepted(gsm@),
            r matches Ok(s) ==> s@ == gsm_canonical(gsm@),
            r matches Err(e) ==> gsm_fault(gsm@) matches Some(m) && e@
                == ErrorModel::ValidationError(m),
    {
        Self::validate_gsm(gsm)
    }

    /// Checks a Turkish GSM number and gives its canonical form,
    /// `90XXXXXXXXXX`. White space and hyphens are dropped wherever they
    /// stand; then `+90`, `90` or `0` at the start. What is left has to be
    /// ten digits, the first a five.
    pub fn validate_gsm(gsm: &str) -> (r: Result<String, TapsilatError>)
        ensures
            r is Ok <==> gsm_accepted(gsm@),
            r matches Ok(s) ==> s@ == gsm_canonical(gsm@),
            r matches Err(e) ==> gsm_fault(gsm@) matches Some(m) && e@
                == ErrorModel::ValidationError(m),
    {
        let raw = chars_of(gsm);
        let cleaned = strip(&raw, CharClass::WhitespaceOr('-'));
        let plus = vec!['+', '9', '0'];
        let country = vec!['9', '0'];
        let trunk = vec!['0'];
        assert(plus@ =~= seq!['+', '9', '0']);
        assert(country@ =~= seq!['9', '0']);
        assert(trunk@ =~= seq!['0']);
        let skip: usize = if starts_with(&cleaned, &plus) {
            3
        } else if starts_with(&cleaned, &country) {
            2
        } else if starts_with(&cleaned, &trunk) {
            1
        } else {
            0
        };
        let national = slice_of(&cleaned, skip, cleaned.len());
        assert(national@ =~= gsm_national(gsm@)) by {
            assert(cleaned@.subrange(skip as int, cleaned@.len() as int) =~= cleaned@.skip(
                skip as int,
            ));
            assert(cleaned@.skip(0) =~= cleaned@);
        }
        proof {
            lemma_gsm_fault(gsm@);
        }
        if !has_byte_length(&national, 10) {
            return Err(TapsilatError::validation("GSM number must be 10 digits long"));
        }
        if national.len() == 0 || national[0] != '5' {
            return Err(TapsilatError::validation("Turkish mobile numbers must start with 5"));
        }
        if !only_digits(&national) {
            return Err(TapsilatError::validation("GSM number must contain only digits"));
        }
        let canonical = String::from_str("90").concat(string_of(&national).as_str());
        proof {
            reveal_strlit("90");
            assert("90"@ =~= seq!['9', '0']);
        }
        Ok(canonical)
    }

    /// Checks a number of installments: 1 to 12.
    pub fn validate_installments(installments: u8) -> (r: Result<(), TapsilatError>)
        ensures
            r is Ok <==> MIN_INSTALLMENTS <= installments <= MAX_INSTALLMENTS,
            r matches Err(e) ==> e@ == ErrorModel::ValidationError(
                installments_message(installments),
            ),
    {
        if installments < MIN_INSTALLMENTS || installments > MAX_INSTALLMENTS {
            let message = String::from_str("Invalid installment count: ").concat(
                decimal(installments as u128).as_str(),
            ).concat(". Valid values are 1-12");
            return Err(TapsilatError::ValidationError(message));
        }
        Ok(())
    }

    /// Says what the outcome of searching an address for [`EMAIL_PATTERN`]
    /// means: a match accepts the address, no match rejects it, and a
    /// pattern that failed to compile is reported as such.
    pub fn email_verdict(outcome: Result<bool, String>) -> (r: Result<(), TapsilatError>)
        ensures
            verdict(
                r,
                email_fault(
                    match outcome {
                        Ok(found) => Ok(found),
                        Err(e) => Err(e@),
                    },
                ),
            ),
    {
        match outcome {
            Ok(true) => Ok(()),
            Ok(false) => Err(TapsilatError::validation("Invalid email format")),
            Err(e) => Err(
                TapsilatError::ValidationError(
                    String::from_str("Email regex error: ").concat(e.as_str()),
                ),
            ),
        }
    }

    /// Checks an e-mail address against [`EMAIL_PATTERN`]: something without
    /// white space or `@`, an `@`, and a domain of the same kind with a dot
    /// inside it.
    pub fn validate_email(email: &str) -> (r: Result<(), TapsilatError>)
        ensures
            verdict(r, email_fault(regex_search(EMAIL_PATTERN@, email@))),
    {
        Self::email_verdict(search(EMAIL_PATTERN, email))
    }

    /// Checks a Turkish identity number: exactly eleven digits, the first
    /// not zero, the tenth and the eleventh as the checksums of the others
    /// call for. Nothing is dropped from the input: white space in it or
    /// around it makes it fail.
    pub fn validate_identity_number(identity: &str) -> (r: Result<(), TapsilatError>)
        ensures
            r is Ok <==> identity_well_formed(identity@),
            verdict(r, identity_fault(identity@)),
    {
        let id = chars_of(identity);
        proof {
            lemma_identity_fault(identity@);
        }
        if !has_byte_length(&id, 11) {
            return Err(TapsilatError::validation("Identity number must be 11 digits"));
        }
        if !only_digits(&id) {
            return Err(TapsilatError::validation("Identity number must contain only digits"));
        }
        proof {
            lemma_digits_bytes(id@);
        }
        let mut digits: Vec<u8> = Vec::new();
        let mut i: usize = 0;
        while i < 11
            invariant
                i <= 11,
                id@.len() == 11,
                all_digits(id@),
                digits@.len() == i,
                forall|j: int| 0 <= j < i ==> digits@[j] == id_digit(id@, j) && digits@[j] < 10,
            decreases 11 - i,
        {
            digits.push(char_to_digit(id[i]));
            i += 1;
        }
        assert(digits@[0] == id_digit(id@, 0) && digits@[1] == id_digit(id@, 1) && digits@[2]
            == id_digit(id@, 2) && digits@[3] == id_digit(id@, 3) && digits@[4] == id_digit(id@, 4)
            && digits@[5] == id_digit(id@, 5) && digits@[6] == id_digit(id@, 6) && digits@[7]
            == id_digit(id@, 7) && digits@[8] == id_digit(id@, 8) && digits@[9] == id_digit(id@, 9)
            && digits@[10] == id_digit(id@, 10));
        if digits[0] == 0 {
            return Err(TapsilatError::validation("Identity number cannot start with 0"));
        }
        let (tenth, eleventh) = check_digits(&digits);
        if tenth != digits[9] as u32 || eleventh != digits[10] as u32 {
            return Err(TapsilatError::validation("Invalid identity number checksum"));
        }
        Ok(())
    }

    /// Checks an amount of money: above zero, and with at most two decimal
    /// places.
    pub fn validate_amount(amount: Amount) -> (r: Result<(), TapsilatError>)
        ensures
            r is Ok <==> amount.units > 0 && amount.units as int % (CENT as int) == 0,
            verdict(r, amount_fault(amount.units as int)),
    {
        if !amount.is_positive() {
            return Err(TapsilatError::validation("Amount must be greater than 0"));
        }
        if !amount.is_whole_cents() {
            return Err(TapsilatError::validation("Amount cannot have more than 2 decimal places"));
        }
        Ok(())
    }
}

} // verus!
