//! The normalized byte components of a transaction.
use vstd::prelude::*;

use crate::error::FingerprintError;
use crate::field::{fr_modulus, Scalar};
use crate::squeeze::{poseidon_circom, poseidon_hash};
use crate::wide::{be_bytes, wide_bound, Wide};

verus! {

broadcast use vstd::string::is_ascii_spec_bytes;

/// Seconds from the Unix epoch to `2025-01-01T00:00:00Z`, the epoch of this scheme.
pub const EPOCH_SECONDS: i64 = 1735689600;

/// Days from `1970-01-01` to `2025-01-01`.
pub const EPOCH_DAY: i64 = 20089;

/// Seconds in a day.
pub const SECONDS_PER_DAY: i64 = 86400;

/// Atto units in one base unit of a currency.
pub const ATTO_PER_UNIT: u64 = 1_000_000_000_000_000_000;

/// The pattern that a bank identifier code must match.
pub open spec fn bic_pattern() -> Seq<char> {
    "^[A-Z]{4}[A-Z]{2}[A-Z0-9]{2}([A-Z0-9]{3})?$"@
}

pub open spec fn is_upper(c: char) -> bool {
    'A' <= c <= 'Z'
}

pub open spec fn is_upper_or_digit(c: char) -> bool {
    'A' <= c <= 'Z' || '0' <= c <= '9'
}

/// A bank identifier code: four letters of bank code, two of country code, two
/// letters or digits of location code and an optional three of branch code.
pub open spec fn valid_bic(s: Seq<char>) -> bool {
    &&& (s.len() == 8 || s.len() == 11)
    &&& forall|i: int| 0 <= i < 6 ==> is_upper(#[trigger] s[i])
    &&& forall|i: int| 6 <= i < s.len() ==> is_upper_or_digit(#[trigger] s[i])
}

/// Relies on `regex::Regex::is_match` for the bank identifier pattern, which
/// is anchored at both ends and is valid, so that `Regex::new` accepts it.
#[verifier::external_body]
fn bic_regex_matches(pattern: &str, text: &str) -> (r: bool)
    requires
        pattern@ == bic_pattern(),
    ensures
        r == valid_bic(text@),
{
    regex::Regex::new(pattern).unwrap().is_match(text)
}

/// Whether a bank identifier code is well formed.
pub fn is_valid_bic(bic: &str) -> (r: bool)
    ensures
        r == valid_bic(bic@),
{
    let pattern: &str = "^[A-Z]{4}[A-Z]{2}[A-Z0-9]{2}([A-Z0-9]{3})?$";
    bic_regex_matches(pattern, bic)
}

/// An amount in its smallest unit: `base * 10^18 + atto`.
pub open spec fn full_amount(amount: (u64, u64)) -> nat {
    amount.0 as nat * ATTO_PER_UNIT as nat + amount.1 as nat
}

/// The Cantor pairing of two 256-bit integers, `(x^2 + 3x + 2xy + y + y^2) / 2`,
/// with the sum wrapped modulo `2^256` before halving.
pub open spec fn cantor(x: nat, y: nat) -> nat {
    (((x * x + 3 * x + 2 * x * y + y + y * y) % wide_bound()) / 2) as nat
}

/// Something that contributes a fixed number of normalized bytes to a fingerprint.
pub trait FingerprintComponent {
    /// The normalized bytes, or `None` where the value is rejected.
    spec fn encoding(&self) -> Option<Seq<u8>>;

    /// The number of bytes contributed.
    spec fn size_spec() -> nat;

    fn size() -> (r: usize)
        ensures
            r as nat == Self::size_spec(),
    ;

    /// Appends the normalized bytes to `buffer`.
    fn serialize(&self, buffer: &mut Vec<u8>) -> (r: Result<(), FingerprintError>)
        ensures
            match self.encoding() {
                Some(e) => r is Ok && final(buffer)@ == old(buffer)@ + e && e.len()
                    == Self::size_spec(),
                None => r == Err::<(), FingerprintError>(FingerprintError::InvalidInput)
                    && final(buffer)@ == old(buffer)@,
            },
    ;
}

/// Something that squeezes its value into one field element.
pub trait SqueezeComponent {
    /// The element, or `None` where the value is rejected.
    spec fn squeeze_spec(&self) -> Option<nat>;

    fn squeeze(&self) -> (r: Result<Scalar, FingerprintError>)
        ensures
            match self.squeeze_spec() {
                Some(v) => r matches Ok(s) && s.wf() && s.val() == v,
                None => r == Err::<Scalar, FingerprintError>(FingerprintError::InvalidInput),
            },
    ;
}

/// The bank identifier code, normalized to bank and country code.
#[derive(Debug)]
pub struct BankIdentifierComponent {
    bic: String,
}

impl BankIdentifierComponent {
    pub closed spec fn bic_view(&self) -> Seq<char> {
        self.bic@
    }

    pub fn new(value: String) -> (r: Self)
        ensures
            r.bic_view() == value@,
    {
        Self { bic: value }
    }

    pub fn raw(&self) -> (r: &String)
        ensures
            r@ == self.bic_view(),
    {
        &self.bic
    }
}

impl FingerprintComponent for BankIdentifierComponent {
    /// The first six characters (bank and country code) as bytes; branch and
    /// location are dropped.
    open spec fn encoding(&self) -> Option<Seq<u8>> {
        if valid_bic(self.bic_view()) {
            Some(Seq::new(6, |i: int| self.bic_view()[i] as u8))
        } else {
            None
        }
    }

    open spec fn size_spec() -> nat {
        6
    }

    fn size() -> (r: usize) {
        6
    }

    fn serialize(&self, buffer: &mut Vec<u8>) -> (r: Result<(), FingerprintError>) {
        if !is_valid_bic(self.bic.as_str()) {
            return Err(FingerprintError::InvalidInput);
        }
        let s: &str = self.bic.as_str();
        assert(vstd::string::is_ascii(s));
        let b = s.as_bytes();
        let ghost start = buffer@;
        let mut i: usize = 0;
        while i < 6
            invariant
                i <= 6,
                b@.len() == s@.len(),
                s@ == self.bic_view(),
                valid_bic(s@),
                forall|k: int| 0 <= k < s@.len() ==> b@[k] == s@[k] as u8,
                buffer@ == start + Seq::new(i as nat, |k: int| s@[k] as u8),
            decreases 6 - i,
        {
            buffer.push(b[i]);
            i = i + 1;
            assert(buffer@ =~= start + Seq::new(i as nat, |k: int| s@[k] as u8));
        }
        Ok(())
    }
}

/// An amount `(base, atto)`, normalized to 32 big-endian bytes of its value in
/// atto units.
#[derive(Debug)]
pub struct AmountComponent {
    base: u64,
    atto: u64,
}

impl AmountComponent {
    pub closed spec fn amount_view(&self) -> (u64, u64) {
        (self.base, self.atto)
    }

    pub fn new(value: (u64, u64)) -> (r: Self)
        ensures
            r.amount_view() == value,
    {
        Self { base: value.0, atto: value.1 }
    }

    pub fn raw(&self) -> (r: (u64, u64))
        ensures
            r == self.amount_view(),
    {
        (self.base, self.atto)
    }
}

/// `base * 10^18 + atto` as a 256-bit integer.
pub(crate) fn full_amount_wide(amount: (u64, u64)) -> (r: Wide)
    ensures
        r.val() == full_amount(amount),
        r.val() < 0x1000_0000_0000_0000_0000_0000_0000_0000nat,
{
    let base = Wide::from_u64(amount.0);
    let unit = Wide::from_u64(ATTO_PER_UNIT);
    assert(base.val() * unit.val() < 0x0fff_ffff_ffff_ffff_ffff_ffff_ffff_0000nat) by (nonlinear_arith)
        requires
            base.val() < 0x1_0000_0000_0000_0000nat,
            unit.val() == 1_000_000_000_000_000_000nat,
    ;
    let scaled = base.mul(&unit);
    scaled.add(&Wide::from_u64(amount.1))
}

impl FingerprintComponent for AmountComponent {
    open spec fn encoding(&self) -> Option<Seq<u8>> {
        Some(be_bytes(full_amount(self.amount_view()), 32))
    }

    open spec fn size_spec() -> nat {
        32
    }

    fn size() -> (r: usize) {
        32
    }

    fn serialize(&self, buffer: &mut Vec<u8>) -> (r: Result<(), FingerprintError>) {
        let full = full_amount_wide((self.base, self.atto));
        let bytes = full.to_big_endian();
        let ghost start = buffer@;
        let mut i: usize = 0;
        while i < 32
            invariant
                i <= 32,
                bytes@ == be_bytes(full_amount(self.amount_view()), 32),
                buffer@ == start + bytes@.subrange(0, i as int),
            decreases 32 - i,
        {
            buffer.push(bytes[i]);
            i = i + 1;
            assert(buffer@ =~= start + bytes@.subrange(0, i as int));
        }
        assert(bytes@.subrange(0, 32) =~= bytes@);
        Ok(())
    }
}

/// An ISO 4217 numeric currency code, normalized to two big-endian bytes.
#[derive(Debug)]
pub struct CurrencyComponent {
    currency_code: u16,
}

impl CurrencyComponent {
    pub closed spec fn code_view(&self) -> u16 {
        self.currency_code
    }

    pub fn new(value: u16) -> (r: Self)
        ensures
            r.code_view() == value,
    {
        Self { currency_code: value }
    }

    pub fn raw(&self) -> (r: u16)
        ensures
            r == self.code_view(),
    {
        self.currency_code
    }
}

impl FingerprintComponent for CurrencyComponent {
    open spec fn encoding(&self) -> Option<Seq<u8>> {
        Some(seq![(self.code_view() / 256) as u8, (self.code_view() % 256) as u8])
    }

    open spec fn size_spec() -> nat {
        2
    }

    fn size() -> (r: usize) {
        2
    }

    fn serialize(&self, buffer: &mut Vec<u8>) -> (r: Result<(), FingerprintError>) {
        let ghost start = buffer@;
        buffer.push((self.currency_code / 256) as u8);
        buffer.push((self.currency_code % 256) as u8);
        assert(buffer@ =~= start + seq![(self.code_view() / 256) as u8, (self.code_view() % 256) as u8]);
        Ok(())
    }
}

/// A field element, serialized as its canonical 32 bytes.
#[derive(Debug)]
pub struct ScalarComponent(pub Scalar);

impl ScalarComponent {
    pub fn new(value: Scalar) -> (r: Self)
        ensures
            r.0 == value,
    {
        ScalarComponent(value)
    }

    pub fn raw(&self) -> (r: &Scalar)
        ensures
            *r == self.0,
    {
        &self.0
    }
}

impl FingerprintComponent for ScalarComponent {
    open spec fn encoding(&self) -> Option<Seq<u8>> {
        Some(self.0.bytes_view())
    }

    open spec fn size_spec() -> nat {
        32
    }

    fn size() -> (r: usize) {
        32
    }

    fn serialize(&self, buffer: &mut Vec<u8>) -> (r: Result<(), FingerprintError>) {
        let bytes = self.0.to_bytes();
        let ghost start = buffer@;
        let mut i: usize = 0;
        while i < 32
            invariant
                i <= 32,
                bytes@ == self.0.bytes_view(),
                buffer@ == start + bytes@.subrange(0, i as int),
            decreases 32 - i,
        {
            buffer.push(bytes[i]);
            i = i + 1;
            assert(buffer@ =~= start + bytes@.subrange(0, i as int));
        }
        assert(bytes@.subrange(0, 32) =~= bytes@);
        Ok(())
    }
}

/// A UTC instant: whole seconds since the Unix epoch and the nanoseconds past them.
#[derive(Clone, Copy, Debug, PartialEq, Eq, Structural)]
pub struct UtcTimestamp {
    pub seconds: i64,
    pub nanos: u32,
}

/// The day number, counted from `1970-01-01`, of the UTC date of an instant.
pub open spec fn utc_day(seconds: i64) -> int {
    seconds as int / SECONDS_PER_DAY as int
}

/// The UTC date of an instant, as a day number counted from `1970-01-01`.
pub fn utc_day_of(seconds: i64) -> (r: i64)
    ensures
        r as int == utc_day(seconds),
{
    if seconds >= 0 {
        seconds / SECONDS_PER_DAY
    } else {
        let above: i64 = -(seconds + 1);
        let r: i64 = -(above / SECONDS_PER_DAY) - 1;
        assert(r as int == utc_day(seconds)) by (nonlinear_arith)
            requires
                seconds < 0,
                above == -(seconds + 1),
                r == -(above / 86400) - 1,
        ;
        r
    }
}

/// What the date-time component is made of: the instant, the date it is
/// counted on (as a day number from `1970-01-01`) and the amount.
#[derive(Clone, Copy, Debug)]
pub struct DateTimeRaw {
    pub date_time: UtcTimestamp,
    pub wwd: i64,
    pub amount: (u64, u64),
}

impl DateTimeRaw {
    pub fn new(date_time: UtcTimestamp, wwd: i64, amount: (u64, u64)) -> (r: Self)
        ensures
            r.date_time == date_time,
            r.wwd == wwd,
            r.amount == amount,
    {
        DateTimeRaw { date_time, wwd, amount }
    }

    pub fn date_time(&self) -> (r: &UtcTimestamp)
        ensures
            *r == self.date_time,
    {
        &self.date_time
    }
}

/// The instant is not before the epoch, and the date lies between one day and
/// `u32::MAX` days after it (on the epoch's own day the amount would be
/// divided by zero).
pub open spec fn datetime_accepted(raw: DateTimeRaw) -> bool {
    &&& raw.date_time.seconds >= EPOCH_SECONDS
    &&& raw.wwd > EPOCH_DAY
    &&& raw.wwd - EPOCH_DAY <= u32::MAX
}

/// Whole seconds from the epoch to the instant.
pub open spec fn seconds_since_epoch(raw: DateTimeRaw) -> nat {
    (raw.date_time.seconds - EPOCH_SECONDS) as nat
}

/// Whole days from the epoch's date to the date.
pub open spec fn days_since_epoch(raw: DateTimeRaw) -> nat {
    (raw.wwd - EPOCH_DAY) as nat
}

/// The digest of an accepted date-time: the hash of the seconds, the days and
/// the Cantor pairing of the seconds with the amount per day.
pub open spec fn datetime_digest(raw: DateTimeRaw) -> nat {
    let secs = seconds_since_epoch(raw);
    let days = days_since_epoch(raw);
    poseidon_circom(
        seq![secs, days, cantor(secs, full_amount(raw.amount) / days) % fr_modulus()],
    )
}

/// The Cantor pairing in 256-bit integers, with wrapping arithmetic.
pub fn cantor_pair_function(x: &Wide, y: &Wide) -> (r: Wide)
    ensures
        r.val() == cantor(x.val(), y.val()),
{
    let two = Wide::from_u64(2);
    let three = Wide::from_u64(3);
    let ghost xv = x.val() as int;
    let ghost yv = y.val() as int;
    let ghost b = wide_bound() as int;
    let xx = x.wrapping_mul(x);
    let x3 = three.wrapping_mul(x);
    let x2 = two.wrapping_mul(x);
    let xy2 = x2.wrapping_mul(y);
    let yy = y.wrapping_mul(y);
    let s1 = xx.wrapping_add(&x3);
    let s2 = s1.wrapping_add(&xy2);
    let s3 = s2.wrapping_add(y);
    let top = s3.wrapping_add(&yy);
    proof {
        y.lemma_bounded();
        vstd::arithmetic::div_mod::lemma_small_mod(y.val(), wide_bound());
        vstd::arithmetic::div_mod::lemma_mul_mod_noop_left(2 * xv, yv, b);
        assert((2 * xv) * yv == 2 * xv * yv) by (nonlinear_arith);
        vstd::arithmetic::div_mod::lemma_add_mod_noop(xv * xv, 3 * xv, b);
        vstd::arithmetic::div_mod::lemma_add_mod_noop(xv * xv + 3 * xv, 2 * xv * yv, b);
        vstd::arithmetic::div_mod::lemma_add_mod_noop(xv * xv + 3 * xv + 2 * xv * yv, yv, b);
        vstd::arithmetic::div_mod::lemma_add_mod_noop(
            xv * xv + 3 * xv + 2 * xv * yv + yv,
            yv * yv,
            b,
        );
    }
    top.div(&two)
}

/// The date-time component: squeezed into one field element.
#[derive(Debug)]
pub struct DateTimeComponent {
    raw: DateTimeRaw,
}

impl DateTimeComponent {
    pub closed spec fn raw_view(&self) -> DateTimeRaw {
        self.raw
    }

    pub fn new(value: DateTimeRaw) -> (r: Self)
        ensures
            r.raw_view() == value,
    {
        Self { raw: value }
    }

    pub fn raw(&self) -> (r: &DateTimeRaw)
        ensures
            *r == self.raw_view(),
    {
        &self.raw
    }
}

impl FingerprintComponent for DateTimeComponent {
    /// The canonical bytes of the digest.
    open spec fn encoding(&self) -> Option<Seq<u8>> {
        match self.squeeze_spec() {
            Some(v) => Some(crate::field::le_bytes_of(v)),
            None => None,
        }
    }

    open spec fn size_spec() -> nat {
        32
    }

    fn size() -> (r: usize) {
        32
    }

    fn serialize(&self, buffer: &mut Vec<u8>) -> (r: Result<(), FingerprintError>) {
        let squeezed = match self.squeeze() {
            Ok(s) => s,
            Err(e) => return Err(e),
        };
        proof {
            squeezed.lemma_canonical();
        }
        ScalarComponent::new(squeezed).serialize(buffer)
    }
}

impl SqueezeComponent for DateTimeComponent {
    open spec fn squeeze_spec(&self) -> Option<nat> {
        if datetime_accepted(self.raw_view()) {
            Some(datetime_digest(self.raw_view()))
        } else {
            None
        }
    }

    fn squeeze(&self) -> (r: Result<Scalar, FingerprintError>) {
        let raw = self.raw;
        if raw.date_time.seconds < EPOCH_SECONDS || raw.wwd <= EPOCH_DAY {
            return Err(FingerprintError::InvalidInput);
        }
        if raw.wwd - EPOCH_DAY > 0xFFFF_FFFF {
            return Err(FingerprintError::InvalidInput);
        }
        let secs: u64 = (raw.date_time.seconds - EPOCH_SECONDS) as u64;
        let days: u64 = (raw.wwd - EPOCH_DAY) as u64;
        let full = full_amount_wide(raw.amount);
        let per_day = full.div(&Wide::from_u64(days));
        let nonce = cantor_pair_function(&Wide::from_u64(secs), &per_day);
        let s = Scalar::from_u64(secs);
        let d = Scalar::from_u64(days);
        let n = Scalar::from_raw_limbs(nonce.limbs());
        let inputs = vec![s, d, n];
        let h = poseidon_hash(&inputs);
        assert(crate::squeeze::values_of(inputs@) =~= seq![
            seconds_since_epoch(raw),
            days_since_epoch(raw),
            cantor(seconds_since_epoch(raw), full_amount(raw.amount) / days_since_epoch(raw))
                % fr_modulus(),
        ]);
        Ok(h)
    }
}

} // verus!
