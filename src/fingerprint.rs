//! Transactions and the fingerprint pipeline: normalization, the date-time
//! digest, the oblivious evaluation and the final squeeze.
use vstd::prelude::*;

use crate::components::{
    datetime_accepted, datetime_digest, full_amount, utc_day, utc_day_of, valid_bic,
    AmountComponent, BankIdentifierComponent, CurrencyComponent, DateTimeComponent, DateTimeRaw,
    FingerprintComponent, SqueezeComponent, UtcTimestamp,
};
use crate::error::FingerprintError;
use crate::field::{le_bytes_of, Scalar};
use crate::protocols::{FingerprintProtocol, NaiveProtocol};
use crate::squeeze::{squeeze_bytes_spec, HashSqueeze};
use crate::wide::be_bytes;

verus! {

/// Whether an ISO 4217 numeric code names a currency.
pub uninterp spec fn iso4217_known(code: u16) -> bool;

/// Relies on `Currency::try_from(u16)` of iso4217-static: it succeeds exactly
/// for the numeric codes in its table.
#[verifier::external_body]
fn currency_is_known(code: u16) -> (r: bool)
    ensures
        r == iso4217_known(code),
{
    iso4217_static::Currency::try_from(code).is_ok()
}

/// The numeric code of the currency that a three-letter ISO 4217 code names.
pub uninterp spec fn iso4217_numeric_of(code: Seq<char>) -> Option<u16>;

/// Relies on `Currency::try_from(&str)` of iso4217-static, whose variants
/// carry their numeric codes as discriminants; those codes are in its table.
#[verifier::external_body]
fn currency_numeric(code: &str) -> (r: Option<u16>)
    ensures
        r == iso4217_numeric_of(code@),
        r matches Some(n) ==> iso4217_known(n),
{
    iso4217_static::Currency::try_from(code).ok().map(|c| c as u16)
}

/// One base unit in the 19-digit fixed-point representation of `Dec19x19`.
pub const DECIMAL_SCALE: i128 = 10_000_000_000_000_000_000;

/// Whether a numeric code names an ISO 4217 currency.
pub fn is_known_currency(code: u16) -> (r: bool)
    ensures
        r == iso4217_known(code),
{
    currency_is_known(code)
}

/// An amount with its currency.
#[derive(Clone, Debug)]
pub struct Money {
    pub amount_base: u64,
    pub amount_atto: u64,
    /// ISO 4217 numeric code.
    pub currency: u16,
}

impl Money {
    /// An amount given as the representation of a `Dec19x19` decimal (the
    /// value times `10^19`) in the currency named by a three-letter code. The
    /// base is the whole part and the atto part the first 18 fractional
    /// digits. An unknown currency or a negative amount is `InvalidInput`.
    pub fn from_decimal(repr: i128, currency: &str) -> (r: Result<Money, FingerprintError>)
        ensures
            match iso4217_numeric_of(currency@) {
                None => r == Err::<Money, FingerprintError>(FingerprintError::InvalidInput),
                Some(c) => if repr < 0 {
                    r == Err::<Money, FingerprintError>(FingerprintError::InvalidInput)
                } else {
                    r matches Ok(m) && m.amount_base as int == (repr as int) / (DECIMAL_SCALE as int)
                        && m.amount_atto as int == ((repr as int) % (DECIMAL_SCALE as int)) / 10
                        && m.currency == c
                },
            },
    {
        let code = match currency_numeric(currency) {
            Some(c) => c,
            None => return Err(FingerprintError::InvalidInput),
        };
        if repr < 0 {
            return Err(FingerprintError::InvalidInput);
        }
        let base = repr / DECIMAL_SCALE;
        let fraction = repr % DECIMAL_SCALE;
        assert(base < 0x1_0000_0000_0000_0000) by (nonlinear_arith)
            requires
                base == repr / 10_000_000_000_000_000_000i128,
                0 <= repr <= i128::MAX,
        ;
        Ok(Money { amount_base: base as u64, amount_atto: (fraction / 10) as u64, currency: code })
    }

    /// A whole number of base units in the currency named by a three-letter
    /// code; an unknown currency is `InvalidInput`.
    pub fn from_units(units: u64, currency: &str) -> (r: Result<Money, FingerprintError>)
        ensures
            match iso4217_numeric_of(currency@) {
                None => r == Err::<Money, FingerprintError>(FingerprintError::InvalidInput),
                Some(c) => r matches Ok(m) && m.amount_base == units && m.amount_atto == 0
                    && m.currency == c,
            },
    {
        match currency_numeric(currency) {
            Some(code) => Ok(Money { amount_base: units, amount_atto: 0, currency: code }),
            None => Err(FingerprintError::InvalidInput),
        }
    }
}

impl Default for Money {
    /// No amount, in Afghani (ISO 4217 numeric code 971).
    fn default() -> (r: Money)
        ensures
            r.amount_base == 0 && r.amount_atto == 0 && r.currency == 971,
    {
        Money { amount_base: 0, amount_atto: 0, currency: 971 }
    }
}

/// A transaction as it arrives.
#[derive(Clone, Debug)]
pub struct RawTransaction {
    pub bic: String,
    pub amount: Money,
    pub date_time: UtcTimestamp,
}

/// The date-time component's input for a transaction: its instant, the UTC
/// date of that instant and its amount.
pub open spec fn raw_datetime_of(tx: RawTransaction) -> DateTimeRaw {
    DateTimeRaw {
        date_time: tx.date_time,
        wwd: utc_day(tx.date_time.seconds) as i64,
        amount: (tx.amount.amount_base, tx.amount.amount_atto),
    }
}

/// A transaction is accepted when its code is a bank identifier, its currency
/// is known and its instant is at least a day after the epoch.
pub open spec fn transaction_accepted(tx: RawTransaction) -> bool {
    &&& valid_bic(tx.bic@)
    &&& iso4217_known(tx.amount.currency)
    &&& datetime_accepted(raw_datetime_of(tx))
}

/// The first six characters of a code, as bytes.
pub open spec fn bic_prefix_bytes(bic: Seq<char>) -> Seq<u8> {
    Seq::new(6, |i: int| bic[i] as u8)
}

/// The bytes that a transaction's components contribute.
pub open spec fn transaction_bytes(tx: RawTransaction) -> Seq<u8> {
    fingerprint_prefix() + bic_prefix_bytes(tx.bic@) + be_bytes(
        full_amount((tx.amount.amount_base, tx.amount.amount_atto)),
        32,
    ) + seq![(tx.amount.currency / 256) as u8, (tx.amount.currency % 256) as u8]
}

/// The fingerprint of a transaction for the evaluated digest `d`.
pub open spec fn transaction_fingerprint(tx: RawTransaction, d: nat) -> nat {
    squeeze_bytes_spec(transaction_bytes(tx) + le_bytes_of(d))
}

/// The digest of an accepted transaction's date-time component.
pub open spec fn transaction_digest(tx: RawTransaction) -> nat {
    datetime_digest(raw_datetime_of(tx))
}

/// The fixed bytes that open every fingerprint buffer.
pub open spec fn fingerprint_prefix() -> Seq<u8> {
    seq![0xFFu8, 0xFEu8, 0xEDu8, 0xDDu8, 0xCCu8, 0x00u8, 0xDDu8, 0xEEu8]
}

/// The normalized components of a transaction.
#[derive(Debug)]
pub struct TransactionFingerprintData {
    bic: BankIdentifierComponent,
    amount: AmountComponent,
    currency: CurrencyComponent,
    date_time: DateTimeComponent,
}

/// The pipeline from normalized components to a fingerprint.
pub trait Fingerprint {
    /// The digest of the date-time component, or `None` where it is rejected.
    spec fn digest_spec(&self) -> Option<nat>;

    /// The bytes that the components contribute, or `None` where one is rejected.
    spec fn components_spec(&self) -> Option<Seq<u8>>;

    /// The fingerprint for the evaluated digest `d`.
    spec fn fingerprint_value(&self, d: nat) -> nat;

    /// The digest, evaluated by `via_protocol`.
    fn datetime_fingerprint<P: FingerprintProtocol>(&self, via_protocol: &P) -> (r: Result<
        Scalar,
        FingerprintError,
    >)
        requires
            via_protocol.protocol_wf(),
        ensures
            match self.digest_spec() {
                None => r == Err::<Scalar, FingerprintError>(FingerprintError::InvalidInput),
                Some(u) => {
                    &&& r matches Ok(d) ==> d.wf() && via_protocol.may_output(
                        le_bytes_of(u),
                        d.val(),
                    )
                    &&& r matches Err(e) ==> !via_protocol.infallible() && via_protocol.may_fail_with(e)
                },
            },
    ;

    /// The fingerprint for the evaluated digest `date_time`.
    fn fingerprint(&self, date_time: &Scalar) -> (r: Result<Scalar, FingerprintError>)
        requires
            date_time.wf(),
        ensures
            match self.components_spec() {
                None => r == Err::<Scalar, FingerprintError>(FingerprintError::InvalidInput),
                Some(_) => r matches Ok(f) && f.wf() && f.val() == self.fingerprint_value(
                    date_time.val(),
                ),
            },
    ;

    /// The whole pipeline: digest, evaluation, fingerprint.
    fn complete_fingerprint<P: FingerprintProtocol>(&self, via_protocol: &P) -> (r: Result<
        Scalar,
        FingerprintError,
    >)
        requires
            via_protocol.protocol_wf(),
        ensures
            self.digest_spec() is None ==> r == Err::<Scalar, FingerprintError>(
                FingerprintError::InvalidInput,
            ),
            self.digest_spec() is Some && self.components_spec() is None ==> r is Err,
            r matches Ok(f) ==> f.wf() && exists|d: nat|
                via_protocol.may_output(le_bytes_of(self.digest_spec()->Some_0), d)
                    && #[trigger] self.fingerprint_value(d) == f.val(),
            self.digest_spec() is Some && self.components_spec() is Some && via_protocol.infallible()
                ==> r is Ok,
            self.digest_spec() is Some && self.components_spec() is Some ==> (r matches Err(e)
                ==> via_protocol.may_fail_with(e)),
    ;
}

impl TransactionFingerprintData {
    pub closed spec fn bic_view(&self) -> &BankIdentifierComponent {
        &self.bic
    }

    pub closed spec fn amount_view(&self) -> &AmountComponent {
        &self.amount
    }

    pub closed spec fn currency_view(&self) -> &CurrencyComponent {
        &self.currency
    }

    pub closed spec fn date_time_view(&self) -> &DateTimeComponent {
        &self.date_time
    }

    /// The number of bytes that are squeezed into a fingerprint.
    pub fn fingerprint_size() -> (r: usize)
        ensures
            r == 80,
    {
        8 + BankIdentifierComponent::size() + AmountComponent::size() + CurrencyComponent::size()
            + 32
    }

    pub fn new(
        bic: BankIdentifierComponent,
        amount: AmountComponent,
        currency: CurrencyComponent,
        date_time: DateTimeComponent,
    ) -> (r: Self)
        ensures
            r.bic_view() == bic,
            r.amount_view() == amount,
            r.currency_view() == currency,
            r.date_time_view() == date_time,
    {
        Self { bic, amount, currency, date_time }
    }

    pub fn bic(&self) -> (r: &str)
        ensures
            r@ == self.bic_view().bic_view(),
    {
        self.bic.raw().as_str()
    }

    pub fn amount(&self) -> (r: (u64, u64))
        ensures
            r == self.amount_view().amount_view(),
    {
        self.amount.raw()
    }

    pub fn currency_code(&self) -> (r: u16)
        ensures
            r == self.currency_view().code_view(),
    {
        self.currency.raw()
    }

    pub fn date_time(&self) -> (r: &UtcTimestamp)
        ensures
            *r == self.date_time_view().raw_view().date_time,
    {
        self.date_time.raw().date_time()
    }

    pub fn date_time_component(&self) -> (r: &DateTimeComponent)
        ensures
            *r == *self.date_time_view(),
    {
        &self.date_time
    }

    /// Normalizes a transaction; it is rejected where its bank identifier code
    /// is malformed, its currency unknown, or its instant less than a day
    /// after the epoch.
    pub fn try_from(tx: RawTransaction) -> (r: Result<Self, FingerprintError>)
        ensures
            r is Ok <==> transaction_accepted(tx),
            !transaction_accepted(tx) ==> r == Err::<Self, FingerprintError>(
                FingerprintError::InvalidInput,
            ),
            r matches Ok(d) ==> {
                &&& d.bic_view().bic_view() == tx.bic@
                &&& d.amount_view().amount_view() == (tx.amount.amount_base, tx.amount.amount_atto)
                &&& d.currency_view().code_view() == tx.amount.currency
                &&& d.date_time_view().raw_view() == raw_datetime_of(tx)
                &&& d.digest_spec() == Some(transaction_digest(tx))
                &&& d.components_spec() == Some(transaction_bytes(tx))
                &&& forall|v: nat| #[trigger] d.fingerprint_value(v) == transaction_fingerprint(tx, v)
            },
    {
        if !crate::components::is_valid_bic(tx.bic.as_str()) {
            return Err(FingerprintError::InvalidInput);
        }
        if !is_known_currency(tx.amount.currency) {
            return Err(FingerprintError::InvalidInput);
        }
        let amount = (tx.amount.amount_base, tx.amount.amount_atto);
        let transaction_date = utc_day_of(tx.date_time.seconds);
        let raw = DateTimeRaw::new(tx.date_time, transaction_date, amount);
        let date_time = DateTimeComponent::new(raw);
        if date_time.squeeze().is_err() {
            return Err(FingerprintError::InvalidInput);
        }
        let ghost tx0 = tx;
        let r = Self {
            bic: BankIdentifierComponent::new(tx.bic),
            amount: AmountComponent::new(amount),
            currency: CurrencyComponent::new(tx.amount.currency),
            date_time,
        };
        assert(r.components_spec()->Some_0 =~= transaction_bytes(tx0));
        Ok(r)
    }
}

impl Fingerprint for TransactionFingerprintData {
    open spec fn digest_spec(&self) -> Option<nat> {
        self.date_time_view().squeeze_spec()
    }

    open spec fn components_spec(&self) -> Option<Seq<u8>> {
        match self.bic_view().encoding() {
            Some(b) => Some(
                fingerprint_prefix() + b + be_bytes(full_amount(self.amount_view().amount_view()), 32)
                    + self.currency_view().encoding()->Some_0,
            ),
            None => None,
        }
    }

    /// The squeeze of the prefix, the components and the evaluated digest.
    open spec fn fingerprint_value(&self, d: nat) -> nat {
        squeeze_bytes_spec(self.components_spec()->Some_0 + le_bytes_of(d))
    }

    fn datetime_fingerprint<P: FingerprintProtocol>(&self, via_protocol: &P) -> (r: Result<
        Scalar,
        FingerprintError,
    >) {
        let squeezed = self.date_time.squeeze()?;
        proof {
            squeezed.lemma_canonical();
        }
        via_protocol.process(&squeezed)
    }

    fn fingerprint(&self, date_time: &Scalar) -> (r: Result<Scalar, FingerprintError>) {
        let mut buffer: Vec<u8> = Vec::new();
        buffer.push(0xFF);
        buffer.push(0xFE);
        buffer.push(0xED);
        buffer.push(0xDD);
        buffer.push(0xCC);
        buffer.push(0x00);
        buffer.push(0xDD);
        buffer.push(0xEE);
        assert(buffer@ =~= fingerprint_prefix());
        self.bic.serialize(&mut buffer)?;
        self.amount.serialize(&mut buffer)?;
        self.currency.serialize(&mut buffer)?;
        let date_time = crate::components::ScalarComponent::new(*date_time);
        date_time.serialize(&mut buffer)?;
        proof {
            date_time.0.lemma_canonical();
            assert(buffer@ =~= self.components_spec()->Some_0 + le_bytes_of(date_time.0.val()));
        }
        Ok(buffer.squeeze())
    }

    fn complete_fingerprint<P: FingerprintProtocol>(&self, via_protocol: &P) -> (r: Result<
        Scalar,
        FingerprintError,
    >) {
        let date_time = self.datetime_fingerprint(via_protocol)?;
        self.fingerprint(&date_time)
    }
}

/// Normalization discards what the fingerprint must not see: transactions
/// that agree on the bank and country code, on the amount in atto units and on
/// the currency contribute the same bytes, and so get the same fingerprint for
/// the same evaluated digest; with the same instant as well they get the same
/// digest.
pub proof fn lemma_fingerprint_normalizes(tx1: RawTransaction, tx2: RawTransaction, d: nat)
    requires
        tx1.bic@.len() >= 6,
        tx2.bic@.len() >= 6,
        tx1.bic@.subrange(0, 6) == tx2.bic@.subrange(0, 6),
        full_amount((tx1.amount.amount_base, tx1.amount.amount_atto)) == full_amount(
            (tx2.amount.amount_base, tx2.amount.amount_atto),
        ),
        tx1.amount.currency == tx2.amount.currency,
    ensures
        transaction_bytes(tx1) == transaction_bytes(tx2),
        transaction_fingerprint(tx1, d) == transaction_fingerprint(tx2, d),
        tx1.date_time == tx2.date_time ==> transaction_digest(tx1) == transaction_digest(tx2),
{
    assert forall|i: int| 0 <= i < 6 implies tx1.bic@[i] == tx2.bic@[i] by {
        assert(tx1.bic@.subrange(0, 6)[i] == tx1.bic@[i]);
        assert(tx2.bic@.subrange(0, 6)[i] == tx2.bic@[i]);
    }
    assert(bic_prefix_bytes(tx1.bic@) =~= bic_prefix_bytes(tx2.bic@));
}

/// Fingerprints are deterministic: two normalizations of one transaction,
/// under one key, give the same fingerprint.
pub proof fn lemma_fingerprint_deterministic(
    t1: &TransactionFingerprintData,
    t2: &TransactionFingerprintData,
    key: &NaiveProtocol,
    f1: nat,
    f2: nat,
)
    requires
        t1.bic_view().bic_view() == t2.bic_view().bic_view(),
        t1.amount_view().amount_view() == t2.amount_view().amount_view(),
        t1.currency_view().code_view() == t2.currency_view().code_view(),
        t1.date_time_view().raw_view() == t2.date_time_view().raw_view(),
        t1.digest_spec() is Some,
        exists|d: nat|
            key.may_output(le_bytes_of(t1.digest_spec()->Some_0), d) && #[trigger] t1.fingerprint_value(d) == f1,
        exists|d: nat|
            key.may_output(le_bytes_of(t2.digest_spec()->Some_0), d) && #[trigger] t2.fingerprint_value(d) == f2,
    ensures
        f1 == f2,
{
    let d1 = choose|d: nat|
        key.may_output(le_bytes_of(t1.digest_spec()->Some_0), d) && #[trigger] t1.fingerprint_value(d) == f1;
    let d2 = choose|d: nat|
        key.may_output(le_bytes_of(t2.digest_spec()->Some_0), d) && #[trigger] t2.fingerprint_value(d) == f2;
    assert(d1 == d2);
}

} // verus!
