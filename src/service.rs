//! The client-facing fingerprint service: wire messages, their conversion to
//! transactions, and the single and batch methods.
use vstd::prelude::*;

use crate::compact::{base58_encode, Compact};
use crate::components::UtcTimestamp;
use crate::error::FingerprintError;
use crate::field::{le_bytes_of, Scalar};
use crate::fingerprint::{
    is_known_currency, iso4217_known, transaction_accepted, transaction_digest,
    transaction_fingerprint, Fingerprint, Money, RawTransaction, TransactionFingerprintData,
};
use crate::protocols::FingerprintProtocol;

verus! {

/// Whether chrono represents the instant `seconds` + `nanos` after the Unix epoch.
pub uninterp spec fn chrono_timestamp_valid(seconds: i64, nanos: u32) -> bool;

/// Relies on `chrono::DateTime::from_timestamp`, which is `None` exactly for
/// instants it cannot represent.
#[verifier::external_body]
fn chrono_accepts(seconds: i64, nanos: u32) -> (r: bool)
    ensures
        r == chrono_timestamp_valid(seconds, nanos),
{
    chrono::DateTime::from_timestamp(seconds, nanos).is_some()
}

/// A UTC instant on the wire.
#[derive(Clone, Copy, Debug)]
pub struct TimestampMessage {
    pub seconds: u64,
    pub nanos: u32,
}

/// An amount on the wire, with its ISO 4217 numeric currency code.
#[derive(Clone, Copy, Debug)]
pub struct MoneyMessage {
    pub currency: i32,
    pub units: u64,
    pub atto: u64,
}

/// A transaction on the wire.
#[derive(Clone, Debug)]
pub struct TransactionMessage {
    pub bic: String,
    pub amount: Option<MoneyMessage>,
    pub date_time: Option<TimestampMessage>,
}

/// A fingerprint on the wire: its 32 bytes and their base58 text.
#[derive(Clone, Debug)]
pub struct FingerprintMessage {
    pub fingerprint: Vec<u8>,
    pub compact_fingerprint: String,
}

/// One item of a batch request.
#[derive(Clone, Debug)]
pub struct BatchItem {
    pub item_id: u64,
    pub transaction_data: Option<TransactionMessage>,
}

/// One item of a batch response.
#[derive(Debug)]
pub struct BatchResponse {
    pub item_id: u64,
    pub fingerprint: Result<FingerprintMessage, FingerprintError>,
}

/// The transaction that a wire message stands for, where it stands for one:
/// both parts present, the seconds fit an `i64` that chrono represents, and
/// the currency is a known 16-bit code.
pub open spec fn transaction_of_message(m: TransactionMessage) -> Option<RawTransaction> {
    match (m.amount, m.date_time) {
        (Some(a), Some(t)) => if t.seconds <= i64::MAX && chrono_timestamp_valid(
            t.seconds as i64,
            t.nanos,
        ) && 0 <= a.currency <= u16::MAX && iso4217_known(a.currency as u16) {
            Some(
                RawTransaction {
                    bic: m.bic,
                    amount: Money {
                        amount_base: a.units,
                        amount_atto: a.atto,
                        currency: a.currency as u16,
                    },
                    date_time: UtcTimestamp { seconds: t.seconds as i64, nanos: t.nanos },
                },
            )
        } else {
            None
        },
        _ => None,
    }
}

/// Converts a wire message into a transaction; what it cannot stand for is
/// `InvalidInput`.
pub fn transaction_from_message(m: TransactionMessage) -> (r: Result<RawTransaction, FingerprintError>)
    ensures
        match transaction_of_message(m) {
            Some(tx) => r == Ok::<RawTransaction, FingerprintError>(tx),
            None => r == Err::<RawTransaction, FingerprintError>(FingerprintError::InvalidInput),
        },
{
    let ghost m0 = m;
    let date_time = match m.date_time {
        Some(t) => t,
        None => return Err(FingerprintError::InvalidInput),
    };
    let amount = match m.amount {
        Some(a) => a,
        None => return Err(FingerprintError::InvalidInput),
    };
    if date_time.seconds > 0x7FFF_FFFF_FFFF_FFFF {
        return Err(FingerprintError::InvalidInput);
    }
    let seconds = date_time.seconds as i64;
    if !chrono_accepts(seconds, date_time.nanos) {
        return Err(FingerprintError::InvalidInput);
    }
    if amount.currency < 0 || amount.currency > 0xFFFF {
        return Err(FingerprintError::InvalidInput);
    }
    let currency = amount.currency as u16;
    if !is_known_currency(currency) {
        return Err(FingerprintError::InvalidInput);
    }
    Ok(RawTransaction {
        bic: m.bic,
        amount: Money { amount_base: amount.units, amount_atto: amount.atto, currency },
        date_time: UtcTimestamp { seconds, nanos: date_time.nanos },
    })
}

/// The wire form of a fingerprint.
pub fn fingerprint_message(fingerprint: &Scalar) -> (r: FingerprintMessage)
    requires
        fingerprint.wf(),
    ensures
        r.fingerprint@ == fingerprint.bytes_view(),
        r.compact_fingerprint@ == base58_encode(fingerprint.bytes_view()),
{
    let bytes = fingerprint.to_bytes();
    let mut out: Vec<u8> = Vec::new();
    let mut k: usize = 0;
    while k < 32
        invariant
            k <= 32,
            out@ == bytes@.subrange(0, k as int),
        decreases 32 - k,
    {
        out.push(bytes[k]);
        k = k + 1;
        assert(out@ =~= bytes@.subrange(0, k as int));
    }
    assert(bytes@.subrange(0, 32) =~= bytes@);
    FingerprintMessage { fingerprint: out, compact_fingerprint: fingerprint.compact() }
}

/// The fingerprint service over an evaluator.
pub struct FingerprintService<P: FingerprintProtocol> {
    protocol: P,
}

impl<P: FingerprintProtocol> FingerprintService<P> {
    pub closed spec fn protocol_view(&self) -> &P {
        &self.protocol
    }

    /// `b` encodes the fingerprint of `tx` for some output that the evaluator
    /// may give for the transaction's digest.
    pub open spec fn may_fingerprint(&self, tx: RawTransaction, b: Seq<u8>) -> bool {
        exists|d: nat|
            self.protocol_view().may_output(le_bytes_of(transaction_digest(tx)), d) && b
                == le_bytes_of(#[trigger] transaction_fingerprint(tx, d))
    }

    /// What a single request may come to: a missing, unconvertible or rejected
    /// transaction is `InvalidInput`; for an accepted one the evaluator's error
    /// is passed on, and it succeeds where the evaluator cannot fail; a success
    /// carries a fingerprint of the transaction and its base58 text.
    pub open spec fn single_outcome(
        &self,
        transaction_data: Option<TransactionMessage>,
        r: Result<FingerprintMessage, FingerprintError>,
    ) -> bool {
        let tx = match transaction_data {
            Some(m) => transaction_of_message(m),
            None => None,
        };
        &&& (tx is None || !transaction_accepted(tx->Some_0)) ==> r == Err::<
            FingerprintMessage,
            FingerprintError,
        >(FingerprintError::InvalidInput)
        &&& (tx is Some && transaction_accepted(tx->Some_0) && self.protocol_view().infallible())
            ==> r is Ok
        &&& (tx is Some && transaction_accepted(tx->Some_0)) ==> (r matches Err(e)
            ==> self.protocol_view().may_fail_with(e))
        &&& r matches Ok(msg) ==> tx is Some && self.may_fingerprint(tx->Some_0, msg.fingerprint@)
            && msg.compact_fingerprint@ == base58_encode(msg.fingerprint@)
    }

    pub fn new(protocol: P) -> (r: FingerprintService<P>)
        ensures
            *r.protocol_view() == protocol,
    {
        FingerprintService { protocol }
    }

    /// The fingerprint of one transaction. A missing, unconvertible or rejected
    /// transaction is `InvalidInput`; a failed evaluation is passed on.
    pub fn compute_single_fingerprint(&self, transaction_data: Option<TransactionMessage>) -> (r:
        Result<FingerprintMessage, FingerprintError>)
        requires
            self.protocol_view().protocol_wf(),
        ensures
            self.single_outcome(transaction_data, r),
    {
        let message = match transaction_data {
            Some(m) => m,
            None => return Err(FingerprintError::InvalidInput),
        };
        let ghost m0 = message;
        let raw_tx = match transaction_from_message(message) {
            Ok(t) => t,
            Err(e) => return Err(e),
        };
        let ghost tx0 = raw_tx;
        assert(transaction_of_message(m0) == Some(tx0));
        let data = match TransactionFingerprintData::try_from(raw_tx) {
            Ok(d) => d,
            Err(e) => return Err(e),
        };
        let fingerprint = match data.complete_fingerprint(&self.protocol) {
            Ok(f) => f,
            Err(e) => return Err(e),
        };
        let msg = fingerprint_message(&fingerprint);
        proof {
            fingerprint.lemma_canonical();
            let d = choose|d: nat|
                self.protocol.may_output(le_bytes_of(data.digest_spec()->Some_0), d)
                    && #[trigger] data.fingerprint_value(d) == fingerprint.val();
            assert(data.fingerprint_value(d) == transaction_fingerprint(tx0, d));
            assert(self.protocol_view().may_output(le_bytes_of(transaction_digest(tx0)), d));
            assert(msg.fingerprint@ == le_bytes_of(transaction_fingerprint(tx0, d)));
            assert(self.may_fingerprint(tx0, msg.fingerprint@));
        }
        Ok(msg)
    }

    /// The fingerprints of a batch, each paired with its item's id, in the
    /// order of the items.
    pub fn compute_batch_fingerprint(&self, transaction_batch: Vec<BatchItem>) -> (r: Vec<
        BatchResponse,
    >)
        requires
            self.protocol_view().protocol_wf(),
        ensures
            r@.len() == transaction_batch@.len(),
            forall|k: int|
                0 <= k < r@.len() ==> (#[trigger] r@[k]).item_id == transaction_batch@[k].item_id
                    && self.single_outcome(transaction_batch@[k].transaction_data, r@[k].fingerprint),
    {
        let mut responses: Vec<BatchResponse> = Vec::new();
        let mut k: usize = 0;
        while k < transaction_batch.len()
            invariant
                k <= transaction_batch@.len(),
                self.protocol_view().protocol_wf(),
                responses@.len() == k,
                forall|m: int|
                    0 <= m < k ==> (#[trigger] responses@[m]).item_id
                        == transaction_batch@[m].item_id && self.single_outcome(
                        transaction_batch@[m].transaction_data,
                        responses@[m].fingerprint,
                    ),
            decreases transaction_batch@.len() - k,
        {
            let item = &transaction_batch[k];
            let data = match &item.transaction_data {
                Some(m) => Some(
                    TransactionMessage { bic: m.bic.clone(), amount: m.amount, date_time: m.date_time },
                ),
                None => None,
            };
            assert(data == item.transaction_data) by {
                if data is Some {
                    assert(data->Some_0.bic@ == item.transaction_data->Some_0.bic@);
                }
            }
            let fingerprint = self.compute_single_fingerprint(data);
            responses.push(BatchResponse { item_id: item.item_id, fingerprint });
            k = k + 1;
        }
        responses
    }
}

} // verus!
