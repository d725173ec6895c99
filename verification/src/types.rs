//! The value types handed across the JavaScript boundary.

use vstd::prelude::*;
use bitcoin::absolute::LockTime as AbsoluteLockTime;

verus! {

/// Block heights are the lock-time values below this bound; values at or
/// above it are UNIX timestamps (bitcoin's `LOCK_TIME_THRESHOLD`).
pub const LOCK_TIME_THRESHOLD: u32 = 500_000_000;

/// An amount of bitcoin, in satoshis.
#[derive(Clone, Copy, Debug, PartialEq, Eq)]
pub struct Amount {
    pub sats: u64,
}

/// A reference to one output of a transaction.
#[derive(Clone, Debug, PartialEq, Eq)]
pub struct OutPoint {
    pub txid: String,
    pub vout: u32,
}

/// An absolute lock time: `lock_type` names the unit ("Blocks" or
/// "Seconds") and `value` is the consensus number.
#[derive(Clone, Debug, PartialEq, Eq)]
pub struct LockTime {
    pub lock_type: String,
    pub value: u32,
}

/// A public key in its serialized form.
#[derive(Clone, Debug, PartialEq, Eq)]
pub struct PublicKey {
    pub compressed: bool,
    pub inner: Vec<u8>,
}

/// A fidelity bond of a maker, as reported to callers.
#[derive(Clone, Debug, PartialEq, Eq)]
pub struct FidelityBond {
    pub outpoint: OutPoint,
    pub amount: Amount,
    pub lock_time: LockTime,
    pub pubkey: PublicKey,
    pub conf_height: Option<u32>,
    pub cert_expiry: Option<u32>,
    pub is_spent: bool,
}

/// Connection settings of a bitcoind RPC endpoint and the wallet to use there.
#[derive(Clone, Debug, PartialEq, Eq)]
pub struct RPCConfig {
    pub url: String,
    pub username: String,
    pub password: String,
    pub wallet_name: String,
}

/// Whether a consensus lock-time number denotes a block height.
pub open spec fn is_height_value(n: u32) -> bool {
    n < LOCK_TIME_THRESHOLD
}

/// The unit name under which a consensus lock-time number is reported.
pub open spec fn lock_unit_name(n: u32) -> Seq<char> {
    if is_height_value(n) {
        "Blocks"@
    } else {
        "Seconds"@
    }
}

/// The reported unit tells block heights from timestamps: two consensus
/// numbers are reported under the same unit exactly when both are heights or
/// both are timestamps.
pub proof fn lemma_unit_separates_heights_from_times(a: u32, b: u32)
    ensures
        (lock_unit_name(a) == lock_unit_name(b)) <==> (is_height_value(a) == is_height_value(b)),
{
    reveal_strlit("Blocks");
    reveal_strlit("Seconds");
    assert("Blocks"@.len() != "Seconds"@.len());
}

impl LockTime {
    /// Reports a consensus lock-time number with the unit it denotes.
    pub fn from_consensus(n: u32) -> (lt: LockTime)
        ensures
            lt.value == n,
            lt.lock_type@ == lock_unit_name(n),
            n < 500_000_000 ==> lt.lock_type@ == "Blocks"@,
            n >= 500_000_000 ==> lt.lock_type@ == "Seconds"@,
    {
        if n < LOCK_TIME_THRESHOLD {
            LockTime { lock_type: String::from_str("Blocks"), value: n }
        } else {
            LockTime { lock_type: String::from_str("Seconds"), value: n }
        }
    }
}

/// The lock-time type of the `bitcoin` crate, carried through opaquely.
#[verifier::external_type_specification]
#[verifier::external_body]
pub struct ExternalAbsoluteLockTime(AbsoluteLockTime);

/// The nLockTime number that a bitcoin lock time stands for: the height of
/// a block-height lock time, the timestamp of a time lock time.
pub uninterp spec fn lock_time_number(lt: AbsoluteLockTime) -> u32;

/// `bitcoin::absolute::LockTime::to_consensus_u32` returns the inner value of
/// the `Blocks` or `Seconds` variant, which is named `lock_time_number`.
pub assume_specification[ AbsoluteLockTime::to_consensus_u32 ](lt: AbsoluteLockTime) -> (n: u32)
    ensures
        n == lock_time_number(lt),
;

/// The consensus number of a bitcoin lock time.
fn consensus_number(lt: AbsoluteLockTime) -> (n: u32)
    ensures
        n == lock_time_number(lt),
{
    lt.to_consensus_u32()
}

impl From<AbsoluteLockTime> for LockTime {
    /// Reports a bitcoin lock time by its consensus number and the unit
    /// that number denotes.
    fn from(lt: AbsoluteLockTime) -> (r: LockTime)
        ensures
            r.value == lock_time_number(lt),
            r.lock_type@ == lock_unit_name(lock_time_number(lt)),
            lock_time_number(lt) < 500_000_000 ==> r.lock_type@ == "Blocks"@,
            lock_time_number(lt) >= 500_000_000 ==> r.lock_type@ == "Seconds"@,
    {
        LockTime::from_consensus(consensus_number(lt))
    }
}

/// Reporting a consensus number keeps the number, and labels it "Blocks"
/// when it is below 500,000,000 (a block height) and "Seconds" otherwise (a
/// UNIX timestamp); the two labels differ, so the label alone tells a height
/// from a timestamp.
pub proof fn law_from_consensus_labels_by_threshold(n: u32, lt: LockTime)
    requires
        call_ensures(LockTime::from_consensus, (n,), lt),
    ensures
        lt.value == n,
        n < 500_000_000 <==> lt.lock_type@ == "Blocks"@,
        n >= 500_000_000 <==> lt.lock_type@ == "Seconds"@,
{
    reveal_strlit("Blocks");
    reveal_strlit("Seconds");
    assert("Blocks"@.len() != "Seconds"@.len());
}

/// Converting a bitcoin lock time reports that lock time's own number, and
/// labels it "Blocks" exactly when the number is below 500,000,000 and
/// "Seconds" exactly when it is not.
pub proof fn law_from_bitcoin_keeps_number_and_unit(lt: AbsoluteLockTime, r: LockTime)
    requires
        call_ensures(<LockTime as From<AbsoluteLockTime>>::from, (lt,), r),
    ensures
        r.value == lock_time_number(lt),
        r.value < 500_000_000 <==> r.lock_type@ == "Blocks"@,
        r.value >= 500_000_000 <==> r.lock_type@ == "Seconds"@,
{
    reveal_strlit("Blocks");
    reveal_strlit("Seconds");
    assert("Blocks"@.len() != "Seconds"@.len());
}

/// A `String` has no constructor in spec code, so `from_spec` cannot spell
/// out the converted value; calls of `LockTime::from` get their contract
/// from the impl above.
impl vstd::std_specs::convert::FromSpecImpl<AbsoluteLockTime> for LockTime {
    open spec fn obeys_from_spec() -> bool {
        false
    }

    open spec fn from_spec(v: AbsoluteLockTime) -> LockTime {
        vstd::pervasive::arbitrary()
    }
}

} // verus!
