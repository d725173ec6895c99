use bitcoin::absolute::LockTime as csLockTime;
use coinswap_js::types::{Amount, FidelityBond, LockTime, OutPoint, PublicKey};

#[test]
fn test_locktime_conversion_basic() {
    let block_locktime = csLockTime::from_height(500000).unwrap();
    let napi_block = LockTime::from(block_locktime);

    let time_locktime = csLockTime::from_time(1234567890).unwrap();
    let napi_time = LockTime::from(time_locktime);

    println!("From Rust -> Javascript : ");
    println!("Block locktime: {:?} -> {:?}", block_locktime, napi_block);
    println!("Time locktime: {:?} -> {:?}", time_locktime, napi_time);
}

#[test]
fn test_fidelity_bond_creation() {
    // Create a mock fidelity bond to see the structure
    let bond = FidelityBond {
        outpoint: OutPoint {
            txid: "abc123def456789".to_string(),
            vout: 0,
        },
        amount: Amount { sats: 100000 },
        lock_time: LockTime {
            lock_type: "Blocks".to_string(),
            value: 750000,
        },
        pubkey: PublicKey {
            compressed: true,
            inner: vec![2, 123, 45, 67, 89],
        },
        conf_height: Some(500000),
        cert_expiry: Some(144),
        is_spent: false,
    };

    println!("FidelityBond structure:");
    println!("  outpoint: {}:{}", bond.outpoint.txid, bond.outpoint.vout);
    println!("  amount: {} sats", bond.amount.sats);
    println!("  lock_time: {:?}", bond.lock_time);
    println!("  pubkey compressed: {}", bond.pubkey.compressed);
    println!("  pubkey bytes: {:?}", bond.pubkey.inner);
    println!("  conf_height: {:?}", bond.conf_height);
    println!("  cert_expiry: {:?}", bond.cert_expiry);
    println!("  is_spent: {}", bond.is_spent);
}

#[test]
fn block_height_lock_time_is_reported_in_blocks() {
    let lt = LockTime::from(csLockTime::from_height(500000).unwrap());
    assert_eq!(lt.lock_type, "Blocks");
    assert_eq!(lt.value, 500000);
}

#[test]
fn timestamp_lock_time_is_reported_in_seconds() {
    let lt = LockTime::from(csLockTime::from_time(1234567890).unwrap());
    assert_eq!(lt.lock_type, "Seconds");
    assert_eq!(lt.value, 1234567890);
}

#[test]
fn zero_lock_time_is_a_block_height() {
    let lt = LockTime::from(csLockTime::ZERO);
    assert_eq!(lt.lock_type, "Blocks");
    assert_eq!(lt.value, 0);
}

#[test]
fn consensus_numbers_split_at_the_threshold() {
    let below = LockTime::from_consensus(499_999_999);
    assert_eq!(below.lock_type, "Blocks");
    assert_eq!(below.value, 499_999_999);
    let at = LockTime::from_consensus(500_000_000);
    assert_eq!(at.lock_type, "Seconds");
    assert_eq!(at.value, 500_000_000);
    let max = LockTime::from_consensus(u32::MAX);
    assert_eq!(max.lock_type, "Seconds");
    assert_eq!(max.value, u32::MAX);
}

#[test]
fn conversion_agrees_with_bitcoin_consensus_decoding() {
    for n in [0u32, 1, 741521, 499_999_999, 500_000_000, 1653195600, u32::MAX] {
        let theirs = csLockTime::from_consensus(n);
        let ours = LockTime::from(theirs);
        assert_eq!(ours.value, n);
        let unit = if theirs.is_block_height() { "Blocks" } else { "Seconds" };
        assert_eq!(ours.lock_type, unit);
    }
}
