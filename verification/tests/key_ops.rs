use dual_hash_key::DualHashKey;

#[test]
fn construct_from_pair_reads_back() {
    let cases: [(u32, u32); 5] = [
        (5, 7),
        (0, 3),
        (9, 0),
        (u32::MAX, u32::MAX),
        (1, u32::MAX),
    ];
    for (high, low) in cases {
        let key = DualHashKey::from_raw_dual(high, low).unwrap();
        assert_eq!(key.get_hash_high_half(), high);
        assert_eq!(key.get_hash_low_half(), low);
        assert_eq!(key.get_hash_raw(), ((high as u64) << 32) | (low as u64));
    }
}

#[test]
fn construct_from_zero_pair_fails() {
    assert!(DualHashKey::from_raw_dual(0, 0).is_none());
    assert!(DualHashKey::from_raw(0).is_none());
    assert!(DualHashKey::from_raw_high(0).is_none());
}

#[test]
fn bounds_share_high_half() {
    let key = DualHashKey::from_raw_dual(0xDEAD_BEEF, 0x1234_5678).unwrap();
    let min = key.get_hash_low_half_min().unwrap();
    let max = key.get_hash_low_half_max();
    assert_eq!(min.get_hash_high_half(), key.get_hash_high_half());
    assert_eq!(max.get_hash_high_half(), key.get_hash_high_half());
    assert_eq!(min.get_hash_low_half(), 0);
    assert_eq!(max.get_hash_low_half(), u32::MAX);
}

#[test]
fn min_bound_fails_only_on_zero_high_half() {
    let zero_high = DualHashKey::from_raw_dual(0, 42).unwrap();
    assert!(zero_high.get_hash_low_half_min().is_none());
    let nonzero_high = DualHashKey::from_raw_dual(1, 42).unwrap();
    assert!(nonzero_high.get_hash_low_half_min().is_some());
}

#[test]
fn max_bound_never_fails() {
    let keys = [
        DualHashKey::from_raw_dual(0, 1).unwrap(),
        DualHashKey::from_raw_dual(1, 0).unwrap(),
        DualHashKey::from_raw(u64::MAX).unwrap(),
    ];
    for key in keys {
        let max = key.get_hash_low_half_max();
        assert_eq!(max.get_hash_low_half(), u32::MAX);
        assert_eq!(max.get_hash_high_half(), key.get_hash_high_half());
        assert_ne!(max.get_hash_raw(), 0);
    }
}

#[test]
fn order_follows_halves() {
    let a = DualHashKey::from_raw_dual(3, 10).unwrap();
    let b = DualHashKey::from_raw_dual(3, 20).unwrap();
    let c = DualHashKey::from_raw_dual(4, 0).unwrap();
    let d = DualHashKey::from_raw_dual(2, u32::MAX).unwrap();
    // Equal high halves order by the low half.
    assert!(a < b);
    // Differing high halves order by the high half, whatever the lows.
    assert!(b < c);
    assert!(d < a);
    assert!(d < c);
}

#[test]
fn swap_is_an_involution() {
    let cases: [(u32, u32); 4] = [(5, 7), (0, 3), (9, 0), (u32::MAX, 1)];
    for (high, low) in cases {
        let key = DualHashKey::from_raw_dual(high, low).unwrap();
        let once = key.swapped().expect("swap of a valid key never fails");
        assert_eq!(once.get_hash_high_half(), low);
        assert_eq!(once.get_hash_low_half(), high);
        let twice = once.swapped().expect("swap of a valid key never fails");
        assert_eq!(twice, key);
    }
}

#[test]
fn half_replacement_keeps_the_other_half() {
    let key = DualHashKey::from_raw_dual(0xAAAA_0001, 0xBBBB_0002).unwrap();
    let new_high = key.with_high_half_raw(0xCCCC_0003).unwrap();
    assert_eq!(new_high.get_hash_high_half(), 0xCCCC_0003);
    assert_eq!(new_high.get_hash_low_half(), 0xBBBB_0002);
    let new_low = key.with_low_half_raw(0xDDDD_0004).unwrap();
    assert_eq!(new_low.get_hash_high_half(), 0xAAAA_0001);
    assert_eq!(new_low.get_hash_low_half(), 0xDDDD_0004);
    // Replacement fails only when the preserved half and the new half
    // are both zero.
    let low_only = DualHashKey::from_raw_dual(0, 8).unwrap();
    assert!(low_only.with_low_half_raw(0).is_none());
    assert!(low_only.with_high_half_raw(0).is_some());
    let high_only = DualHashKey::from_raw_dual(8, 0).unwrap();
    assert!(high_only.with_high_half_raw(0).is_none());
    assert!(high_only.with_low_half_raw(0).is_some());
}

#[test]
fn range_scan_returns_exactly_the_shared_high_half() {
    let shared: u32 = 0x0BAD_CAFE;
    let mut keys: Vec<DualHashKey> = Vec::new();
    for low in [0u32, 3, 90, 4096, u32::MAX] {
        keys.push(DualHashKey::from_raw_dual(shared, low).unwrap());
    }
    for (high, low) in [(1u32, 3u32), (shared - 1, u32::MAX), (shared + 1, 0), (0, 7)] {
        keys.push(DualHashKey::from_raw_dual(high, low).unwrap());
    }
    keys.sort();

    let probe = DualHashKey::from_raw_dual(shared, 1234).unwrap();
    let min = probe.get_hash_low_half_min_raw();
    let max = probe.get_hash_low_half_max_raw();
    let scanned: Vec<DualHashKey> = keys
        .iter()
        .copied()
        .filter(|k| min <= k.get_hash_raw() && k.get_hash_raw() <= max)
        .collect();

    assert_eq!(scanned.len(), 5);
    let mut expected_lows = vec![0u32, 3, 90, 4096, u32::MAX];
    expected_lows.sort();
    for (key, low) in scanned.iter().zip(expected_lows) {
        assert_eq!(key.get_hash_high_half(), shared);
        assert_eq!(key.get_hash_low_half(), low);
    }
}

#[test]
fn unchecked_and_word_constructors_round_trip() {
    let key = DualHashKey::from_raw_unchecked(0x0000_0001_0000_0002);
    assert_eq!(key.get_hash_high_half(), 1);
    assert_eq!(key.get_hash_low_half(), 2);
    let word = key.get_hash();
    let again = DualHashKey::from_word(word);
    assert_eq!(again, key);
    assert_eq!(word.get(), key.get_hash_raw());
}

#[test]
fn min_and_max_keys_bound_every_key() {
    let min = DualHashKey::min_key();
    let max = DualHashKey::max_key();
    assert_eq!(min.get_hash_raw(), 1);
    assert_eq!(max.get_hash_raw(), u64::MAX);
    let key = DualHashKey::from_raw_dual(0xDEAD_BEEF, 0x1234_5678).unwrap();
    assert!(min <= key && key <= max);
    // The fallback lower bound for a scan whose minimum bound fails.
    let zero_high = DualHashKey::from_raw_dual(0, 9).unwrap();
    assert!(zero_high.get_hash_low_half_min().is_none());
    assert!(min <= zero_high);
    assert!(zero_high <= zero_high.get_hash_low_half_max());
}

#[test]
fn low_half_flag_accessors_agree() {
    let set = DualHashKey::from_raw_dual(4, 4).unwrap();
    assert!(set.is_hash_low_half_set());
    assert!(!set.is_hash_low_half_clear());
    let clear = DualHashKey::from_raw_dual(4, 0).unwrap();
    assert!(!clear.is_hash_low_half_set());
    assert!(clear.is_hash_low_half_clear());
    assert_eq!(clear.get_hash_low_half_min_raw(), clear.get_hash_raw());
    assert_eq!(set.get_hash_low_half_max_raw(), 4u64 << 32 | u32::MAX as u64);
}
