use nft_staking2::{
    claim, reward_for, stake, stake_with_symbol, symbol_whitelisted, unstake, CustomError, Pubkey,
    StakeInfo,
};

fn key(n: u64) -> Pubkey {
    Pubkey::new(n, n + 1, n + 2, n + 3)
}

/// Serialized asset-metadata record carrying the given collection symbol,
/// laid out as the metadata program writes it.
fn metadata_bytes(symbol: &str) -> Vec<u8> {
    let mut v: Vec<u8> = vec![4u8]; // record kind: metadata
    v.extend([7u8; 32]); // update authority
    v.extend([9u8; 32]); // mint
    let name = b"Some Asset";
    v.extend((name.len() as u32).to_le_bytes());
    v.extend(name);
    v.extend((symbol.len() as u32).to_le_bytes());
    v.extend(symbol.as_bytes());
    let uri = b"https://example.invalid/asset.json";
    v.extend((uri.len() as u32).to_le_bytes());
    v.extend(uri);
    v.extend(500u16.to_le_bytes()); // seller fee basis points
    v.push(0); // no creators
    v.push(0); // primary sale not happened
    v.push(1); // mutable
    v.extend([0u8; 5]); // edition nonce, token standard, collection, uses, details
    v.push(0); // programmable config
    v
}

#[test]
fn space_is_linear_in_entry_count() {
    assert_eq!(StakeInfo::space(0), 52);
    assert_eq!(StakeInfo::space(1), 52 + 41);
    assert_eq!(StakeInfo::space(3), 52 + 3 * 41);
    for n in 0..10 {
        assert_eq!(StakeInfo::space_external(n), StakeInfo::space(n));
    }
}

#[test]
fn whitelist_accepts_exactly_the_five_symbols() {
    for s in ["CLB", "UG", "GOTM", "GREATGOATS", "CNDY"] {
        assert!(symbol_whitelisted(&s.to_string()));
    }
    for s in ["", "clb", "XYZ", "GREATGOAT", "CNDY "] {
        assert!(!symbol_whitelisted(&s.to_string()));
    }
}

#[test]
fn reward_formula_exact_values() {
    assert_eq!(reward_for(0), 0);
    assert_eq!(reward_for(86400), 5_000_000_000);
    assert_eq!(reward_for(43200), 2_500_000_000);
    assert_eq!(reward_for(2 * 86400), 10_000_000_000);
    assert_eq!(reward_for(1), 57_870); // floor(5e9 / 86400)
}

#[test]
fn reward_is_monotone_in_elapsed_time() {
    let mut prev = 0u64;
    for e in [0u64, 1, 100, 86399, 86400, 86401, 10_000_000] {
        let r = reward_for(e);
        assert!(r >= prev);
        prev = r;
    }
}

#[test]
fn first_stake_establishes_owner_and_appends() {
    let mut account = StakeInfo::new();
    let owner = key(1);
    let r = stake_with_symbol(
        &mut account,
        owner,
        2,
        0,
        key(10),
        &"CLB".to_string(),
        1000,
        0,
        93,
    );
    let actions = r.unwrap();
    assert_eq!(actions.new_space, 93);
    assert_eq!(actions.deposit_top_up, 93);
    assert_eq!(account.owner, Some(owner));
    assert_eq!(account.collections, vec![2]);
    assert_eq!(account.mints, vec![key(10)]);
    assert_eq!(account.staked_times, vec![1000]);
}

#[test]
fn stake_covers_deposit_shortfall_only() {
    let mut account = StakeInfo::new();
    let owner = key(1);
    let r = stake_with_symbol(
        &mut account,
        owner,
        0,
        0,
        key(10),
        &"UG".to_string(),
        0,
        200,
        93,
    );
    assert_eq!(r.unwrap().deposit_top_up, 0);
}

#[test]
fn stake_rejects_foreign_symbol_with_incorrect_collection() {
    let mut account = StakeInfo::new();
    let r = stake_with_symbol(
        &mut account,
        key(1),
        0,
        0,
        key(10),
        &"XYZ".to_string(),
        0,
        0,
        0,
    );
    assert_eq!(r, Err(CustomError::IncorrectCollection));
    assert_eq!(account.mints.len(), 0);
    assert_eq!(account.owner, None);
}

#[test]
fn each_whitelisted_symbol_stakes_successfully() {
    for (i, s) in ["CLB", "UG", "GOTM", "GREATGOATS", "CNDY"].iter().enumerate() {
        let mut account = StakeInfo::new();
        let r = stake_with_symbol(
            &mut account,
            key(1),
            i as u8,
            0,
            key(10 + i as u64),
            &s.to_string(),
            5,
            0,
            0,
        );
        assert!(r.is_ok());
        assert_eq!(account.mints.len(), 1);
    }
}

#[test]
fn stake_rejects_stale_expected_count_with_incorrect_size() {
    let mut account = StakeInfo::new();
    let owner = key(1);
    stake_with_symbol(&mut account, owner, 0, 0, key(10), &"CLB".to_string(), 0, 0, 0).unwrap();
    let r = stake_with_symbol(&mut account, owner, 0, 0, key(11), &"CLB".to_string(), 0, 0, 0);
    assert_eq!(r, Err(CustomError::IncorrectSize));
    assert_eq!(account.mints.len(), 1);
    let r = stake_with_symbol(&mut account, owner, 0, 2, key(11), &"CLB".to_string(), 0, 0, 0);
    assert_eq!(r, Err(CustomError::IncorrectSize));
    let r = stake_with_symbol(&mut account, owner, 0, 1, key(11), &"CLB".to_string(), 0, 0, 0);
    assert!(r.is_ok());
}

#[test]
fn stake_decodes_symbol_from_metadata_record() {
    let mut account = StakeInfo::new();
    let bytes = metadata_bytes("GOTM");
    let r = stake(&mut account, key(1), 3, 0, key(10), &bytes, 42, 0, 0);
    assert!(r.is_ok());
    assert_eq!(account.collections, vec![3]);
    assert_eq!(account.staked_times, vec![42]);
}

#[test]
fn stake_rejects_metadata_with_foreign_symbol() {
    let mut account = StakeInfo::new();
    let bytes = metadata_bytes("BORK");
    let r = stake(&mut account, key(1), 3, 0, key(10), &bytes, 42, 0, 0);
    assert_eq!(r, Err(CustomError::IncorrectCollection));
    assert_eq!(account.mints.len(), 0);
}

#[test]
fn stake_rejects_malformed_metadata() {
    let mut account = StakeInfo::new();
    let r = stake(&mut account, key(1), 3, 0, key(10), &[1, 2, 3], 42, 0, 0);
    assert_eq!(r, Err(CustomError::IncorrectCollection));
}

#[test]
fn only_established_owner_may_mutate() {
    let mut account = StakeInfo::new();
    let owner = key(1);
    let intruder = key(50);
    stake_with_symbol(&mut account, owner, 0, 0, key(10), &"CLB".to_string(), 0, 0, 0).unwrap();
    let r = stake_with_symbol(
        &mut account,
        intruder,
        0,
        1,
        key(11),
        &"CLB".to_string(),
        0,
        0,
        0,
    );
    assert_eq!(r, Err(CustomError::Unauthorized));
    assert_eq!(unstake(&mut account, intruder, key(10), 10), Err(CustomError::Unauthorized));
    assert_eq!(claim(&mut account, intruder, 10), Err(CustomError::Unauthorized));
    assert_eq!(account.owner, Some(owner));
    assert_eq!(account.mints.len(), 1);
}

#[test]
fn unstake_pays_one_day_reward_and_removes_entry() {
    let mut account = StakeInfo::new();
    let owner = key(1);
    stake_with_symbol(&mut account, owner, 0, 0, key(10), &"CNDY".to_string(), 0, 0, 0).unwrap();
    let actions = unstake(&mut account, owner, key(10), 86400).unwrap();
    assert_eq!(actions.reward, 5_000_000_000);
    assert_eq!(actions.new_space, 52);
    assert_eq!(account.mints.len(), 0);
    assert_eq!(account.owner, Some(owner));
}

#[test]
fn unstake_of_unknown_asset_reports_mint_not_found() {
    let mut account = StakeInfo::new();
    let owner = key(1);
    stake_with_symbol(&mut account, owner, 0, 0, key(10), &"CLB".to_string(), 0, 0, 0).unwrap();
    assert_eq!(unstake(&mut account, owner, key(99), 100), Err(CustomError::MintNotFound));
    assert_eq!(account.mints.len(), 1);
}

#[test]
fn unstake_middle_entry_keeps_first_and_third_in_order() {
    let mut account = StakeInfo::new();
    let owner = key(1);
    for (i, m) in [key(10), key(20), key(30)].into_iter().enumerate() {
        stake_with_symbol(
            &mut account,
            owner,
            i as u8,
            i as u64,
            m,
            &"CLB".to_string(),
            100 + i as i64,
            0,
            0,
        )
        .unwrap();
    }
    unstake(&mut account, owner, key(20), 200).unwrap();
    assert_eq!(account.collections, vec![0, 2]);
    assert_eq!(account.mints, vec![key(10), key(30)]);
    assert_eq!(account.staked_times, vec![100, 102]);
}

#[test]
fn parallel_fields_stay_equal_across_a_history() {
    let mut account = StakeInfo::new();
    let owner = key(1);
    let mut staked = 0u64;
    let mut unstaked = 0u64;
    for i in 0..5u64 {
        stake_with_symbol(
            &mut account,
            owner,
            i as u8,
            i,
            key(10 * (i + 1)),
            &"UG".to_string(),
            i as i64,
            0,
            0,
        )
        .unwrap();
        staked += 1;
    }
    for m in [key(30), key(10)] {
        unstake(&mut account, owner, m, 10).unwrap();
        unstaked += 1;
    }
    assert_eq!(account.collections.len(), account.mints.len());
    assert_eq!(account.staked_times.len(), account.mints.len());
    assert_eq!(account.mints.len() as u64, staked - unstaked);
}

#[test]
fn claim_pays_each_entry_and_resets_timestamps() {
    let mut account = StakeInfo::new();
    let owner = key(1);
    stake_with_symbol(&mut account, owner, 0, 0, key(10), &"CLB".to_string(), 0, 0, 0).unwrap();
    stake_with_symbol(&mut account, owner, 1, 1, key(20), &"UG".to_string(), 43200, 0, 0)
        .unwrap();
    let payouts = claim(&mut account, owner, 86400).unwrap();
    assert_eq!(payouts, vec![5_000_000_000, 2_500_000_000]);
    assert_eq!(account.staked_times, vec![86400, 86400]);
    assert_eq!(account.mints.len(), 2);
}

#[test]
fn second_claim_with_no_elapsed_time_pays_zero() {
    let mut account = StakeInfo::new();
    let owner = key(1);
    stake_with_symbol(&mut account, owner, 0, 0, key(10), &"CLB".to_string(), 0, 0, 0).unwrap();
    stake_with_symbol(&mut account, owner, 1, 1, key(20), &"GOTM".to_string(), 100, 0, 0)
        .unwrap();
    let first = claim(&mut account, owner, 86400).unwrap();
    assert!(first.iter().any(|&p| p > 0));
    let second = claim(&mut account, owner, 86400).unwrap();
    assert_eq!(second, vec![0, 0]);
}

#[test]
fn find_by_asset_returns_first_matching_index() {
    let mut account = StakeInfo::new();
    let owner = key(1);
    stake_with_symbol(&mut account, owner, 0, 0, key(10), &"CLB".to_string(), 0, 0, 0).unwrap();
    stake_with_symbol(&mut account, owner, 1, 1, key(20), &"UG".to_string(), 0, 0, 0).unwrap();
    assert_eq!(account.find_by_asset(key(10)), Some(0));
    assert_eq!(account.find_by_asset(key(20)), Some(1));
    assert_eq!(account.find_by_asset(key(99)), None);
}

#[test]
fn ensure_owner_establishes_once_then_guards() {
    let mut account = StakeInfo::new();
    assert_eq!(account.ensure_owner(key(1)), Ok(()));
    assert_eq!(account.owner, Some(key(1)));
    assert_eq!(account.ensure_owner(key(1)), Ok(()));
    assert_eq!(account.ensure_owner(key(2)), Err(CustomError::Unauthorized));
    assert_eq!(account.owner, Some(key(1)));
}

#[test]
fn claim_on_empty_record_succeeds_trivially() {
    let mut account = StakeInfo::new();
    let owner = key(1);
    stake_with_symbol(&mut account, owner, 0, 0, key(10), &"CLB".to_string(), 0, 0, 0).unwrap();
    unstake(&mut account, owner, key(10), 5).unwrap();
    let payouts = claim(&mut account, owner, 10).unwrap();
    assert!(payouts.is_empty());
}
