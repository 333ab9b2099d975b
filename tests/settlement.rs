use phoenix_bonds::accrual::{AccrualConfig, AccrualParameter};
use phoenix_bonds::bond_note::BondStatus;
use phoenix_bonds::contract::{PhoenixBonds, StakeOutcome};
use phoenix_bonds::errors::BondError;
use phoenix_bonds::metadata::ContractSourceMetadataTrait;
use phoenix_bonds::mock_linear::{MockLinear, StakeError};
use phoenix_bonds::pricing::accrued_value;
use phoenix_bonds::types::{
    BOND_STORAGE_DEPOSIT, GAS_BOND, GAS_BOND_CALLBACK, GAS_DEPOSIT_AND_STAKE, ONE_NEAR, ONE_PNEAR,
    TGAS,
};

const ONE_DAY_MS: u64 = 24 * 3600 * 1000;
const GAS: u64 = 300 * TGAS;

fn config() -> AccrualConfig {
    AccrualConfig {
        alpha: 30 * ONE_DAY_MS,
        min_alpha: ONE_DAY_MS,
        target_mean_length: 15 * ONE_DAY_MS,
        adjust_interval: ONE_DAY_MS,
        adjust_rate: 100,
    }
}

fn owner() -> String {
    "owner".to_string()
}

fn alice() -> String {
    "alice".to_string()
}

fn bob() -> String {
    "bob".to_string()
}

fn contract() -> PhoenixBonds {
    PhoenixBonds::new(owner(), "linear".to_string(), 100, 10, 0, config()).unwrap()
}

/// Bonds `amount` of principal for `user` at `now`, staked 1:1.
fn bond(c: &mut PhoenixBonds, user: &String, amount: u128, now: u64) -> u32 {
    let bond_amount = c.bond(GAS, amount + BOND_STORAGE_DEPOSIT).unwrap();
    assert_eq!(bond_amount, amount);
    match c.on_staked(user, bond_amount, Some(bond_amount), now).unwrap() {
        StakeOutcome::Bonded(id) => id,
        StakeOutcome::Refund(_) => panic!("stake failed"),
    }
}

#[test]
fn new_rejects_bad_settings() {
    assert!(matches!(
        PhoenixBonds::new(owner(), "linear".to_string(), 100, 10, 10, config()),
        Err(BondError::BadTimestamp)
    ));
    assert!(matches!(
        PhoenixBonds::new(owner(), "linear".to_string(), 10000, 10, 0, config()),
        Err(BondError::InvalidConfig)
    ));
    let bad = AccrualConfig { min_alpha: 0, ..config() };
    assert!(matches!(
        PhoenixBonds::new(owner(), "linear".to_string(), 100, 10, 0, bad),
        Err(BondError::InvalidConfig)
    ));
}

#[test]
fn bond_validation() {
    let mut c = contract();
    let low_gas = GAS_BOND + GAS_DEPOSIT_AND_STAKE + GAS_BOND_CALLBACK - 1;
    assert_eq!(c.bond(low_gas, ONE_NEAR), Err(BondError::InsufficientBudget));
    assert_eq!(c.bond(GAS, BOND_STORAGE_DEPOSIT), Err(BondError::BondTooSmall));
    assert_eq!(c.bond(GAS, BOND_STORAGE_DEPOSIT + ONE_NEAR / 10 - 1), Err(BondError::BondTooSmall));
    assert_eq!(c.bond(GAS, BOND_STORAGE_DEPOSIT + ONE_NEAR / 10), Ok(ONE_NEAR / 10));
    c.pause(&owner()).unwrap();
    assert_eq!(c.bond(GAS, ONE_NEAR), Err(BondError::Paused));
}

#[test]
fn failed_stake_refunds_and_changes_nothing() {
    let mut c = contract();
    let r = c.on_staked(&alice(), ONE_NEAR, None, 5).unwrap();
    assert_eq!(r, StakeOutcome::Refund(ONE_NEAR + BOND_STORAGE_DEPOSIT));
    assert_eq!(c.notes_count(&alice()), 0);
    assert_eq!(c.pending_pool_near_amount, 0);
    assert_eq!(c.linear_balance, 0);
}

#[test]
fn bond_records_a_pending_note() {
    let mut c = contract();
    assert_eq!(bond(&mut c, &alice(), 10 * ONE_NEAR, 100), 0);
    assert_eq!(bond(&mut c, &alice(), 20 * ONE_NEAR, 200), 1);
    assert_eq!(bond(&mut c, &bob(), 5 * ONE_NEAR, 300), 0);
    assert_eq!(c.notes_count(&alice()), 2);
    assert_eq!(c.pending_notes_count(&alice()), 2);
    assert_eq!(c.notes_count(&bob()), 1);
    assert_eq!(c.pending_pool_near_amount, 35 * ONE_NEAR);
    assert_eq!(c.linear_balance, 35 * ONE_NEAR);
    let note = c.bond_notes.get_user_note(&alice(), 1).unwrap();
    assert_eq!(note.bond_amount(), 20 * ONE_NEAR);
    assert_eq!(note.status(), BondStatus::Pending);
    assert_eq!(note.created_at, 200);
    assert!(c.bond_notes.get_user_note(&alice(), 2).is_none());
}

#[test]
fn cancel_refunds_and_settles_once() {
    let mut c = contract();
    let id = bond(&mut c, &alice(), 10 * ONE_NEAR, 100);
    assert_eq!(c.cancel(GAS, &alice(), 7), Err(BondError::NoteNotFound));
    assert_eq!(c.cancel(GAS, &alice(), id), Ok(()));
    // the oracle failed
    assert_eq!(
        c.on_get_linear_price_for_cancel(&alice(), id, None, 200),
        Err(BondError::PriceUnavailable)
    );
    let refund = c.on_get_linear_price_for_cancel(&alice(), id, Some(2 * ONE_NEAR), 200).unwrap();
    assert_eq!(refund, 5 * ONE_NEAR);
    assert_eq!(c.pending_pool_near_amount, 0);
    assert_eq!(c.linear_balance, 5 * ONE_NEAR);
    assert_eq!(c.pending_notes_count(&alice()), 0);
    let note = c.bond_notes.get_user_note(&alice(), id).unwrap();
    assert_eq!(note.status(), BondStatus::Cancelled);
    assert_eq!(note.settled_at, 200);
    assert_eq!(note.length(1000), 100);
    // a cancelled note cannot be cancelled or committed again
    assert_eq!(c.cancel(GAS, &alice(), id), Err(BondError::InvalidNoteState));
    assert_eq!(c.commit(GAS, 300, &alice(), id), Err(BondError::InvalidNoteState));
    assert_eq!(
        c.on_get_linear_price_for_cancel(&alice(), id, Some(ONE_NEAR), 300),
        Err(BondError::InvalidNoteState)
    );
    assert_eq!(
        c.on_get_linear_price_for_commit(&alice(), id, Some(ONE_NEAR), 0, 300),
        Err(BondError::InvalidNoteState)
    );
}

#[test]
fn commit_mints_what_has_vested() {
    let mut c = contract();
    let id = bond(&mut c, &alice(), 1000 * ONE_NEAR, 0);
    assert_eq!(c.commit(GAS, 5, &alice(), id), Err(BondError::Bootstrapping));
    let now = 10 * ONE_DAY_MS;
    assert_eq!(c.commit(GAS, now, &alice(), id), Ok(()));
    let minted = c.on_get_linear_price_for_commit(&alice(), id, Some(ONE_NEAR), 0, now).unwrap();
    // tau 1%: 990 net, at age 10 days with alpha 30 days a quarter vests
    assert_eq!(minted, 990 * ONE_NEAR / 4);
    assert_eq!(c.treasury_pool_near_amount, 10 * ONE_NEAR);
    assert_eq!(c.permanent_pool_near_amount, 990 * ONE_NEAR - 990 * ONE_NEAR / 4);
    assert_eq!(c.pending_pool_near_amount, 0);
    let note = c.bond_notes.get_user_note(&alice(), id).unwrap();
    assert_eq!(note.status(), BondStatus::Committed);
    assert_eq!(note.committed_pnear_amount, minted);
    assert_eq!(c.commit(GAS, now, &alice(), id), Err(BondError::InvalidNoteState));
}

#[test]
fn redeem_keeps_supply_above_one_token() {
    let mut c = contract();
    c.linear_balance = 100 * ONE_NEAR;
    let supply = 10 * ONE_PNEAR;
    assert_eq!(c.redeem(GAS, 20, 5 * ONE_PNEAR, supply, 9 * ONE_PNEAR), Err(BondError::InsufficientBalance));
    assert_eq!(
        c.redeem(GAS, 20, supply, supply, 9 * ONE_PNEAR),
        Err(BondError::SupplyFloorViolation)
    );
    assert_eq!(c.redeem(GAS, 20, supply, supply, supply), Err(BondError::SupplyFloorViolation));
    assert_eq!(c.redeem(GAS, 5, supply, supply, ONE_PNEAR), Err(BondError::Bootstrapping));
    assert_eq!(c.redeem(GAS, 20, supply, supply, 9 * ONE_PNEAR - 1), Ok(()));
    // checked again on resumption, before anything is burnt
    assert_eq!(
        c.on_get_linear_price_for_redeem(9 * ONE_PNEAR, Some(ONE_NEAR), supply, supply),
        Err(BondError::SupplyFloorViolation)
    );
    assert_eq!(c.linear_balance, 100 * ONE_NEAR);
    assert_eq!(
        c.on_get_linear_price_for_redeem(ONE_PNEAR, None, supply, supply),
        Err(BondError::PriceUnavailable)
    );
    // the reserve of 100 backs 10 tokens: one token is worth 10
    let out = c.on_get_linear_price_for_redeem(ONE_PNEAR, Some(ONE_NEAR), supply, supply).unwrap();
    assert_eq!(out, 10 * ONE_NEAR);
    assert_eq!(c.linear_balance, 90 * ONE_NEAR);
}

#[test]
fn failed_transfer_goes_to_lost_and_found_once() {
    let mut c = contract();
    assert_eq!(c.on_linear_transferred(&alice(), 7, true), Ok(7));
    assert_eq!(c.user_lost_and_found(&alice()), 0);
    assert_eq!(c.on_linear_transferred(&alice(), 7, false), Ok(0));
    assert_eq!(c.on_linear_transferred(&bob(), 3, false), Ok(0));
    assert_eq!(c.on_linear_transferred(&alice(), 5, false), Ok(0));
    assert_eq!(c.user_lost_and_found(&alice()), 12);
    assert_eq!(c.linear_lost_and_found.total_amount(), 15);
    assert_eq!(c.claim_lost_and_found(TGAS, &alice()), Err(BondError::InsufficientBudget));
    assert_eq!(c.claim_lost_and_found(GAS, &alice()), Ok(12));
    assert_eq!(c.claim_lost_and_found(GAS, &alice()), Err(BondError::NothingToClaim));
    assert_eq!(c.user_lost_and_found(&alice()), 0);
    assert_eq!(c.user_lost_and_found(&bob()), 3);
    assert_eq!(c.linear_lost_and_found.total_amount(), 3);
}

#[test]
fn owner_operations() {
    let mut c = contract();
    assert_eq!(c.set_tau(&alice(), 5), Err(BondError::NotOwner));
    assert_eq!(c.set_tau(&owner(), 10000), Err(BondError::InvalidConfig));
    assert_eq!(c.set_tau(&owner(), 5), Ok(()));
    assert_eq!(c.tau, 5);
    assert_eq!(c.resume(&owner()), Err(BondError::AlreadySet));
    assert_eq!(c.pause(&owner()), Ok(()));
    assert_eq!(c.pause(&owner()), Err(BondError::AlreadySet));
    assert_eq!(c.resume(&owner()), Ok(()));
    assert_eq!(c.change_owner(&alice(), bob()), Err(BondError::NotOwner));
    assert_eq!(c.change_owner(&owner(), bob()), Ok(()));
    assert_eq!(c.owner_id, bob());
}

#[test]
fn treasury_withdrawal() {
    let mut c = contract();
    assert_eq!(c.withdraw_treasury(&owner(), GAS), Err(BondError::NothingToClaim));
    c.treasury_pool_near_amount = 12 * ONE_NEAR;
    c.linear_balance = 8 * ONE_NEAR;
    assert_eq!(c.withdraw_treasury(&alice(), GAS), Err(BondError::NotOwner));
    assert_eq!(c.withdraw_treasury(&owner(), GAS), Ok(()));
    // worth 12 / 1.2 = 10, capped by the holdings of 8
    let (near, linear) = c.on_get_linear_price_for_withdraw(Some(6 * ONE_NEAR / 5)).unwrap();
    assert_eq!((near, linear), (12 * ONE_NEAR, 8 * ONE_NEAR));
    assert_eq!(c.treasury_pool_near_amount, 0);
    assert_eq!(c.linear_balance, 0);
    c.on_treasury_withdrawn(near, linear, false).unwrap();
    assert_eq!(c.treasury_pool_near_amount, 12 * ONE_NEAR);
    assert_eq!(c.linear_balance, 8 * ONE_NEAR);
}

#[test]
fn bond_with_staked_asset() {
    let mut c = contract();
    assert_eq!(c.ft_on_transfer(GAS, &"other".to_string(), ONE_NEAR), Err(BondError::WrongToken));
    assert_eq!(c.ft_on_transfer(GAS, &"linear".to_string(), ONE_NEAR / 10), Err(BondError::BondTooSmall));
    assert_eq!(c.ft_on_transfer(GAS, &"linear".to_string(), ONE_NEAR), Ok(()));
    let id = c
        .on_get_linear_price_for_linear_bond(&alice(), 10 * ONE_NEAR, Some(2 * ONE_NEAR), 50)
        .unwrap();
    assert_eq!(id, 0);
    // worth 20, less the storage deposit; staked back at the same price
    assert_eq!(c.pending_pool_near_amount, 20 * ONE_NEAR - BOND_STORAGE_DEPOSIT);
    assert_eq!(c.linear_balance, (20 * ONE_NEAR - BOND_STORAGE_DEPOSIT) / 2);
}

#[test]
fn views_of_notes_and_summary() {
    let mut c = contract();
    bond(&mut c, &alice(), 100 * ONE_NEAR, 0);
    bond(&mut c, &alice(), 100 * ONE_NEAR, 0);
    bond(&mut c, &alice(), 100 * ONE_NEAR, 0);
    c.cancel(GAS, &alice(), 1).unwrap();
    c.on_get_linear_price_for_cancel(&alice(), 1, Some(ONE_NEAR), ONE_DAY_MS).unwrap();
    let list = c.list_pending_notes(&alice(), ONE_NEAR, 0, ONE_DAY_MS, 0, 10).unwrap();
    let mut ids: Vec<u32> = list.iter().map(|n| n.id).collect();
    ids.sort();
    assert_eq!(ids, vec![0, 2]);
    assert_eq!(c.list_pending_notes(&alice(), ONE_NEAR, 0, ONE_DAY_MS, 1, 10).unwrap().len(), 1);
    assert_eq!(c.list_pending_notes(&alice(), ONE_NEAR, 0, ONE_DAY_MS, 5, 10).unwrap().len(), 0);
    let info = c.get_bond_note(&alice(), 0, ONE_NEAR, 0, 30 * ONE_DAY_MS).unwrap();
    assert_eq!(info.cap, 99 * ONE_NEAR);
    assert!(matches!(
        c.get_bond_note(&alice(), 9, ONE_NEAR, 0, 0),
        Err(BondError::NoteNotFound)
    ));
    let summary = c.get_summary(ONE_NEAR, ONE_DAY_MS).unwrap();
    assert_eq!(summary.pending_pool_near_amount, 200 * ONE_NEAR);
    assert_eq!(summary.reserve_pool_near_amount, 0);
    assert_eq!(summary.accrual_parameter.current_mean_length, ONE_DAY_MS);
    assert!(!summary.accrual_parameter.decreasing);
    assert_eq!(c.get_alpha(ONE_DAY_MS), Ok(30 * ONE_DAY_MS));
    assert_eq!(c.get_alpha(0), Err(BondError::BadTimestamp));
    let meta = c.contract_source_metadata();
    assert_eq!(meta.standards.len(), 5);
    assert_eq!(meta.standards[0].standard, "nep141");
}

#[test]
fn flow_against_the_staking_stand_in() {
    let mut linear = MockLinear::new();
    let mut c = contract();

    // a failed stake is refunded in full
    linear.set_panic(true);
    let bond_amount = c.bond(GAS, 10 * ONE_NEAR + BOND_STORAGE_DEPOSIT).unwrap();
    let staked = linear.deposit_and_stake(bond_amount);
    assert_eq!(staked, Err(StakeError::Panicked));
    assert_eq!(
        c.on_staked(&alice(), bond_amount, staked.ok(), 0),
        Ok(StakeOutcome::Refund(10 * ONE_NEAR + BOND_STORAGE_DEPOSIT))
    );

    // at a price of 2 the principal buys half as many shares, less the change
    linear.set_panic(false);
    linear.set_ft_price(2 * ONE_NEAR);
    linear.set_small_change(true);
    let staked = linear.deposit_and_stake(bond_amount).unwrap();
    assert_eq!(staked, 5 * ONE_NEAR - 10);
    assert_eq!(c.on_staked(&alice(), bond_amount, Some(staked), 0), Ok(StakeOutcome::Bonded(0)));
    assert_eq!(c.linear_balance, 5 * ONE_NEAR - 10);

    // the withheld change leaves the holdings worth less than the pending
    // pool, so the first commit cannot assign the profit to the treasury
    let now = 30 * ONE_DAY_MS;
    c.commit(GAS, now, &alice(), 0).unwrap();
    assert_eq!(
        c.on_get_linear_price_for_commit(&alice(), 0, Some(linear.ft_price()), 0, now),
        Err(BondError::Overflow)
    );
    assert_eq!(c.pending_notes_count(&alice()), 1);

    // once the price has risen, the commit goes through; the mean age has
    // been above its target for 15 days, so alpha has decayed 15 times
    linear.set_ft_price(21 * ONE_NEAR / 10);
    let alpha = c.get_alpha(now).unwrap();
    assert!(alpha < 30 * ONE_DAY_MS);
    let minted = c
        .on_get_linear_price_for_commit(&alice(), 0, Some(linear.ft_price()), 0, now)
        .unwrap();
    assert_eq!(Some(minted), accrued_value(990 * ONE_NEAR / 100, now, alpha));
    assert_eq!(minted, 5322413669490679179166839);
    let owned = (5 * ONE_NEAR - 10) / 10 * 21;
    assert_eq!(c.treasury_pool_near_amount, ONE_NEAR / 10 + owned - 10 * ONE_NEAR);
}

#[test]
fn pending_pages_follow_one_order() {
    let mut c = contract();
    for _ in 0..5 {
        bond(&mut c, &alice(), ONE_NEAR, 0);
    }
    c.cancel(GAS, &alice(), 2).unwrap();
    c.on_get_linear_price_for_cancel(&alice(), 2, Some(ONE_NEAR), 10).unwrap();
    let order = c.bond_notes.get_user_pending_note_ids(&alice());
    let mut seen: Vec<u32> = Vec::new();
    for offset in [0u32, 2] {
        let page = c.list_pending_notes(&alice(), ONE_NEAR, 0, 10, offset, 2).unwrap();
        for (k, info) in page.iter().enumerate() {
            assert_eq!(info.id, order[offset as usize + k]);
            seen.push(info.id);
        }
    }
    seen.sort();
    assert_eq!(seen, vec![0, 1, 3, 4]);
}

#[test]
fn restore_rejects_out_of_range_tau() {
    let c = contract();
    let restored = PhoenixBonds::restore(
        c.owner_id.clone(),
        c.linear_address.clone(),
        false,
        0,
        0,
        0,
        0,
        10000,
        phoenix_bonds::lost_found::LostAndFound::new(),
        phoenix_bonds::bond_note::BondNotes::new(),
        10,
        AccrualParameter::new(2, 1, 3, 1, 0),
    );
    assert!(restored.is_none());
    assert!(AccrualParameter::from_parts(1, 2, 3, 1, 0, 0, c.accrual_param.mean_length).is_none());
    assert!(AccrualParameter::from_parts(2, 1, 3, 0, 0, 0, c.accrual_param.mean_length).is_none());
    assert!(AccrualParameter::from_parts(2, 1, 3, 1, 10000, 0, c.accrual_param.mean_length).is_none());
    assert!(AccrualParameter::from_parts(2, 1, 3, 1, 0, 1, c.accrual_param.mean_length).is_none());
    assert!(AccrualParameter::from_parts(2, 1, 3, 1, 0, 0, c.accrual_param.mean_length).is_some());
}
