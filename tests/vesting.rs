use lumenpulse::{
    Event, Identity, Invocation, VestingData, VestingError,
    VestingWalletContract,
};

fn token_balance(inv: &Invocation, token: &Identity, who: &Identity, minted: i128) -> i128 {
    let mut balance = minted;
    for t in &inv.transfers {
        if t.token == *token && t.from == *who {
            balance -= t.amount;
        }
        if t.token == *token && t.to == *who {
            balance += t.amount;
        }
    }
    balance
}

fn setup_test() -> (VestingWalletContract, Invocation, Identity, Identity, Identity, Identity) {
    let contract_id = Identity::from_str("wallet");
    (
        VestingWalletContract::new(),
        Invocation::new(0, contract_id.clone()),
        Identity::from_str("admin"),
        Identity::from_str("beneficiary"),
        Identity::from_str("token"),
        contract_id,
    )
}

fn with_vesting(start_offset: u64) -> (VestingWalletContract, Invocation, Identity, Identity, Identity, u64) {
    let (mut client, mut inv, admin, beneficiary, token, _) = setup_test();
    client.initialize(&mut inv, admin.clone(), token.clone()).unwrap();
    let start_time = inv.now + start_offset;
    client.create_vesting(&mut inv, admin, beneficiary.clone(), 1_000_000, start_time, 10_000).unwrap();
    (client, inv, beneficiary, token, Identity::from_str("admin"), start_time)
}

#[test]
fn test_vesting_initialize() {
    let (mut client, mut inv, admin, _, token, _) = setup_test();
    client.initialize(&mut inv, admin.clone(), token.clone()).unwrap();
    assert_eq!(client.get_admin(), Ok(admin));
    assert_eq!(client.get_token(), Ok(token));
}

#[test]
fn test_vesting_double_initialization_fails() {
    let (mut client, mut inv, admin, _, token, _) = setup_test();
    client.initialize(&mut inv, admin.clone(), token.clone()).unwrap();
    let result = client.initialize(&mut inv, admin, token);
    assert_eq!(result, Err(VestingError::AlreadyInitialized));
}

#[test]
fn test_create_vesting() {
    let (mut client, mut inv, admin, beneficiary, token, contract_id) = setup_test();
    client.initialize(&mut inv, admin.clone(), token.clone()).unwrap();
    let current_time = inv.now;
    let start_time = current_time + 1000;
    let duration = 10_000;
    let amount: i128 = 1_000_000;
    client.create_vesting(&mut inv, admin, beneficiary.clone(), amount, start_time, duration).unwrap();
    let vesting = client.get_vesting(&beneficiary).unwrap();
    assert_eq!(vesting.beneficiary, beneficiary);
    assert_eq!(vesting.total_amount, amount);
    assert_eq!(vesting.start_time, start_time);
    assert_eq!(vesting.duration, duration);
    assert_eq!(vesting.claimed_amount, 0);
    assert_eq!(token_balance(&inv, &token, &contract_id, 0), amount);
}

#[test]
fn test_create_vesting_not_initialized() {
    let (mut client, mut inv, admin, beneficiary, _, _) = setup_test();
    let current_time = inv.now;
    let result =
        client.create_vesting(&mut inv, admin, beneficiary, 1_000_000, current_time + 1000, 10_000);
    assert_eq!(result, Err(VestingError::NotInitialized));
}

#[test]
fn test_create_vesting_invalid_amount() {
    let (mut client, mut inv, admin, beneficiary, token, _) = setup_test();
    client.initialize(&mut inv, admin.clone(), token).unwrap();
    let current_time = inv.now;
    let result = client.create_vesting(&mut inv, admin, beneficiary, 0, current_time + 1000, 10_000);
    assert_eq!(result, Err(VestingError::InvalidAmount));
}

#[test]
fn test_create_vesting_invalid_duration() {
    let (mut client, mut inv, admin, beneficiary, token, _) = setup_test();
    client.initialize(&mut inv, admin.clone(), token).unwrap();
    let current_time = inv.now;
    let result =
        client.create_vesting(&mut inv, admin, beneficiary, 1_000_000, current_time + 1000, 0);
    assert_eq!(result, Err(VestingError::InvalidDuration));
}

#[test]
fn test_create_vesting_invalid_start_time() {
    let (mut client, mut inv, admin, beneficiary, token, _) = setup_test();
    client.initialize(&mut inv, admin.clone(), token).unwrap();
    let current_time = inv.now;
    let past_time = current_time.saturating_sub(1);
    if current_time == 0 {
        return;
    }
    let result = client.create_vesting(&mut inv, admin, beneficiary, 1_000_000, past_time, 10_000);
    assert_eq!(result, Err(VestingError::InvalidStartTime));
}

#[test]
fn create_vesting_refuses_a_past_start() {
    let (mut client, mut inv, admin, beneficiary, token, _) = setup_test();
    inv.now = 5_000;
    client.initialize(&mut inv, admin.clone(), token).unwrap();
    let result = client.create_vesting(&mut inv, admin.clone(), beneficiary.clone(), 1_000_000, 4_999, 10_000);
    assert_eq!(result, Err(VestingError::InvalidStartTime));
    assert_eq!(client.create_vesting(&mut inv, admin, beneficiary, 1_000_000, 5_000, 10_000), Ok(()));
}

#[test]
fn test_create_vesting_unauthorized() {
    let (mut client, mut inv, admin, beneficiary, token, _) = setup_test();
    client.initialize(&mut inv, admin, token).unwrap();
    let non_admin = Identity::from_str("non_admin");
    let current_time = inv.now;
    let result =
        client.create_vesting(&mut inv, non_admin, beneficiary, 1_000_000, current_time + 1000, 10_000);
    assert_eq!(result, Err(VestingError::Unauthorized));
}

#[test]
fn test_claim_before_start_time() {
    let (mut client, mut inv, beneficiary, _, _, _) = with_vesting(10_000);
    let result = client.claim(&mut inv, beneficiary.clone());
    assert_eq!(result, Err(VestingError::NothingToClaim));
    assert_eq!(client.get_available_amount(&inv, &beneficiary), Ok(0));
}

#[test]
fn test_claim_partial_vesting() {
    let (mut client, mut inv, beneficiary, token, _, start_time) = with_vesting(100);
    let duration: u64 = 10_000;
    let amount: i128 = 1_000_000;
    inv.now = start_time + duration / 4;
    let claimed = client.claim(&mut inv, beneficiary.clone()).unwrap();
    let expected_claimed = amount / 4;
    assert_eq!(claimed, expected_claimed);
    assert_eq!(token_balance(&inv, &token, &beneficiary, 0), expected_claimed);
    let vesting = client.get_vesting(&beneficiary).unwrap();
    assert_eq!(vesting.claimed_amount, expected_claimed);
    assert_eq!(client.get_available_amount(&inv, &beneficiary), Ok(0));
}

#[test]
fn test_claim_full_vesting() {
    let (mut client, mut inv, beneficiary, token, _, start_time) = with_vesting(100);
    let duration: u64 = 10_000;
    let amount: i128 = 1_000_000;
    inv.now = start_time + duration + 1000;
    let claimed = client.claim(&mut inv, beneficiary.clone()).unwrap();
    assert_eq!(claimed, amount);
    assert_eq!(token_balance(&inv, &token, &beneficiary, 0), amount);
    let vesting = client.get_vesting(&beneficiary).unwrap();
    assert_eq!(vesting.claimed_amount, amount);
    assert_eq!(client.get_available_amount(&inv, &beneficiary), Ok(0));
}

#[test]
fn test_claim_multiple_times() {
    let (mut client, mut inv, beneficiary, token, _, start_time) = with_vesting(100);
    let duration: u64 = 10_000;
    let amount: i128 = 1_000_000;
    inv.now = start_time + duration / 4;
    let claimed1 = client.claim(&mut inv, beneficiary.clone()).unwrap();
    assert_eq!(claimed1, amount / 4);
    inv.now = start_time + duration / 2;
    let claimed2 = client.claim(&mut inv, beneficiary.clone()).unwrap();
    assert_eq!(claimed2, amount / 4);
    let vesting = client.get_vesting(&beneficiary).unwrap();
    assert_eq!(vesting.claimed_amount, amount / 2);
    assert_eq!(token_balance(&inv, &token, &beneficiary, 0), amount / 2);
}

#[test]
fn test_claim_vesting_not_found() {
    let (mut client, mut inv, admin, _, token, _) = setup_test();
    client.initialize(&mut inv, admin, token).unwrap();
    let beneficiary = Identity::from_str("someone");
    let result = client.claim(&mut inv, beneficiary);
    assert_eq!(result, Err(VestingError::VestingNotFound));
}

#[test]
fn test_claim_unauthorized() {
    let (mut client, mut inv, _, _, _, start_time) = with_vesting(100);
    inv.now = start_time + 10_000 / 2;
    let non_beneficiary = Identity::from_str("non_beneficiary");
    let result = client.claim(&mut inv, non_beneficiary);
    assert_eq!(result, Err(VestingError::VestingNotFound));
}

#[test]
fn test_get_available_amount_linear_calculation() {
    let (client, mut inv, beneficiary, _, _, start_time) = with_vesting(100);
    let duration: u64 = 10_000;
    let amount: i128 = 1_000_000;
    inv.now = start_time + (duration * 3 / 10);
    assert_eq!(client.get_available_amount(&inv, &beneficiary), Ok((amount * 3) / 10));
    inv.now = start_time + (duration * 3 / 4);
    assert_eq!(client.get_available_amount(&inv, &beneficiary), Ok((amount * 3) / 4));
}

#[test]
fn test_update_vesting() {
    let (mut client, mut inv, admin, beneficiary, token, _) = setup_test();
    client.initialize(&mut inv, admin.clone(), token).unwrap();
    let start_time = inv.now + 1000;
    let duration = 10_000;
    let amount1: i128 = 1_000_000;
    client.create_vesting(&mut inv, admin.clone(), beneficiary.clone(), amount1, start_time, duration).unwrap();
    let amount2: i128 = 2_000_000;
    client.create_vesting(&mut inv, admin, beneficiary.clone(), amount2, start_time, duration).unwrap();
    let vesting = client.get_vesting(&beneficiary).unwrap();
    assert_eq!(vesting.total_amount, amount2);
    assert_eq!(vesting.claimed_amount, 0);
}

#[test]
fn replacing_a_vesting_refunds_the_admin_first() {
    let (mut client, mut inv, admin, beneficiary, token, contract_id) = setup_test();
    let minted: i128 = 10_000_000;
    client.initialize(&mut inv, admin.clone(), token.clone()).unwrap();
    client.create_vesting(&mut inv, admin.clone(), beneficiary.clone(), 1_000_000, 1000, 10_000).unwrap();
    let before = token_balance(&inv, &token, &admin, minted);
    let first = inv.transfers.len();
    client.create_vesting(&mut inv, admin.clone(), beneficiary.clone(), 2_000_000, 1000, 10_000).unwrap();
    assert_eq!(token_balance(&inv, &token, &admin, minted) - before, -1_000_000);
    assert_eq!(inv.transfers.len(), first + 2);
    assert_eq!(inv.transfers[first].from, contract_id);
    assert_eq!(inv.transfers[first].to, admin);
    assert_eq!(inv.transfers[first].amount, 1_000_000);
    assert_eq!(inv.transfers[first + 1].from, admin);
    assert_eq!(inv.transfers[first + 1].amount, 2_000_000);
    let vesting = client.get_vesting(&beneficiary).unwrap();
    assert_eq!((vesting.total_amount, vesting.claimed_amount), (2_000_000, 0));
    assert_eq!(token_balance(&inv, &token, &admin, minted), 8_000_000);
}

#[test]
fn replacing_a_fully_claimed_vesting_refunds_nothing() {
    let (mut client, mut inv, beneficiary, _, admin, start_time) = with_vesting(0);
    inv.now = start_time + 10_000;
    client.claim(&mut inv, beneficiary.clone()).unwrap();
    let first = inv.transfers.len();
    let now = inv.now;
    client.create_vesting(&mut inv, admin.clone(), beneficiary, 5, now, 1).unwrap();
    assert_eq!(inv.transfers.len(), first + 1);
    assert_eq!(inv.transfers[first].from, admin);
}

#[test]
fn test_multiple_beneficiaries() {
    let (mut client, mut inv, admin, beneficiary1, token, _) = setup_test();
    let beneficiary2 = Identity::from_str("beneficiary2");
    client.initialize(&mut inv, admin.clone(), token).unwrap();
    let start_time = inv.now + 100;
    let duration = 10_000;
    let amount1: i128 = 1_000_000;
    let amount2: i128 = 2_000_000;
    client.create_vesting(&mut inv, admin.clone(), beneficiary1.clone(), amount1, start_time, duration).unwrap();
    client.create_vesting(&mut inv, admin, beneficiary2.clone(), amount2, start_time, duration).unwrap();
    assert_eq!(client.get_vesting(&beneficiary1).unwrap().total_amount, amount1);
    assert_eq!(client.get_vesting(&beneficiary2).unwrap().total_amount, amount2);
    inv.now = start_time + duration / 2;
    let claimed1 = client.claim(&mut inv, beneficiary1).unwrap();
    let claimed2 = client.claim(&mut inv, beneficiary2).unwrap();
    assert_eq!(claimed1, amount1 / 2);
    assert_eq!(claimed2, amount2 / 2);
}

#[test]
fn test_get_claimable_view_method() {
    let (mut client, mut inv, beneficiary, _, _, start_time) = with_vesting(100);
    let duration: u64 = 10_000;
    let amount: i128 = 1_000_000;
    assert_eq!(client.get_claimable(&inv, &beneficiary), Ok(0));
    inv.now = start_time + (duration / 4);
    assert_eq!(client.get_claimable(&inv, &beneficiary), Ok(amount / 4));
    inv.now = start_time + (duration / 2);
    let claimable = client.get_claimable(&inv, &beneficiary).unwrap();
    let expected = amount / 2;
    assert_eq!(claimable, expected);
    let available = client.get_available_amount(&inv, &beneficiary).unwrap();
    assert_eq!(claimable, available);
    let claimed = client.claim(&mut inv, beneficiary.clone()).unwrap();
    assert_eq!(claimed, expected);
    assert_eq!(client.get_claimable(&inv, &beneficiary), Ok(0));
    inv.now = start_time + (duration * 3 / 4);
    assert_eq!(client.get_claimable(&inv, &beneficiary), Ok((amount * 3 / 4) - (amount / 2)));
    inv.now = start_time + duration + 1000;
    let claimable = client.get_claimable(&inv, &beneficiary).unwrap();
    assert_eq!(claimable, amount - (amount / 2));
    let available = client.get_available_amount(&inv, &beneficiary).unwrap();
    assert_eq!(claimable, available);
}

#[test]
fn test_get_claimable_consistency_with_claim() {
    let (mut client, mut inv, beneficiary, _, _, start_time) = with_vesting(100);
    inv.now = start_time + 10_000 / 2;
    let claimable_before = client.get_claimable(&inv, &beneficiary).unwrap();
    let claimed = client.claim(&mut inv, beneficiary.clone()).unwrap();
    assert_eq!(claimed, claimable_before);
    assert_eq!(client.get_claimable(&inv, &beneficiary), Ok(0));
}

#[test]
fn linear_vesting_scenario() {
    let (mut client, mut inv, beneficiary, token, _, start_time) = with_vesting(100);
    inv.now = start_time + 2_500;
    assert_eq!(client.get_claimable(&inv, &beneficiary), Ok(250_000));
    assert_eq!(client.claim(&mut inv, beneficiary.clone()), Ok(250_000));
    assert_eq!(token_balance(&inv, &token, &beneficiary, 0), 250_000);
    inv.now = start_time + 5_000;
    assert_eq!(client.claim(&mut inv, beneficiary.clone()), Ok(250_000));
    inv.now = start_time + 10_000;
    assert_eq!(client.claim(&mut inv, beneficiary.clone()), Ok(500_000));
    assert_eq!(client.claim(&mut inv, beneficiary.clone()), Err(VestingError::NothingToClaim));
    inv.now = start_time + 50_000;
    assert_eq!(client.claim(&mut inv, beneficiary.clone()), Err(VestingError::NothingToClaim));
    assert_eq!(token_balance(&inv, &token, &beneficiary, 0), 1_000_000);
}

#[test]
fn claims_add_up_to_the_claimed_amount() {
    let (mut client, mut inv, beneficiary, _, _, start_time) = with_vesting(0);
    let mut paid: i128 = 0;
    for t in [0u64, 1, 333, 333, 4_999, 7_777, 9_999, 10_000, 12_345] {
        inv.now = start_time + t;
        if let Ok(a) = client.claim(&mut inv, beneficiary.clone()) {
            paid += a;
        }
        let v = client.get_vesting(&beneficiary).unwrap();
        assert_eq!(v.claimed_amount, paid);
        assert!(v.claimed_amount <= v.total_amount);
    }
    assert_eq!(paid, 1_000_000);
}

#[test]
fn claim_demands_the_beneficiary_and_publishes_the_payment() {
    let (mut client, mut inv, beneficiary, _, _, start_time) = with_vesting(100);
    inv.now = start_time + 1_000;
    client.claim(&mut inv, beneficiary.clone()).unwrap();
    assert_eq!(inv.auths.last(), Some(&beneficiary));
    assert!(matches!(inv.events.last(), Some(Event::TokensClaimed(e))
        if e.amount_claimed == 100_000 && e.remaining == 900_000 && e.beneficiary == beneficiary));
    assert!(matches!(&inv.events[0], Event::VestingCreated(e) if e.amount == 1_000_000 && e.duration == 10_000));
}

#[test]
fn vested_amount_is_exact_for_large_totals() {
    let v = VestingData {
        beneficiary: Identity::from_str("b"),
        total_amount: i128::MAX,
        start_time: 1,
        duration: u64::MAX,
        claimed_amount: 0,
    };
    let elapsed: u64 = u64::MAX - 2;
    let expected = (i128::MAX / u64::MAX as i128) * elapsed as i128
        + ((i128::MAX % u64::MAX as i128) as u128 * elapsed as u128 / u64::MAX as u128) as i128;
    assert_eq!(VestingWalletContract::calculate_claimable_amount(1 + elapsed, &v), expected);
    assert_eq!(VestingWalletContract::calculate_claimable_amount(0, &v), 0);
}

#[test]
fn claimable_amount_formula() {
    let v = VestingData {
        beneficiary: Identity::from_str("b"),
        total_amount: 1_000,
        start_time: 100,
        duration: 3,
        claimed_amount: 200,
    };
    assert_eq!(VestingWalletContract::calculate_claimable_amount(99, &v), -200);
    assert_eq!(VestingWalletContract::calculate_claimable_amount(100, &v), -200);
    assert_eq!(VestingWalletContract::calculate_claimable_amount(101, &v), 133);
    assert_eq!(VestingWalletContract::calculate_claimable_amount(102, &v), 466);
    assert_eq!(VestingWalletContract::calculate_claimable_amount(103, &v), 800);
    assert_eq!(VestingWalletContract::calculate_claimable_amount(u64::MAX, &v), 800);
}

#[test]
fn vesting_admin_rotation() {
    let (mut client, mut inv, admin, beneficiary, token, _) = setup_test();
    client.initialize(&mut inv, admin.clone(), token).unwrap();
    let next = Identity::from_str("next_admin");
    client.set_admin(&mut inv, admin.clone(), next.clone()).unwrap();
    assert_eq!(
        client.create_vesting(&mut inv, admin.clone(), beneficiary.clone(), 5, 10, 10),
        Err(VestingError::Unauthorized)
    );
    assert_eq!(client.upgrade(&mut inv, admin, [2u8; 32]), Err(VestingError::Unauthorized));
    assert_eq!(client.create_vesting(&mut inv, next.clone(), beneficiary, 5, 10, 10), Ok(()));
    assert_eq!(client.upgrade(&mut inv, next, [2u8; 32]), Ok(()));
}

#[test]
fn vesting_error_codes_are_stable() {
    assert_eq!(VestingError::NotInitialized.code(), 1);
    assert_eq!(VestingError::AlreadyInitialized.code(), 2);
    assert_eq!(VestingError::Unauthorized.code(), 3);
    assert_eq!(VestingError::InvalidAmount.code(), 4);
    assert_eq!(VestingError::InvalidDuration.code(), 5);
    assert_eq!(VestingError::InvalidStartTime.code(), 6);
    assert_eq!(VestingError::VestingNotFound.code(), 7);
    assert_eq!(VestingError::NothingToClaim.code(), 8);
}
