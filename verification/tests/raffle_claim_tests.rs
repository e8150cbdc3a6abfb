use utility_contract::contract::UtilityContract;
use utility_contract::types::{
    EligibleType, ExpiryType, Raffle, Receipt, Reward, RewardAction, Selection, UsageType,
    Utility, UtilityError, UtilityType,
};

const ADMIN_ADDR: &str = "GAIIG7PGQYFG4AZK36YWKE3GPH6GXU4BIDZZASMP5DSVZL2DZ75W34JS";

fn reward_utility(now: u64, receipt: Receipt, selection: Selection) -> Utility {
    Utility {
        provider: ADMIN_ADDR.to_string(),
        expiry: now + 1000,
        usage: 10,
        offer_expiry: now + 2000,
        partner: ADMIN_ADDR.to_string(),
        utility_uri: "https://example.com".to_string(),
        expiry_type: ExpiryType::TimeBased,
        usage_type: UsageType::Limited,
        raffle: Raffle { start_time: now + 500, ended: false },
        selection,
        reward: Reward {
            receipt,
            token_addresses: vec!["TOKEN1".to_string()],
            total_amount: 1000,
            amount_per_win: 100,
            no_of_winners: 10,
        },
    }
}

fn raffle_contract(now: u64) -> (UtilityContract, String) {
    let mut c = UtilityContract::new();
    let provider = ADMIN_ADDR.to_string();
    let u = reward_utility(now, Receipt::NoReceipt, Selection::Raffle);
    c.create_new_utility(u, provider.clone(), now, &vec![]).unwrap();
    (c, provider)
}

#[test]
fn raffle_join_then_end_after_expiry() {
    let now: u64 = 0;
    let (mut c, provider) = raffle_contract(now);
    let user = "GBT4VVTDPCNA45MNWX5G6LUTLIEENSTUHDVXO2AQHAZ24KUZUPLPGJZH".to_string();
    assert_eq!(c.join_raffle(0, &provider, &user, 100), Ok(()));
    assert_eq!(c.end_raffle(0, &provider, 100), Err(UtilityError::RaffleNotEnded));
    assert!(!c.get_utility(0).unwrap().raffle.ended);
    assert_eq!(c.end_raffle(0, &provider, 2500), Ok(()));
    assert!(c.get_utility(0).unwrap().raffle.ended);
    assert_eq!(c.end_raffle(0, &provider, 2500), Err(UtilityError::RaffleAlreadyEnded));
}

#[test]
fn raffle_join_failures() {
    let now: u64 = 0;
    let (c, provider) = raffle_contract(now);
    let user = "U".to_string();
    let stranger = "GDQOSTXBBGFO5N26DOGBIDDOLSSYJPA7DNCQ2V46B5D24JYIH2H3B54H".to_string();
    assert_eq!(c.join_raffle(5, &provider, &user, 100), Err(UtilityError::UtilityNotFound));
    assert_eq!(c.join_raffle(0, &stranger, &user, 100), Err(UtilityError::NotAuthorized));
    assert_eq!(c.join_raffle(0, &provider, &user, 3000), Err(UtilityError::RaffleExpired));
}

#[test]
fn raffle_operations_reject_open_selection() {
    let now: u64 = 0;
    let mut c = UtilityContract::new();
    let provider = ADMIN_ADDR.to_string();
    let u = reward_utility(now, Receipt::NoReceipt, Selection::All);
    c.create_new_utility(u, provider.clone(), now, &vec![]).unwrap();
    assert_eq!(
        c.join_raffle(0, &provider, &"U".to_string(), 100),
        Err(UtilityError::InvalidRaffleSelection)
    );
    assert_eq!(c.end_raffle(0, &provider, 2500), Err(UtilityError::InvalidRaffleSelection));
}

#[test]
fn end_raffle_requires_the_provider() {
    let now: u64 = 0;
    let (mut c, _provider) = raffle_contract(now);
    let stranger = "X".to_string();
    assert_eq!(c.end_raffle(0, &stranger, 2500), Err(UtilityError::NotAuthorized));
    assert_eq!(c.end_raffle(7, &stranger, 2500), Err(UtilityError::UtilityNotFound));
}

#[test]
fn claim_pool_accounting_and_idempotency() {
    let now: u64 = 0;
    let mut c = UtilityContract::new();
    let admin = ADMIN_ADDR.to_string();
    c.setup_config(admin.clone());
    let u = reward_utility(now, Receipt::MintToken, Selection::All);
    c.create_new_utility(u, admin.clone(), now, &vec![]).unwrap();

    let user_a = "USER_A".to_string();
    let action = c.claim_reward(0, user_a.clone(), &admin).unwrap();
    match action {
        RewardAction::MintTokens { token_address, to, amount } => {
            assert_eq!(token_address, "TOKEN1".to_string());
            assert_eq!(to, user_a);
            assert_eq!(amount, 100);
        },
        RewardAction::TransferTokens { .. } => panic!("mint receipt must mint"),
    }
    assert_eq!(c.get_utility(0).unwrap().reward.total_amount, 900);

    // A repeat claim for the same pair fails and leaves the pool alone.
    assert_eq!(c.claim_reward(0, user_a.clone(), &admin), Err(UtilityError::AlreadyClaimed));
    assert_eq!(c.get_utility(0).unwrap().reward.total_amount, 900);

    // Nine more distinct users drain the pool; the next claimant is refused.
    for k in 0..9u32 {
        let user = format!("USER_B{}", k);
        c.claim_reward(0, user, &admin).unwrap();
    }
    assert_eq!(c.get_utility(0).unwrap().reward.total_amount, 0);
    assert_eq!(
        c.claim_reward(0, "USER_LAST".to_string(), &admin),
        Err(UtilityError::AllRewardsClaimed)
    );
}

#[test]
fn claim_requires_the_admin() {
    let now: u64 = 0;
    let mut c = UtilityContract::new();
    let admin = ADMIN_ADDR.to_string();
    let u = reward_utility(now, Receipt::MintToken, Selection::All);
    c.create_new_utility(u, admin.clone(), now, &vec![]).unwrap();
    // No admin configured yet: nobody is authorized.
    assert_eq!(
        c.claim_reward(0, "U".to_string(), &admin),
        Err(UtilityError::NotAuthorized)
    );
    c.setup_config(admin.clone());
    // The registry was reset by configuration; recreate the utility.
    let u = reward_utility(now, Receipt::MintToken, Selection::All);
    c.create_new_utility(u, admin.clone(), now, &vec![]).unwrap();
    let stranger = "X".to_string();
    assert_eq!(
        c.claim_reward(0, "U".to_string(), &stranger),
        Err(UtilityError::NotAuthorized)
    );
    assert_eq!(
        c.claim_reward(3, "U".to_string(), &admin),
        Err(UtilityError::UtilityNotFound)
    );
}

#[test]
fn claim_on_a_raffle_waits_for_the_end() {
    let now: u64 = 0;
    let mut c = UtilityContract::new();
    let admin = ADMIN_ADDR.to_string();
    c.setup_config(admin.clone());
    let u = reward_utility(now, Receipt::External, Selection::Raffle);
    c.create_new_utility(u, admin.clone(), now, &vec![5]).unwrap();
    assert_eq!(
        c.claim_reward(0, "U".to_string(), &admin),
        Err(UtilityError::RaffleNotEnded)
    );
    c.end_raffle(0, &admin, 2500).unwrap();
    let action = c.claim_reward(0, "U".to_string(), &admin).unwrap();
    match action {
        RewardAction::TransferTokens { token_address, to, amount } => {
            assert_eq!(token_address, "TOKEN1".to_string());
            assert_eq!(to, "U".to_string());
            assert_eq!(amount, 100);
        },
        RewardAction::MintTokens { .. } => panic!("external receipt must transfer"),
    }
}

#[test]
fn claim_with_unsupported_receipt_still_commits() {
    let now: u64 = 0;
    let mut c = UtilityContract::new();
    let admin = ADMIN_ADDR.to_string();
    c.setup_config(admin.clone());
    let u = reward_utility(now, Receipt::HTSToken, Selection::All);
    c.create_new_utility(u, admin.clone(), now, &vec![]).unwrap();
    assert_eq!(
        c.claim_reward(0, "U".to_string(), &admin),
        Err(UtilityError::InvalidReceiptType)
    );
    // The claim was recorded and the pool decremented before the receipt
    // kind was dispatched.
    assert_eq!(c.get_utility(0).unwrap().reward.total_amount, 900);
    assert_eq!(
        c.claim_reward(0, "U".to_string(), &admin),
        Err(UtilityError::AlreadyClaimed)
    );
}

#[test]
fn repeat_claim_on_an_exhausted_pool_reports_the_pool_first() {
    // The pool check precedes the claim-ledger check: once the pool is
    // drained, even a user who already claimed sees AllRewardsClaimed.
    let now: u64 = 0;
    let mut c = UtilityContract::new();
    let admin = ADMIN_ADDR.to_string();
    c.setup_config(admin.clone());
    let mut u = reward_utility(now, Receipt::MintToken, Selection::All);
    u.reward.total_amount = 100;
    c.create_new_utility(u, admin.clone(), now, &vec![]).unwrap();
    c.claim_reward(0, "U".to_string(), &admin).unwrap();
    assert_eq!(c.get_utility(0).unwrap().reward.total_amount, 0);
    assert_eq!(
        c.claim_reward(0, "U".to_string(), &admin),
        Err(UtilityError::AllRewardsClaimed)
    );
}

#[test]
fn auxiliary_kind_enums_are_distinct() {
    assert_ne!(UtilityType::NftBenefit, UtilityType::Giveaway);
    assert_ne!(EligibleType::NoEligibility, EligibleType::NftOwner);
    assert_ne!(EligibleType::NftOwner, EligibleType::Whitelist);
}

#[test]
fn mark_eligible_appends_for_the_admin_only() {
    let mut c = UtilityContract::new();
    let admin = ADMIN_ADDR.to_string();
    assert_eq!(
        c.mark_eligible(0, "U".to_string(), &admin),
        Err(UtilityError::NotAuthorized)
    );
    c.setup_config(admin.clone());
    assert_eq!(c.mark_eligible(4, "U".to_string(), &admin), Ok(()));
    assert_eq!(c.mark_eligible(4, "U".to_string(), &admin), Ok(()));
    assert_eq!(c.eligible.len(), 2);
    assert_eq!(c.eligible[0].user, "U".to_string());
    assert_eq!(c.eligible[0].utility_id, 4);
}
