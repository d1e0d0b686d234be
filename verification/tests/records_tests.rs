use backend::domain::{ApiDoc, ItemType, MoneyType};
use backend::inventory::{
    check_amount, destroy_outcome, is_depleted, Durability, InventoryError, InventoryItem,
    InventoryRepositoryImpl, ItemUpdatePlan, Stack,
};
use backend::missions::{completion_steps, MissionRepositoryImpl, MissionReward, MissionRewardItem, MissionStep};
use backend::scheduler::{lifecycle_tick_is_reportable, CompetitionScheduler};
use backend::stats::{
    amount_allowed, stat_column, update_outcome, StatKind, StatsError, STARTING_BUCKS,
    STARTING_COINS, STARTING_PLAYTIME, STARTING_XP,
};
use backend::trading::{trade_bucks_changes, TradeBucks};
use backend::user::{
    account_rows_with_ids, hash_password, hash_password_with_salt, new_account_rows,
    prepare_user_for_storage, verify_password,
    with_password_hash, LoginResponse, User, Username,
    STARTER_HOOK_DEFINITION, STARTER_ROD_DEFINITION,
};

fn item(durability: Option<i32>, stack: Option<i32>) -> InventoryItem {
    InventoryItem {
        item_uuid: 9,
        definition_id: 1000,
        durability: durability.map(|d| Durability { durability: d }),
        stack: stack.map(|s| Stack { stack: s }),
    }
}

#[test]
fn item_plans_skip_zero_changes() {
    let plan = ItemUpdatePlan::for_item(&item(Some(0), Some(-1)));
    assert_eq!(
        plan,
        ItemUpdatePlan { item_uuid: 9, definition_id: 1000, durability_delta: None, stack_delta: Some(-1) }
    );
    let plan = ItemUpdatePlan::for_item(&item(Some(-5), None));
    assert_eq!(plan.durability_delta, Some(-5));
    assert_eq!(plan.stack_delta, None);
    let plan = ItemUpdatePlan::for_item(&item(None, Some(0)));
    assert_eq!((plan.durability_delta, plan.stack_delta), (None, None));
}

#[test]
fn items_are_depleted_at_zero_or_below() {
    assert!(!is_depleted(None, None));
    assert!(!is_depleted(Some(1), Some(3)));
    assert!(is_depleted(Some(0), None));
    assert!(is_depleted(None, Some(-2)));
    assert!(is_depleted(Some(10), Some(0)));
}

#[test]
fn destroying_nothing_fails() {
    assert_eq!(destroy_outcome(0), Err(InventoryError::RecordNotUpdated));
    assert_eq!(destroy_outcome(1), Ok(()));
    assert_eq!(check_amount(0), Err(InventoryError::AmountNotPositive));
    assert_eq!(check_amount(-3), Err(InventoryError::AmountNotPositive));
    assert_eq!(check_amount(1), Ok(()));
    let _ = InventoryRepositoryImpl::new();
}

#[test]
fn nil_uuid_means_no_reward_item() {
    let reward = MissionReward::from_request(5, 0, 0, 0, "x".to_string());
    assert_eq!(reward, MissionReward { coins: 5, bucks: 0, item: None });
    let reward = MissionReward::from_request(0, 7, 0, 3, "state".to_string());
    assert_eq!(
        reward.item,
        Some(MissionRewardItem { uuid: 3, definition_id: 0, state_blob: "state".to_string() })
    );
}

#[test]
fn completion_pays_each_nonzero_part() {
    let steps = completion_steps(MissionReward { coins: 0, bucks: 0, item: None });
    assert_eq!(steps, vec![MissionStep::MarkCompleted]);
    let steps = completion_steps(MissionReward::from_request(-3, 10, 12, 44, "b".to_string()));
    assert_eq!(
        steps,
        vec![
            MissionStep::MarkCompleted,
            MissionStep::ChangeCoins(-3),
            MissionStep::ChangeBucks(10),
            MissionStep::StoreItem(MissionRewardItem { uuid: 44, definition_id: 12, state_blob: "b".to_string() }),
        ]
    );
    let _ = MissionRepositoryImpl::new();
}

#[test]
fn trades_move_bucks_between_players() {
    assert_eq!(
        trade_bucks_changes(100, 30),
        TradeBucks { user_one_change: Some(70), user_two_change: Some(-70) }
    );
    assert_eq!(
        trade_bucks_changes(25, 25),
        TradeBucks { user_one_change: None, user_two_change: None }
    );
    let changes = trade_bucks_changes(0, 500);
    assert_eq!(changes.user_one_change.unwrap() + changes.user_two_change.unwrap(), 0);
}

#[test]
fn xp_and_playtime_only_grow() {
    assert!(!amount_allowed(StatKind::Xp, -1));
    assert!(amount_allowed(StatKind::Xp, 0));
    assert!(!amount_allowed(StatKind::Playtime, -10));
    assert!(amount_allowed(StatKind::Playtime, 10));
    assert!(amount_allowed(StatKind::Coins, -10));
    assert!(amount_allowed(StatKind::Bucks, -10));
}

#[test]
fn stat_columns_and_outcomes() {
    assert_eq!(stat_column(StatKind::Xp), "xp");
    assert_eq!(stat_column(StatKind::Bucks), "bucks");
    assert_eq!(stat_column(StatKind::Coins), "coins");
    assert_eq!(stat_column(StatKind::Playtime), "total_playtime");
    assert_eq!(update_outcome(0), Err(StatsError::RowNotFound));
    assert_eq!(update_outcome(2), Ok(()));
    assert_eq!((STARTING_XP, STARTING_COINS, STARTING_BUCKS, STARTING_PLAYTIME), (0, 25, 5000, 0));
    assert_eq!((STARTER_ROD_DEFINITION, STARTER_HOOK_DEFINITION), (1000, 0));
}

#[test]
fn passwords_are_hashed_with_bcrypt() {
    let hashed = hash_password("hunter2");
    assert_eq!(hashed.len(), 60);
    assert!(hashed.starts_with("$2b$12$"));
    assert_ne!(hashed, "hunter2");
    assert!(bcrypt::verify("hunter2", &hashed).unwrap());
    assert!(!bcrypt::verify("hunter3", &hashed).unwrap());
}

#[test]
fn stored_users_keep_everything_but_the_password() {
    let user = User {
        user_id: 5,
        name: "herb".to_string(),
        email: "herb@example.com".to_string(),
        password: "secret".to_string(),
        salt: "salt".to_string(),
        created: 1_700_000_000,
    };
    let stored = prepare_user_for_storage(user);
    assert_eq!(stored.user_id, 5);
    assert_eq!(stored.name, "herb");
    assert_eq!(stored.email, "herb@example.com");
    assert_eq!(stored.salt, "salt");
    assert_eq!(stored.created, 1_700_000_000);
    assert!(stored.password.starts_with("$2b$12$"));
    assert_ne!(stored.password, "secret");
    assert!(bcrypt::verify("secret", &stored.password).unwrap());
    assert!(!bcrypt::verify("herb@example.com", &stored.password).unwrap());
}

#[test]
fn failed_registration_answers_401() {
    assert_eq!(LoginResponse::registration_failed(), LoginResponse { code: 401, jwt: String::new() });
    let name = Username { name: "herb".to_string() };
    assert_eq!(name.name, "herb");
}

#[test]
fn lifecycle_ticks_are_reported_when_something_happened() {
    assert!(!lifecycle_tick_is_reportable(0, 0));
    assert!(lifecycle_tick_is_reportable(1, 0));
    assert!(lifecycle_tick_is_reportable(0, 2));
    let scheduler = CompetitionScheduler::new("service");
    assert_eq!(scheduler.into_service(), "service");
}

#[test]
fn plain_types_compare() {
    assert_eq!(ItemType::Rod, ItemType::Rod);
    assert_ne!(MoneyType::COINS, MoneyType::BUCKS);
    let _ = ApiDoc;
}

#[test]
fn new_accounts_start_with_stats_and_starter_items() {
    let rows = new_account_rows();
    assert_eq!((rows.xp, rows.coins, rows.bucks, rows.total_playtime), (0, 25, 5000, 0));
    assert_eq!(rows.starter_items.len(), 2);
    assert_eq!(rows.starter_items[0].definition_id, 1000);
    assert_eq!(rows.starter_items[1].definition_id, 0);
    assert!(rows.starter_items.iter().all(|item| item.state_blob.is_empty()));
    assert_ne!(rows.starter_items[0].item_uuid, rows.starter_items[1].item_uuid);
}

#[test]
fn stored_users_take_the_hash_they_are_given() {
    let user = || User {
        user_id: 1,
        name: "a".to_string(),
        email: "a@b".to_string(),
        password: "plain".to_string(),
        salt: String::new(),
        created: 5,
    };
    let stored = with_password_hash(user(), "HASH".to_string());
    assert_eq!(stored.password, "HASH");
    assert_eq!((stored.user_id, stored.created), (1, 5));
    assert_eq!(stored.name, "a");
    assert_eq!(stored.email, "a@b");
}

#[test]
fn starter_items_take_the_given_ids() {
    let rows = account_rows_with_ids(11, 22);
    assert_eq!(rows.starter_items[0].item_uuid, 11);
    assert_eq!(rows.starter_items[0].definition_id, 1000);
    assert_eq!(rows.starter_items[1].item_uuid, 22);
    assert_eq!(rows.starter_items[1].definition_id, 0);
    assert_eq!(rows.coins, 25);
}

#[test]
fn hashing_with_a_given_salt_is_deterministic() {
    let salt = [7u8; 16];
    let first = hash_password_with_salt("hunter2", salt);
    assert_eq!(first, hash_password_with_salt("hunter2", salt));
    assert_ne!(first, hash_password_with_salt("hunter2", [8u8; 16]));
    assert_ne!(first, hash_password_with_salt("hunter3", salt));
    assert!(first.starts_with("$2b$12$"));
    assert_eq!(first.len(), 60);
    assert!(bcrypt::verify("hunter2", &first).unwrap());
}

#[test]
fn fresh_ids_are_version_4_uuids() {
    let rows = new_account_rows();
    for item in &rows.starter_items {
        assert_eq!(item.item_uuid & 0xF000C000000000000000u128, 0x40008000000000000000u128);
    }
}

#[test]
fn hashed_passwords_verify() {
    let hashed = hash_password("open sesame");
    assert_eq!(verify_password("open sesame", &hashed), Some(true));
    assert_eq!(verify_password("open sesam", &hashed), Some(false));
    assert_eq!(verify_password("open sesame", "not a hash"), None);
    let salted = hash_password_with_salt("x", [3u8; 16]);
    assert_eq!(verify_password("x", &salted), Some(true));
}
