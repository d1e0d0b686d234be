use std::collections::HashMap;

use backend::fish_catalog::{GeneratedQuest, AREA_FUSETA_BEACH};
use backend::herb_quest::{
    check_acceptance, current_after_generation, hand_in_target, herb_quest_fish_dtos,
    needs_new_quest, new_quest_record, next_rollover, quest_record, plan_hand_in, seconds_until_rollover,
    acceptance_row, completion_row, HandInEnd,
    CurrentQuest, HandInFish, HerbQuestError, HerbQuestFishDto, HerbQuestRepositoryImpl,
    InventoryChange, PlayerQuestState, QuestSnapshot, StoredQuest, StoredQuestFish,
};

const QUEST: u128 = 0xabcdef;
const USER: u128 = 77;

fn snapshot(reward: i32) -> QuestSnapshot {
    QuestSnapshot {
        quest: StoredQuest {
            quest_id: QUEST,
            area_id: AREA_FUSETA_BEACH,
            reward_coins: reward,
            next_move_at: 100_800,
            created_at: 14_400,
        },
        fishes: vec![
            StoredQuestFish { quest_id: QUEST, fish_id: 5, amount: 2 },
            StoredQuestFish { quest_id: QUEST, fish_id: 9, amount: 1 },
        ],
    }
}

fn hand_in(uid: u128, fish_id: i32, amount: i32, blob: Option<&str>) -> HandInFish {
    HandInFish {
        fish_uid: uid,
        fish_id,
        fish_amount: amount,
        new_state_blob: blob.map(|b| b.to_string()),
    }
}

#[test]
fn next_rollover_is_the_next_four_o_clock_utc() {
    assert_eq!(next_rollover(0), 14_400);
    assert_eq!(next_rollover(14_399), 14_400);
    assert_eq!(next_rollover(14_400), 100_800);
    assert_eq!(next_rollover(86_399), 100_800);
    assert_eq!(next_rollover(-1), 14_400);
    assert_eq!(next_rollover(-72_000), 14_400);
    assert_eq!(next_rollover(-72_001), -72_000);
    // 2023-11-14 22:13:20 UTC -> 2023-11-15 04:00:00 UTC
    assert_eq!(next_rollover(1_700_000_000), 1_700_020_800);
}

#[test]
fn rollovers_are_a_day_apart() {
    let first = next_rollover(1_700_000_000);
    assert_eq!(next_rollover(first), first + 86_400);
    assert_eq!(seconds_until_rollover(1_700_000_000), 20_800);
    assert_eq!(seconds_until_rollover(14_400), 86_400);
}

#[test]
fn hand_in_needs_the_current_quest() {
    assert_eq!(hand_in_target(None, QUEST), Err(HerbQuestError::NoCurrentQuest));
    assert_eq!(hand_in_target(Some(snapshot(3)), QUEST + 1), Err(HerbQuestError::NotCurrentQuest));
    assert_eq!(hand_in_target(Some(snapshot(3)), QUEST), Ok(snapshot(3)));
}

#[test]
fn acceptance_is_only_for_the_current_quest() {
    assert_eq!(check_acceptance(&Some(snapshot(3)), QUEST), Ok(()));
    assert_eq!(check_acceptance(&Some(snapshot(3)), 1), Err(HerbQuestError::NotCurrentQuest));
    assert_eq!(check_acceptance(&None, QUEST), Err(HerbQuestError::NotCurrentQuest));
}

#[test]
fn hand_in_plans_writes_and_the_stored_reward() {
    let fishes = vec![hand_in(1, 5, 0, None), hand_in(2, 9, 3, Some("blob")), hand_in(3, 5, -2, Some(""))];
    let plan = plan_hand_in(&snapshot(4), &None, &fishes).unwrap();
    assert_eq!(plan.end, HandInEnd::Reward(4));
    assert_eq!(
        plan.changes,
        vec![
            InventoryChange::Destroy { item_uid: 1 },
            InventoryChange::Store { item_uid: 2, definition_id: 9, state_blob: "blob".to_string() },
            InventoryChange::Destroy { item_uid: 3 },
        ]
    );
}

#[test]
fn hand_in_with_no_fish_only_pays() {
    let plan = plan_hand_in(&snapshot(2), &None, &Vec::new()).unwrap();
    assert!(plan.changes.is_empty());
    assert_eq!(plan.end, HandInEnd::Reward(2));
}

#[test]
fn hand_in_refuses_a_completed_quest() {
    let done = Some(PlayerQuestState {
        user_id: USER,
        last_completed_quest_id: Some(QUEST),
        last_accepted_quest_id: Some(QUEST),
    });
    let fishes = vec![hand_in(1, 5, 0, None)];
    assert_eq!(plan_hand_in(&snapshot(3), &done, &fishes), Err(HerbQuestError::AlreadyCompleted));
    let earlier = Some(PlayerQuestState {
        user_id: USER,
        last_completed_quest_id: Some(QUEST - 1),
        last_accepted_quest_id: None,
    });
    assert!(plan_hand_in(&snapshot(3), &earlier, &fishes).is_ok());
}

#[test]
fn hand_in_refuses_the_first_foreign_fish() {
    let fishes = vec![hand_in(1, 5, 0, None), hand_in(2, 6, 0, None), hand_in(3, 7, 0, None)];
    assert_eq!(plan_hand_in(&snapshot(3), &None, &fishes), Err(HerbQuestError::FishNotInQuest(6)));
}

#[test]
fn foreign_fish_is_checked_before_state_blobs() {
    let fishes = vec![hand_in(1, 5, 2, None), hand_in(2, 8, 0, None)];
    assert_eq!(plan_hand_in(&snapshot(3), &None, &fishes), Err(HerbQuestError::FishNotInQuest(8)));
}

#[test]
fn kept_stacks_need_a_state_blob() {
    let missing = vec![hand_in(1, 5, 1, None)];
    let plan = plan_hand_in(&snapshot(3), &None, &missing).unwrap();
    assert_eq!(plan.end, HandInEnd::MissingStateBlob);
    assert!(plan.changes.is_empty());
    let empty = vec![hand_in(1, 9, 0, None), hand_in(2, 5, 1, Some(""))];
    let plan = plan_hand_in(&snapshot(3), &None, &empty).unwrap();
    assert_eq!(plan.end, HandInEnd::MissingStateBlob);
    // The stack before the failing one is still written first, in order.
    assert_eq!(plan.changes, vec![InventoryChange::Destroy { item_uid: 1 }]);
}

#[test]
fn a_second_hand_in_after_completion_is_refused() {
    let fishes = vec![hand_in(1, 5, 0, None)];
    assert!(plan_hand_in(&snapshot(3), &None, &fishes).is_ok());
    // The row the completion leaves, then an acceptance of a later quest.
    let after = Some(PlayerQuestState {
        user_id: USER,
        last_completed_quest_id: Some(QUEST),
        last_accepted_quest_id: Some(QUEST + 5),
    });
    assert_eq!(plan_hand_in(&snapshot(3), &after, &fishes), Err(HerbQuestError::AlreadyCompleted));
}

#[test]
fn boot_needs_a_quest_when_missing_expired_or_empty() {
    assert!(needs_new_quest(&None, 0));
    assert!(!needs_new_quest(&Some(snapshot(3)), 100_799));
    assert!(needs_new_quest(&Some(snapshot(3)), 100_800));
    let mut empty = snapshot(3);
    empty.fishes.clear();
    assert!(needs_new_quest(&Some(empty), 0));
}

#[test]
fn current_quest_shows_the_stored_rows() {
    let current = CurrentQuest::from_snapshot(&snapshot(3));
    assert_eq!(current.quest_id, QUEST);
    assert_eq!(current.area_id, AREA_FUSETA_BEACH);
    assert_eq!(current.reward_coins, 3);
    assert_eq!(current.next_move_at, 100_800);
    assert_eq!(current.fishes, vec![(5, 2), (9, 1)]);
    assert_eq!(current_after_generation(Some(snapshot(3))), Ok(current));
    assert_eq!(current_after_generation(None), Err(HerbQuestError::QuestMissingAfterGeneration));
}

#[test]
fn fish_dtos_keep_order_and_values() {
    assert_eq!(
        herb_quest_fish_dtos(&vec![(5, 2), (9, 1)]),
        vec![HerbQuestFishDto { fish_id: 5, amount: 2 }, HerbQuestFishDto { fish_id: 9, amount: 1 }]
    );
    assert!(herb_quest_fish_dtos(&Vec::new()).is_empty());
}

#[test]
fn new_quest_records_move_on_at_the_next_rollover() {
    let mut pools: HashMap<i32, Vec<i32>> = HashMap::new();
    pools.insert(AREA_FUSETA_BEACH, vec![5, 9]);
    let record = new_quest_record(&pools, 1_700_000_000);
    assert_eq!(record.created_at, 1_700_000_000);
    assert_eq!(record.next_move_at, 1_700_020_800);
    assert_eq!(record.area_id, AREA_FUSETA_BEACH);
    assert!((2..=4).contains(&record.reward_coins));
    let other = new_quest_record(&pools, 1_700_000_000);
    assert_ne!(record.quest_id, other.quest_id);
    assert_eq!(record.quest_id & 0xF000C000000000000000u128, 0x40008000000000000000u128);
}

#[test]
fn repository_constructs() {
    let _ = HerbQuestRepositoryImpl::new();
}

#[test]
fn quest_records_keep_the_generated_quest() {
    let generated = GeneratedQuest { area_id: 3, reward_coins: 3, fishes: vec![(4, 2), (8, 1)] };
    let record = quest_record(99, generated, 0);
    assert_eq!(record.quest_id, 99);
    assert_eq!(record.area_id, 3);
    assert_eq!(record.reward_coins, 3);
    assert_eq!(record.fishes, vec![(4, 2), (8, 1)]);
    assert_eq!(record.created_at, 0);
    assert_eq!(record.next_move_at, 14_400);
}

#[test]
fn writes_stop_at_the_first_stack_without_state() {
    let fishes = vec![
        hand_in(1, 5, 1, Some("a")),
        hand_in(2, 9, 0, None),
        hand_in(3, 5, 2, None),
        hand_in(4, 9, 0, None),
    ];
    let plan = plan_hand_in(&snapshot(3), &None, &fishes).unwrap();
    assert_eq!(plan.end, HandInEnd::MissingStateBlob);
    assert_eq!(
        plan.changes,
        vec![
            InventoryChange::Store { item_uid: 1, definition_id: 5, state_blob: "a".to_string() },
            InventoryChange::Destroy { item_uid: 2 },
        ]
    );
}

#[test]
fn progress_rows_keep_the_other_quest() {
    let fresh = completion_row(&None, USER, QUEST);
    assert_eq!(
        fresh,
        PlayerQuestState { user_id: USER, last_completed_quest_id: Some(QUEST), last_accepted_quest_id: None }
    );
    let accepted = acceptance_row(&Some(fresh), USER, QUEST + 1);
    assert_eq!(accepted.last_completed_quest_id, Some(QUEST));
    assert_eq!(accepted.last_accepted_quest_id, Some(QUEST + 1));
    let again = completion_row(&Some(accepted), USER, QUEST + 1);
    assert_eq!(again.last_completed_quest_id, Some(QUEST + 1));
    assert_eq!(again.last_accepted_quest_id, Some(QUEST + 1));
    assert_eq!(
        acceptance_row(&None, USER, QUEST),
        PlayerQuestState { user_id: USER, last_completed_quest_id: None, last_accepted_quest_id: Some(QUEST) }
    );
    // A completion recorded through the row blocks the next hand-in.
    let fishes = vec![hand_in(1, 5, 0, None)];
    let done = Some(completion_row(&None, USER, QUEST));
    assert_eq!(plan_hand_in(&snapshot(3), &done, &fishes), Err(HerbQuestError::AlreadyCompleted));
}
