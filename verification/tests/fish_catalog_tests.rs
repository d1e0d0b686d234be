use std::collections::HashMap;

use backend::fish_catalog::{
    eligible_pools, generate_quest, is_eligible_rarity, location_to_area, quest_from_draws, FishDef,
    AREA_FUSETA_BEACH, AREA_GREENFIELDS, AREA_SELVA_BANDEIRA, HERB_AREAS,
};

fn fish(id: i32, rarity: &str, locations: &[&str]) -> FishDef {
    FishDef {
        id,
        rarity: rarity.to_string(),
        locations: locations.iter().map(|l| l.to_string()).collect(),
    }
}

#[test]
fn location_names_map_to_areas() {
    assert_eq!(location_to_area("Beach"), Some(AREA_FUSETA_BEACH));
    assert_eq!(location_to_area("Tropical"), Some(AREA_SELVA_BANDEIRA));
    assert_eq!(location_to_area("Greenfields"), Some(AREA_GREENFIELDS));
    assert_eq!(location_to_area("beach"), None);
    assert_eq!(location_to_area("Ocean"), None);
    assert_eq!(location_to_area(""), None);
}

#[test]
fn area_ids_match_the_game() {
    assert_eq!(AREA_FUSETA_BEACH, 2);
    assert_eq!(AREA_SELVA_BANDEIRA, 3);
    assert_eq!(AREA_GREENFIELDS, 4);
    assert_eq!(HERB_AREAS, [2, 3, 4]);
}

#[test]
fn only_common_and_uncommon_are_eligible() {
    assert!(is_eligible_rarity("COMMON"));
    assert!(is_eligible_rarity("UNCOMMON"));
    assert!(!is_eligible_rarity("RARE"));
    assert!(!is_eligible_rarity("LEGENDARY"));
    assert!(!is_eligible_rarity("common"));
    assert!(!is_eligible_rarity(""));
}

#[test]
fn pools_group_eligible_fish_by_area_in_catalog_order() {
    let fishes = vec![
        fish(1, "COMMON", &["Beach", "Tropical"]),
        fish(2, "RARE", &["Beach"]),
        fish(3, "UNCOMMON", &["Greenfields", "Beach", "Cave"]),
        fish(4, "COMMON", &["Cave"]),
        fish(5, "UNCOMMON", &["Beach", "Beach"]),
    ];
    let pools = eligible_pools(&fishes);
    assert_eq!(pools.len(), 3);
    assert_eq!(pools[&AREA_FUSETA_BEACH], vec![1, 3, 5, 5]);
    assert_eq!(pools[&AREA_SELVA_BANDEIRA], vec![1]);
    assert_eq!(pools[&AREA_GREENFIELDS], vec![3]);
}

#[test]
fn pools_have_no_entry_for_areas_without_eligible_fish() {
    let fishes = vec![fish(7, "RARE", &["Beach"]), fish(8, "COMMON", &["Tropical"])];
    let pools = eligible_pools(&fishes);
    assert_eq!(pools.len(), 1);
    assert!(!pools.contains_key(&AREA_FUSETA_BEACH));
    assert_eq!(pools[&AREA_SELVA_BANDEIRA], vec![8]);
    assert!(eligible_pools(&Vec::new()).is_empty());
}

#[test]
fn generated_quests_are_well_formed() {
    let fishes = vec![
        fish(10, "COMMON", &["Beach"]),
        fish(11, "UNCOMMON", &["Beach", "Greenfields"]),
        fish(12, "COMMON", &["Greenfields"]),
        fish(13, "RARE", &["Tropical"]),
    ];
    let pools = eligible_pools(&fishes);
    for _ in 0..500 {
        let quest = generate_quest(&pools);
        assert!(quest.area_id == AREA_FUSETA_BEACH || quest.area_id == AREA_GREENFIELDS);
        assert!((2..=4).contains(&quest.reward_coins));
        let total: i32 = quest.fishes.iter().map(|(_, amount)| *amount).sum();
        assert_eq!(total, quest.reward_coins);
        let pool = &pools[&quest.area_id];
        let mut seen = Vec::new();
        for (fish_id, amount) in &quest.fishes {
            assert!(pool.contains(fish_id));
            assert!(*amount >= 1);
            assert!(!seen.contains(fish_id));
            seen.push(*fish_id);
        }
    }
}

#[test]
fn a_single_fish_pool_groups_every_draw() {
    let mut pools: HashMap<i32, Vec<i32>> = HashMap::new();
    pools.insert(AREA_SELVA_BANDEIRA, vec![42]);
    pools.insert(AREA_GREENFIELDS, Vec::new());
    for _ in 0..100 {
        let quest = generate_quest(&pools);
        assert_eq!(quest.area_id, AREA_SELVA_BANDEIRA);
        assert_eq!(quest.fishes, vec![(42, quest.reward_coins)]);
    }
}

#[test]
fn draws_are_grouped_by_species() {
    let quest = quest_from_draws(AREA_GREENFIELDS, &vec![5, 9, 5, 5]);
    assert_eq!(quest.area_id, AREA_GREENFIELDS);
    assert_eq!(quest.reward_coins, 4);
    let mut fishes = quest.fishes.clone();
    fishes.sort();
    assert_eq!(fishes, vec![(5, 3), (9, 1)]);

    let quest = quest_from_draws(AREA_FUSETA_BEACH, &vec![7, 7]);
    assert_eq!(quest.reward_coins, 2);
    assert_eq!(quest.fishes, vec![(7, 2)]);

    let quest = quest_from_draws(AREA_FUSETA_BEACH, &vec![1, 2, 3]);
    let mut fishes = quest.fishes.clone();
    fishes.sort();
    assert_eq!(fishes, vec![(1, 1), (2, 1), (3, 1)]);

    let quest = quest_from_draws(AREA_FUSETA_BEACH, &Vec::new());
    assert_eq!(quest.reward_coins, 0);
    assert!(quest.fishes.is_empty());
}
