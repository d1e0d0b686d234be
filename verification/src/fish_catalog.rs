//! Fish catalog and Herb quest generation.
//!
//! Herb's daily quest is generated here: pick a random area, then draw 2-4 individual
//! fish from that area's Common/Uncommon pool (repeats allowed), and reward 1 coin per
//! requested fish.

use rand::seq::SliceRandom;
use rand::Rng;
use std::collections::HashMap;
use vstd::prelude::*;

verus! {

broadcast use vstd::std_specs::hash::group_hash_axioms;

// Area enum ids, mirrored from the game.
pub const AREA_FUSETA_BEACH: i32 = 2;
pub const AREA_SELVA_BANDEIRA: i32 = 3;
pub const AREA_GREENFIELDS: i32 = 4;

/// Areas Herb can appear in (and pick quest fishes from).
pub const HERB_AREAS: [i32; 3] = [AREA_FUSETA_BEACH, AREA_SELVA_BANDEIRA, AREA_GREENFIELDS];

/// Whether `area` is one of the areas Herb can appear in.
pub open spec fn is_herb_area(area: i32) -> bool {
    area == AREA_FUSETA_BEACH || area == AREA_SELVA_BANDEIRA || area == AREA_GREENFIELDS
}

/// One entry of the fish catalog.
pub struct FishDef {
    pub id: i32,
    pub rarity: String,
    pub locations: Vec<String>,
}

/// The area id a catalog location name stands for.
pub open spec fn spec_location_to_area(location: Seq<char>) -> Option<i32> {
    if location == "Beach"@ {
        Some(AREA_FUSETA_BEACH)
    } else if location == "Tropical"@ {
        Some(AREA_SELVA_BANDEIRA)
    } else if location == "Greenfields"@ {
        Some(AREA_GREENFIELDS)
    } else {
        None
    }
}

/// Only 1/2 star fish (Common/Uncommon) are used for Herb quests.
pub open spec fn spec_is_eligible_rarity(rarity: Seq<char>) -> bool {
    rarity == "COMMON"@ || rarity == "UNCOMMON"@
}

/// Text equality of two string slices.
fn same_text(a: &str, b: &str) -> (r: bool)
    ensures
        r == (a@ == b@),
{
    let a_owned = a.to_owned();
    let b_owned = b.to_owned();
    a_owned == b_owned
}

/// Maps a catalog location name to the game's Area enum id.
pub fn location_to_area(location: &str) -> (r: Option<i32>)
    ensures
        r == spec_location_to_area(location@),
{
    if same_text(location, "Beach") {
        Some(AREA_FUSETA_BEACH)
    } else if same_text(location, "Tropical") {
        Some(AREA_SELVA_BANDEIRA)
    } else if same_text(location, "Greenfields") {
        Some(AREA_GREENFIELDS)
    } else {
        None
    }
}

/// Only 1/2 star fish (Common/Uncommon) are used for Herb quests.
pub fn is_eligible_rarity(rarity: &str) -> (r: bool)
    ensures
        r == spec_is_eligible_rarity(rarity@),
{
    same_text(rarity, "COMMON") || same_text(rarity, "UNCOMMON")
}

/// The entries a fish with id `id` and the given locations contributes to the
/// pool of `area`: one per location that maps to `area`, in catalog order.
pub open spec fn location_entries(locations: Seq<String>, area: i32, id: i32) -> Seq<i32>
    decreases locations.len(),
{
    if locations.len() == 0 {
        Seq::empty()
    } else {
        let earlier = location_entries(locations.drop_last(), area, id);
        if spec_location_to_area(locations.last()@) == Some(area) {
            earlier.push(id)
        } else {
            earlier
        }
    }
}

/// The eligible (Common/Uncommon) fish ids catchable in `area`, in catalog order.
pub open spec fn spec_pool(fishes: Seq<FishDef>, area: i32) -> Seq<i32>
    decreases fishes.len(),
{
    if fishes.len() == 0 {
        Seq::empty()
    } else {
        let earlier = spec_pool(fishes.drop_last(), area);
        let fish = fishes.last();
        if spec_is_eligible_rarity(fish.rarity@) {
            earlier + location_entries(fish.locations@, area, fish.id)
        } else {
            earlier
        }
    }
}

/// `pools` holds exactly the non-empty pools of `fishes`, one per area.
pub open spec fn pools_of(pools: Map<i32, Vec<i32>>, fishes: Seq<FishDef>) -> bool {
    forall|area: i32|
        {
            &&& #[trigger] pools.contains_key(area) <==> spec_pool(fishes, area).len() > 0
            &&& pools.contains_key(area) ==> pools[area]@ == spec_pool(fishes, area)
        }
}

/// Appends `id` to the pool of `area`, creating the pool when it is missing.
fn push_to_pool(pools: &mut HashMap<i32, Vec<i32>>, area: i32, id: i32)
    ensures
        final(pools)@.dom() == old(pools)@.dom().insert(area),
        forall|a: i32| a != area && #[trigger] old(pools)@.contains_key(a)
            ==> final(pools)@[a] == old(pools)@[a],
        old(pools)@.contains_key(area) ==> final(pools)@[area]@ == old(pools)@[area]@.push(id),
        !old(pools)@.contains_key(area) ==> final(pools)@[area]@ == seq![id],
{
    match pools.remove(&area) {
        Some(mut pool) => {
            pool.push(id);
            pools.insert(area, pool);
        },
        None => {
            let mut pool = Vec::new();
            pool.push(id);
            pools.insert(area, pool);
        },
    }
}

/// area_id -> eligible (Common/Uncommon) fish ids catchable in that area.
pub fn eligible_pools(fishes: &Vec<FishDef>) -> (pools: HashMap<i32, Vec<i32>>)
    ensures
        pools_of(pools@, fishes@),
{
    let mut pools: HashMap<i32, Vec<i32>> = HashMap::new();
    let mut i: usize = 0;
    while i < fishes.len()
        invariant
            i <= fishes.len(),
            pools_of(pools@, fishes@.take(i as int)),
        decreases fishes.len() - i,
    {
        let fish = &fishes[i];
        let ghost before = fishes@.take(i as int);
        assert(fishes@.take(i + 1).drop_last() =~= before);
        if is_eligible_rarity(fish.rarity.as_str()) {
            let mut j: usize = 0;
            while j < fish.locations.len()
                invariant
                    i < fishes.len(),
                    fish == fishes@[i as int],
                    before == fishes@.take(i as int),
                    j <= fish.locations.len(),
                    forall|area: i32|
                        {
                            let expected = spec_pool(before, area) + location_entries(
                                fish.locations@.take(j as int),
                                area,
                                fish.id,
                            );
                            &&& #[trigger] pools@.contains_key(area) <==> expected.len() > 0
                            &&& pools@.contains_key(area) ==> pools@[area]@ == expected
                        },
                decreases fish.locations.len() - j,
            {
                assert(fish.locations@.take(j + 1).drop_last() =~= fish.locations@.take(j as int));
                match location_to_area(fish.locations[j].as_str()) {
                    Some(area) => {
                        push_to_pool(&mut pools, area, fish.id);
                    },
                    None => {},
                }
                j += 1;
            }
            assert(fish.locations@.take(j as int) =~= fish.locations@);
        }
        i += 1;
    }
    assert(fishes@.take(i as int) =~= fishes@);
    pools
}


/// Picks one element of `items` uniformly at random through
/// `rand::seq::SliceRandom::choose` with the thread-local generator.
/// Claimed: `None` exactly when `items` is empty, otherwise one of its elements.
/// Which element comes back is left open: it rests on chance.
#[verifier::external_body]
fn choose_one(items: &Vec<i32>) -> (r: Option<i32>)
    ensures
        r is None <==> items@.len() == 0,
        r matches Some(x) ==> items@.contains(x),
{
    items.choose(&mut rand::thread_rng()).copied()
}

/// Draws an integer from `low..=high` through `rand::Rng::gen_range` with the
/// thread-local generator. Claimed: the result lies in the range. Which value
/// comes back is left open: it rests on chance.
#[verifier::external_body]
fn random_in_range(low: i32, high: i32) -> (r: i32)
    requires
        low <= high,
    ensures
        low <= r <= high,
{
    rand::thread_rng().gen_range(low..=high)
}

/// A freshly generated Herb quest, before it is persisted.
#[derive(Debug, PartialEq, Eq)]
pub struct GeneratedQuest {
    pub area_id: i32,
    pub reward_coins: i32,
    /// (fish_id, amount) pairs the quest asks for.
    pub fishes: Vec<(i32, i32)>,
}

/// Whether `pools` holds a non-empty pool for `area`.
pub open spec fn has_fish(pools: Map<i32, Vec<i32>>, area: i32) -> bool {
    pools.contains_key(area) && pools[area]@.len() > 0
}

/// At least one Herb area has an eligible fish, so a quest can be generated.
pub open spec fn quest_possible(pools: Map<i32, Vec<i32>>) -> bool {
    has_fish(pools, AREA_FUSETA_BEACH) || has_fish(pools, AREA_SELVA_BANDEIRA) || has_fish(
        pools,
        AREA_GREENFIELDS,
    )
}

/// The total number of individual fish asked for by a list of (fish_id, amount) pairs.
pub open spec fn total_amount(fishes: Seq<(i32, i32)>) -> int
    decreases fishes.len(),
{
    if fishes.len() == 0 {
        0
    } else {
        total_amount(fishes.drop_last()) + fishes.last().1
    }
}

/// Each fish id occurs at most once in the list.
pub open spec fn distinct_fish_ids(fishes: Seq<(i32, i32)>) -> bool {
    forall|a: int, b: int|
        0 <= a < fishes.len() && 0 <= b < fishes.len() && a != b ==> #[trigger] fishes[a].0
            != #[trigger] fishes[b].0
}

/// A well-formed Herb quest drawn from `pools`: a Herb area with eligible fish,
/// 2 to 4 requested fish grouped by species, each from that area's pool, and a
/// reward of exactly one coin per requested fish.
pub open spec fn valid_quest(
    pools: Map<i32, Vec<i32>>,
    area_id: i32,
    reward_coins: i32,
    fishes: Seq<(i32, i32)>,
) -> bool {
    &&& is_herb_area(area_id)
    &&& has_fish(pools, area_id)
    &&& 2 <= reward_coins <= 4
    &&& total_amount(fishes) == reward_coins
    &&& distinct_fish_ids(fishes)
    &&& forall|k: int|
        0 <= k < fishes.len() ==> pools[area_id]@.contains(#[trigger] fishes[k].0) && fishes[k].1
            >= 1
}

proof fn lemma_total_amount_bump(fishes: Seq<(i32, i32)>, k: int, entry: (i32, i32))
    requires
        0 <= k < fishes.len(),
        entry.1 == fishes[k].1 + 1,
    ensures
        total_amount(fishes.update(k, entry)) == total_amount(fishes) + 1,
    decreases fishes.len(),
{
    let updated = fishes.update(k, entry);
    if k == fishes.len() - 1 {
        assert(updated.drop_last() =~= fishes.drop_last());
    } else {
        assert(updated.drop_last() =~= fishes.drop_last().update(k, entry));
        lemma_total_amount_bump(fishes.drop_last(), k, entry);
    }
}

/// Counts one more draw of `fish` in the grouped (fish_id, amount) list: the
/// entry of `fish` goes up by one, or a new entry `(fish, 1)` is appended.
fn count_draw(counts: &mut Vec<(i32, i32)>, fish: i32)
    requires
        distinct_fish_ids(old(counts)@),
        forall|k: int| 0 <= k < old(counts)@.len() ==> #[trigger] old(counts)@[k].1 < i32::MAX,
    ensures
        distinct_fish_ids(final(counts)@),
        total_amount(final(counts)@) == total_amount(old(counts)@) + 1,
        (exists|k: int| 0 <= k < old(counts)@.len() && #[trigger] old(counts)@[k].0 == fish)
            ==> exists|k: int|
            0 <= k < old(counts)@.len() && #[trigger] old(counts)@[k].0 == fish && final(counts)@ == old(counts)@.update(k, (fish, (old(counts)@[k].1 + 1) as i32)),
        !(exists|k: int| 0 <= k < old(counts)@.len() && #[trigger] old(counts)@[k].0 == fish)
            ==> final(counts)@ == old(counts)@.push((fish, 1i32)),
{
    let ghost before = counts@;
    match position_of(counts, fish) {
        Some(k) => {
            let bumped = (fish, counts[k].1 + 1);
            counts.set(k, bumped);
            proof {
                lemma_total_amount_bump(before, k as int, bumped);
                assert forall|j: int| 0 <= j < counts@.len() implies #[trigger] counts@[j].0
                    == before[j].0 by {}
            }
        },
        None => {
            counts.push((fish, 1));
            assert(counts@.drop_last() =~= before);
        },
    }
}

/// The index of the entry for `fish` in the grouped list, if there is one.
fn position_of(counts: &Vec<(i32, i32)>, fish: i32) -> (r: Option<usize>)
    ensures
        r matches Some(k) ==> k < counts@.len() && counts@[k as int].0 == fish,
        r is None ==> forall|j: int| 0 <= j < counts@.len() ==> #[trigger] counts@[j].0 != fish,
{
    let mut k: usize = 0;
    while k < counts.len()
        invariant
            k <= counts.len(),
            forall|j: int| 0 <= j < k ==> #[trigger] counts@[j].0 != fish,
        decreases counts.len() - k,
    {
        if counts[k].0 == fish {
            return Some(k);
        }
        k += 1;
    }
    None
}

/// Appends `area` to `usable` when `pools` holds eligible fish for it.
fn collect_usable_area(pools: &HashMap<i32, Vec<i32>>, area: i32, usable: &mut Vec<i32>)
    requires
        is_herb_area(area),
    ensures
        has_fish(pools@, area) ==> final(usable)@ == old(usable)@.push(area),
        !has_fish(pools@, area) ==> final(usable)@ == old(usable)@,
{
    match pools.get(&area) {
        Some(pool) => {
            if pool.len() > 0 {
                usable.push(area);
            }
        },
        None => {},
    }
}

/// How often `id` was drawn.
pub open spec fn occurrences(draws: Seq<i32>, id: i32) -> int
    decreases draws.len(),
{
    if draws.len() == 0 {
        0
    } else {
        occurrences(draws.drop_last(), id) + if draws.last() == id {
            1int
        } else {
            0
        }
    }
}

/// `fishes` groups `draws` by species: one entry per drawn species, whose
/// amount is how often it was drawn.
pub open spec fn groups_draws(fishes: Seq<(i32, i32)>, draws: Seq<i32>) -> bool {
    &&& distinct_fish_ids(fishes)
    &&& forall|k: int|
        0 <= k < fishes.len() ==> draws.contains(#[trigger] fishes[k].0) && fishes[k].1
            == occurrences(draws, fishes[k].0)
    &&& forall|j: int|
        0 <= j < draws.len() ==> exists|k: int|
            0 <= k < fishes.len() && #[trigger] fishes[k].0 == #[trigger] draws[j]
}

proof fn lemma_occurrences_bounds(draws: Seq<i32>, id: i32)
    ensures
        0 <= occurrences(draws, id) <= draws.len(),
        occurrences(draws, id) > 0 <==> draws.contains(id),
    decreases draws.len(),
{
    if draws.len() > 0 {
        lemma_occurrences_bounds(draws.drop_last(), id);
        if draws.drop_last().contains(id) {
            let j = choose|j: int| 0 <= j < draws.drop_last().len() && draws.drop_last()[j] == id;
            assert(draws[j] == id);
        }
        if draws.contains(id) && draws.last() != id {
            let j = choose|j: int| 0 <= j < draws.len() && draws[j] == id;
            assert(draws.drop_last()[j] == id);
        }
    }
}

/// The quest for `area_id` that asks for exactly the fish drawn: the draws
/// grouped by species, and one coin per drawn fish.
///
/// The groups are kept in a `Vec` of (fish_id, amount) pairs in order of first
/// draw rather than in a `HashMap`: the stored quest is a list of pairs, and a
/// map's walk order is left open, so a list states the answer exactly.
pub fn quest_from_draws(area_id: i32, draws: &Vec<i32>) -> (quest: GeneratedQuest)
    requires
        draws@.len() <= i32::MAX,
    ensures
        quest.area_id == area_id,
        quest.reward_coins == draws@.len(),
        total_amount(quest.fishes@) == draws@.len(),
        groups_draws(quest.fishes@, draws@),
{
    let mut counts: Vec<(i32, i32)> = Vec::new();
    let mut i: usize = 0;
    while i < draws.len()
        invariant
            i <= draws@.len() <= i32::MAX,
            total_amount(counts@) == i,
            groups_draws(counts@, draws@.take(i as int)),
        decreases draws.len() - i,
    {
        let fish_id = draws[i];
        let ghost before = counts@;
        let ghost seen = draws@.take(i as int);
        let ghost now_seen = draws@.take(i + 1);
        assert(now_seen.drop_last() =~= seen);
        assert(now_seen.last() == fish_id);
        assert forall|k: int| 0 <= k < counts@.len() implies #[trigger] counts@[k].1 < i32::MAX by {
            lemma_occurrences_bounds(seen, counts@[k].0);
        }
        count_draw(&mut counts, fish_id);
        proof {
            assert forall|k: int| 0 <= k < counts@.len() implies now_seen.contains(
                #[trigger] counts@[k].0,
            ) && counts@[k].1 == occurrences(now_seen, counts@[k].0) by {
                assert(now_seen[i as int] == fish_id);
                if exists|m: int| 0 <= m < before.len() && #[trigger] before[m].0 == fish_id {
                    let m = choose|m: int|
                        0 <= m < before.len() && #[trigger] before[m].0 == fish_id && counts@
                            == before.update(m, (fish_id, (before[m].1 + 1) as i32));
                    if k != m {
                        assert(counts@[k] == before[k]);
                        let j = choose|j: int| 0 <= j < seen.len() && seen[j] == counts@[k].0;
                        assert(now_seen[j] == seen[j]);
                    }
                } else if k < before.len() {
                    assert(counts@[k] == before[k]);
                    let j = choose|j: int| 0 <= j < seen.len() && seen[j] == counts@[k].0;
                    assert(now_seen[j] == seen[j]);
                } else {
                    // A species seen for the first time.
                    if seen.contains(fish_id) {
                        let j = choose|j: int| 0 <= j < seen.len() && seen[j] == fish_id;
                        let m = choose|m: int|
                            0 <= m < before.len() && #[trigger] before[m].0 == #[trigger] seen[j];
                        assert(before[m].0 == fish_id);
                    }
                    lemma_occurrences_bounds(seen, fish_id);
                }
            }
            assert forall|j: int| 0 <= j < now_seen.len() implies exists|k: int|
                0 <= k < counts@.len() && #[trigger] counts@[k].0 == #[trigger] now_seen[j] by {
                if j < seen.len() {
                    assert(now_seen[j] == seen[j]);
                    let m = choose|m: int|
                        0 <= m < before.len() && #[trigger] before[m].0 == #[trigger] seen[j];
                    if exists|m2: int| 0 <= m2 < before.len() && #[trigger] before[m2].0 == fish_id {
                        let m2 = choose|m2: int|
                            0 <= m2 < before.len() && #[trigger] before[m2].0 == fish_id && counts@
                                == before.update(m2, (fish_id, (before[m2].1 + 1) as i32));
                        assert(counts@[m].0 == before[m].0);
                    } else {
                        assert(counts@[m] == before[m]);
                    }
                } else {
                    if exists|m2: int| 0 <= m2 < before.len() && #[trigger] before[m2].0 == fish_id {
                        let m2 = choose|m2: int|
                            0 <= m2 < before.len() && #[trigger] before[m2].0 == fish_id && counts@
                                == before.update(m2, (fish_id, (before[m2].1 + 1) as i32));
                        assert(counts@[m2].0 == fish_id);
                    } else {
                        assert(counts@[before.len() as int].0 == fish_id);
                    }
                }
            }
        }
        i += 1;
    }
    assert(draws@.take(i as int) =~= draws@);
    GeneratedQuest { area_id, reward_coins: draws.len() as i32, fishes: counts }
}

/// Generates a new random Herb quest from the eligible pools.
///
/// Picks a random usable area, draws a total of 2-4 individual fish from that area's
/// Common/Uncommon pool (with repeats), groups them into (fish_id, amount) entries and
/// rewards 1 coin per requested fish.
pub fn generate_quest(pools: &HashMap<i32, Vec<i32>>) -> (quest: GeneratedQuest)
    requires
        quest_possible(pools@),
    ensures
        valid_quest(pools@, quest.area_id, quest.reward_coins, quest.fishes@),
{
    // Only areas that actually have an eligible fish can host a quest.
    let mut usable_areas: Vec<i32> = Vec::new();
    collect_usable_area(pools, AREA_FUSETA_BEACH, &mut usable_areas);
    collect_usable_area(pools, AREA_SELVA_BANDEIRA, &mut usable_areas);
    collect_usable_area(pools, AREA_GREENFIELDS, &mut usable_areas);
    assert(forall|k: int|
        0 <= k < usable_areas@.len() ==> is_herb_area(#[trigger] usable_areas@[k]) && has_fish(
            pools@,
            usable_areas@[k],
        ));
    assert(usable_areas@.len() > 0);

    let area_id = choose_one(&usable_areas).unwrap();
    let pool = pools.get(&area_id).unwrap();
    assert(pool@ == pools@[area_id]@);

    let total_fish = random_in_range(2, 4);

    let mut draws: Vec<i32> = Vec::new();
    let mut drawn: i32 = 0;
    while drawn < total_fish
        invariant
            0 <= drawn <= total_fish <= 4,
            pool@.len() > 0,
            draws@.len() == drawn,
            forall|j: int| 0 <= j < draws@.len() ==> pool@.contains(#[trigger] draws@[j]),
        decreases total_fish - drawn,
    {
        draws.push(choose_one(pool).unwrap());
        drawn += 1;
    }

    let quest = quest_from_draws(area_id, &draws);
    assert forall|k: int| 0 <= k < quest.fishes@.len() implies pool@.contains(
        #[trigger] quest.fishes@[k].0,
    ) && quest.fishes@[k].1 >= 1 by {
        let j = choose|j: int| 0 <= j < draws@.len() && draws@[j] == quest.fishes@[k].0;
        assert(pool@.contains(draws@[j]));
        lemma_occurrences_bounds(draws@, quest.fishes@[k].0);
    }
    quest
}

/// Catalog fish `fish` is eligible and can be caught in `area`.
pub open spec fn eligible_in(fish: FishDef, area: i32) -> bool {
    &&& spec_is_eligible_rarity(fish.rarity@)
    &&& exists|j: int|
        0 <= j < fish.locations@.len() && spec_location_to_area(#[trigger] fish.locations@[j]@)
            == Some(area)
}

proof fn lemma_location_entries_found(locations: Seq<String>, area: i32, id: i32, k: int)
    requires
        0 <= k < location_entries(locations, area, id).len(),
    ensures
        location_entries(locations, area, id)[k] == id,
        exists|j: int|
            0 <= j < locations.len() && spec_location_to_area(#[trigger] locations[j]@) == Some(
                area,
            ),
    decreases locations.len(),
{
    let earlier = location_entries(locations.drop_last(), area, id);
    if k < earlier.len() {
        lemma_location_entries_found(locations.drop_last(), area, id, k);
        let j = choose|j: int|
            0 <= j < locations.drop_last().len() && spec_location_to_area(
                #[trigger] locations.drop_last()[j]@,
            ) == Some(area);
        assert(locations[j] == locations.drop_last()[j]);
    } else {
        assert(spec_location_to_area(locations[locations.len() - 1]@) == Some(area));
    }
}

proof fn lemma_pool_entry_found(fishes: Seq<FishDef>, area: i32, k: int)
    requires
        0 <= k < spec_pool(fishes, area).len(),
    ensures
        exists|i: int|
            0 <= i < fishes.len() && #[trigger] fishes[i].id == spec_pool(fishes, area)[k]
                && eligible_in(fishes[i], area),
    decreases fishes.len(),
{
    let earlier = spec_pool(fishes.drop_last(), area);
    let fish = fishes.last();
    if k < earlier.len() {
        lemma_pool_entry_found(fishes.drop_last(), area, k);
        let i = choose|i: int|
            0 <= i < fishes.drop_last().len() && #[trigger] fishes.drop_last()[i].id
                == earlier[k] && eligible_in(fishes.drop_last()[i], area);
        assert(fishes[i] == fishes.drop_last()[i]);
    } else {
        lemma_location_entries_found(fish.locations@, area, fish.id, k - earlier.len());
        assert(fishes[fishes.len() - 1] == fish);
    }
}

/// Herb only asks for Common/Uncommon fish of the catalog that can be caught
/// in the quest's area: every fish of a valid quest drawn from the catalog's
/// pools is such a fish.
pub proof fn law_quest_fish_eligible(
    fishes: Seq<FishDef>,
    pools: Map<i32, Vec<i32>>,
    area_id: i32,
    reward_coins: i32,
    quest_fishes: Seq<(i32, i32)>,
    k: int,
)
    requires
        pools_of(pools, fishes),
        valid_quest(pools, area_id, reward_coins, quest_fishes),
        0 <= k < quest_fishes.len(),
    ensures
        exists|i: int|
            0 <= i < fishes.len() && #[trigger] fishes[i].id == quest_fishes[k].0 && eligible_in(
                fishes[i],
                area_id,
            ),
{
    let pool = spec_pool(fishes, area_id);
    assert(pools.contains_key(area_id));
    assert(pools[area_id]@ == pool);
    assert(pool.contains(quest_fishes[k].0));
    let p = choose|p: int| 0 <= p < pool.len() && pool[p] == quest_fishes[k].0;
    lemma_pool_entry_found(fishes, area_id, p);
}

} // verus!
