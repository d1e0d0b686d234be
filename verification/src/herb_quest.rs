//! Herb's global daily quest: when it rolls over, which quest is current, and
//! what handing it in does.
//!
//! The database owns the quest. The functions here take what was read from it
//! (as plain values: ids as `u128`, times as Unix seconds) and decide what is
//! answered and what is written.

use std::collections::HashMap;
use vstd::prelude::*;
use crate::fish_catalog::{generate_quest, valid_quest, quest_possible, GeneratedQuest};
use crate::ids::{fresh_id, is_v4_uuid};

verus! {

pub const SECONDS_PER_DAY: i64 = 86400;

/// Herb moves on every day at 04:00 UTC.
pub const ROLLOVER_SECOND_OF_DAY: i64 = 14400;

/// `r` is the first 04:00 UTC strictly after `now`.
pub open spec fn is_next_rollover(now: int, r: int) -> bool {
    &&& r % (SECONDS_PER_DAY as int) == ROLLOVER_SECOND_OF_DAY as int
    &&& now < r <= now + SECONDS_PER_DAY
}

/// The next 04:00 UTC strictly after `now` (both in Unix seconds).
pub fn next_rollover(now: i64) -> (r: i64)
    requires
        i64::MIN + SECONDS_PER_DAY <= now <= i64::MAX - 2 * SECONDS_PER_DAY,
    ensures
        is_next_rollover(now as int, r as int),
{
    // Seconds since midnight (UTC) of the day `now` falls in.
    let second_of_day: i64 = if now >= 0 {
        now % SECONDS_PER_DAY
    } else {
        let before_midnight: i64 = (-(now + 1)) % SECONDS_PER_DAY;
        proof {
            let x = -(now + 1);
            vstd::arithmetic::div_mod::lemma_fundamental_div_mod(x, 86400);
            let q = x / 86400;
            vstd::arithmetic::div_mod::lemma_fundamental_div_mod_converse(
                now as int,
                86400,
                -q - 1,
                86399 - before_midnight,
            );
        }
        86399 - before_midnight
    };
    assert(second_of_day == now % 86400);
    proof {
        vstd::arithmetic::div_mod::lemma_fundamental_div_mod(now as int, 86400);
        let q = (now as int) / 86400;
        vstd::arithmetic::div_mod::lemma_fundamental_div_mod_converse(
            now - second_of_day + ROLLOVER_SECOND_OF_DAY,
            86400,
            q,
            ROLLOVER_SECOND_OF_DAY as int,
        );
        vstd::arithmetic::div_mod::lemma_fundamental_div_mod_converse(
            now - second_of_day + ROLLOVER_SECOND_OF_DAY + SECONDS_PER_DAY,
            86400,
            q + 1,
            ROLLOVER_SECOND_OF_DAY as int,
        );
    }
    let today_four = now - second_of_day + ROLLOVER_SECOND_OF_DAY;
    if now < today_four {
        today_four
    } else {
        today_four + SECONDS_PER_DAY
    }
}

/// How long to wait at `now` until Herb's next move.
pub fn seconds_until_rollover(now: i64) -> (r: i64)
    requires
        i64::MIN + SECONDS_PER_DAY <= now <= i64::MAX - 2 * SECONDS_PER_DAY,
    ensures
        is_next_rollover(now as int, now + r),
        0 < r <= SECONDS_PER_DAY,
{
    next_rollover(now) - now
}

/// The stored current quest (one row of the quest table).
#[derive(Debug, Clone, Copy, PartialEq, Eq)]
pub struct StoredQuest {
    pub quest_id: u128,
    pub area_id: i32,
    pub reward_coins: i32,
    /// Unix seconds of Herb's next move.
    pub next_move_at: i64,
    /// Unix seconds of the quest's creation.
    pub created_at: i64,
}

/// One fish species the stored quest asks for (one row of the quest fish table).
#[derive(Debug, Clone, Copy, PartialEq, Eq)]
pub struct StoredQuestFish {
    pub quest_id: u128,
    pub fish_id: i32,
    pub amount: i32,
}

/// The stored current quest together with its fishes.
#[derive(Debug, PartialEq, Eq)]
pub struct QuestSnapshot {
    pub quest: StoredQuest,
    pub fishes: Vec<StoredQuestFish>,
}

/// A player's Herb quest progress: the last accepted and last completed quest.
#[derive(Debug, Clone, Copy, PartialEq, Eq)]
pub struct PlayerQuestState {
    pub user_id: u128,
    pub last_completed_quest_id: Option<u128>,
    pub last_accepted_quest_id: Option<u128>,
}

/// A single fish stack the player hands in for the Herb quest.
#[derive(Debug, PartialEq, Eq)]
pub struct HandInFish {
    pub fish_uid: u128,
    pub fish_id: i32,
    /// The amount left in the stack after handing in; 0 or less destroys the stack.
    pub fish_amount: i32,
    pub new_state_blob: Option<String>,
}

/// The current Herb quest, ready to be handed to the game.
#[derive(Debug, PartialEq, Eq)]
pub struct CurrentQuest {
    pub quest_id: u128,
    pub area_id: i32,
    pub reward_coins: i32,
    /// Unix seconds of Herb's next move.
    pub next_move_at: i64,
    /// (fish_id, amount) pairs the quest asks for.
    pub fishes: Vec<(i32, i32)>,
}

/// One fish species the current Herb quest asks for, as answered to the game.
#[derive(Debug, Clone, Copy, PartialEq, Eq)]
pub struct HerbQuestFishDto {
    pub fish_id: i32,
    pub amount: i32,
}

/// A freshly generated quest with everything needed to store it.
#[derive(Debug, PartialEq, Eq)]
pub struct QuestRecord {
    pub quest_id: u128,
    pub area_id: i32,
    pub reward_coins: i32,
    pub next_move_at: i64,
    pub created_at: i64,
    pub fishes: Vec<(i32, i32)>,
}

/// Why a Herb quest request is refused.
#[derive(Debug, Clone, Copy, PartialEq, Eq)]
pub enum HerbQuestError {
    /// There is no current quest to hand in.
    NoCurrentQuest,
    /// The quest named in the request is not the current quest.
    NotCurrentQuest,
    /// The player already handed in this quest.
    AlreadyCompleted,
    /// A handed-in fish is of a species the quest does not ask for.
    FishNotInQuest(i32),
    /// A handed-in stack that is kept lacks its new state blob.
    MissingStateBlob,
    /// The quest just generated could not be read back.
    QuestMissingAfterGeneration,
}

/// One write to the player's inventory that handing in the quest makes.
#[derive(Debug, PartialEq, Eq)]
pub enum InventoryChange {
    /// The stack is used up and removed.
    Destroy { item_uid: u128 },
    /// The stack is kept with its new state.
    Store { item_uid: u128, definition_id: i32, state_blob: String },
}

/// How a hand-in ends once its inventory writes are made.
#[derive(Debug, Clone, Copy, PartialEq, Eq)]
pub enum HandInEnd {
    /// Every stack was written: the player is paid this many coins.
    Reward(i32),
    /// A kept stack lacks its new state blob: the hand-in fails there.
    MissingStateBlob,
}

/// What handing in writes, in the order of the handed-in fishes: the
/// inventory changes up to the first stack that has no write, and how it ends.
#[derive(Debug, PartialEq, Eq)]
pub struct HandInPlan {
    pub changes: Vec<InventoryChange>,
    pub end: HandInEnd,
}

/// Whether the quest's fishes include the species `fish_id`.
pub open spec fn quest_asks_for(quest_fishes: Seq<StoredQuestFish>, fish_id: i32) -> bool {
    exists|j: int| 0 <= j < quest_fishes.len() && #[trigger] quest_fishes[j].fish_id == fish_id
}

/// The species of the first handed-in fish that the quest does not ask for.
pub open spec fn first_foreign_fish(
    hand_in: Seq<HandInFish>,
    quest_fishes: Seq<StoredQuestFish>,
) -> Option<i32>
    decreases hand_in.len(),
{
    if hand_in.len() == 0 {
        None
    } else {
        match first_foreign_fish(hand_in.drop_last(), quest_fishes) {
            Some(id) => Some(id),
            None => if quest_asks_for(quest_fishes, hand_in.last().fish_id) {
                None
            } else {
                Some(hand_in.last().fish_id)
            },
        }
    }
}

/// The inventory write for one handed-in fish: a used-up stack is destroyed, a
/// kept stack is stored with its new, non-empty state blob; a kept stack
/// without one has no write (the hand-in fails).
pub open spec fn change_for(fish: HandInFish) -> Option<InventoryChange> {
    if fish.fish_amount <= 0 {
        Some(InventoryChange::Destroy { item_uid: fish.fish_uid })
    } else if fish.new_state_blob is Some && fish.new_state_blob->0@.len() > 0 {
        Some(
            InventoryChange::Store {
                item_uid: fish.fish_uid,
                definition_id: fish.fish_id,
                state_blob: fish.new_state_blob->0,
            },
        )
    } else {
        None
    }
}

/// The inventory writes for all handed-in fishes, in order, or `None` when one
/// of them has no write.
pub open spec fn changes_for(hand_in: Seq<HandInFish>) -> Option<Seq<InventoryChange>>
    decreases hand_in.len(),
{
    if hand_in.len() == 0 {
        Some(Seq::empty())
    } else {
        match changes_for(hand_in.drop_last()) {
            None => None,
            Some(earlier) => match change_for(hand_in.last()) {
                None => None,
                Some(change) => Some(earlier.push(change)),
            },
        }
    }
}

/// The inventory writes made, in order, before the first handed-in stack
/// that has no write (all of them when every stack has one).
pub open spec fn writes_until_failure(hand_in: Seq<HandInFish>) -> Seq<InventoryChange>
    decreases hand_in.len(),
{
    if hand_in.len() == 0 {
        Seq::empty()
    } else {
        match changes_for(hand_in.drop_last()) {
            None => writes_until_failure(hand_in.drop_last()),
            Some(earlier) => match change_for(hand_in.last()) {
                None => earlier,
                Some(change) => earlier.push(change),
            },
        }
    }
}

/// The quest a hand-in or an acceptance names must be the current one.
pub open spec fn spec_target(current: Option<QuestSnapshot>, quest_id: u128) -> Result<
    QuestSnapshot,
    HerbQuestError,
> {
    match current {
        None => Err(HerbQuestError::NoCurrentQuest),
        Some(snapshot) => if snapshot.quest.quest_id == quest_id {
            Ok(snapshot)
        } else {
            Err(HerbQuestError::NotCurrentQuest)
        },
    }
}

/// What handing in the current quest `snapshot` with `hand_in` amounts to, for
/// a player whose progress is `state`: the inventory writes and the reward, or
/// why it is refused. The reward always is the stored one.
pub open spec fn spec_plan_hand_in(
    snapshot: QuestSnapshot,
    state: Option<PlayerQuestState>,
    hand_in: Seq<HandInFish>,
) -> Result<(Seq<InventoryChange>, i32), HerbQuestError> {
    if state is Some && state->0.last_completed_quest_id == Some(snapshot.quest.quest_id) {
        Err(HerbQuestError::AlreadyCompleted)
    } else if first_foreign_fish(hand_in, snapshot.fishes@) is Some {
        Err(HerbQuestError::FishNotInQuest(first_foreign_fish(hand_in, snapshot.fishes@)->0))
    } else {
        match changes_for(hand_in) {
            None => Err(HerbQuestError::MissingStateBlob),
            Some(changes) => Ok((changes, snapshot.quest.reward_coins)),
        }
    }
}

/// The whole hand-in of quest `quest_id`, from the current stored quest on.
pub open spec fn spec_complete_quest(
    current: Option<QuestSnapshot>,
    state: Option<PlayerQuestState>,
    quest_id: u128,
    hand_in: Seq<HandInFish>,
) -> Result<(Seq<InventoryChange>, i32), HerbQuestError> {
    match spec_target(current, quest_id) {
        Err(e) => Err(e),
        Ok(snapshot) => spec_plan_hand_in(snapshot, state, hand_in),
    }
}

/// Checks that `quest_id` names the current quest and hands that quest back.
pub fn hand_in_target(current: Option<QuestSnapshot>, quest_id: u128) -> (r: Result<
    QuestSnapshot,
    HerbQuestError,
>)
    ensures
        r == spec_target(current, quest_id),
{
    match current {
        None => Err(HerbQuestError::NoCurrentQuest),
        Some(snapshot) => {
            if snapshot.quest.quest_id == quest_id {
                Ok(snapshot)
            } else {
                Err(HerbQuestError::NotCurrentQuest)
            }
        },
    }
}

/// Acceptance is only recorded for the quest that is actually current.
pub fn check_acceptance(current: &Option<QuestSnapshot>, quest_id: u128) -> (r: Result<
    (),
    HerbQuestError,
>)
    ensures
        r is Ok <==> (current is Some && current->0.quest.quest_id == quest_id),
        r is Err ==> r == Err::<(), HerbQuestError>(HerbQuestError::NotCurrentQuest),
{
    match current {
        Some(snapshot) => {
            if snapshot.quest.quest_id == quest_id {
                Ok(())
            } else {
                Err(HerbQuestError::NotCurrentQuest)
            }
        },
        None => Err(HerbQuestError::NotCurrentQuest),
    }
}

/// Whether the quest's fishes include the species `fish_id`.
fn asks_for(quest_fishes: &Vec<StoredQuestFish>, fish_id: i32) -> (r: bool)
    ensures
        r == quest_asks_for(quest_fishes@, fish_id),
{
    let mut j: usize = 0;
    while j < quest_fishes.len()
        invariant
            j <= quest_fishes.len(),
            forall|k: int| 0 <= k < j ==> #[trigger] quest_fishes@[k].fish_id != fish_id,
        decreases quest_fishes.len() - j,
    {
        if quest_fishes[j].fish_id == fish_id {
            return true;
        }
        j += 1;
    }
    false
}

/// Plans the hand-in of the current quest: validates it against the stored
/// quest and the player's progress, and derives the inventory writes and the
/// reward from it (never from a value the client sent).
pub fn plan_hand_in(
    snapshot: &QuestSnapshot,
    state: &Option<PlayerQuestState>,
    hand_in: &Vec<HandInFish>,
) -> (r: Result<HandInPlan, HerbQuestError>)
    ensures
        match r {
            Err(e) => e != HerbQuestError::MissingStateBlob && spec_plan_hand_in(
                *snapshot,
                *state,
                hand_in@,
            ) == Err::<(Seq<InventoryChange>, i32), HerbQuestError>(e),
            Ok(plan) => plan.changes@ == writes_until_failure(hand_in@) && match plan.end {
                HandInEnd::Reward(coins) => spec_plan_hand_in(*snapshot, *state, hand_in@) == Ok::<
                    (Seq<InventoryChange>, i32),
                    HerbQuestError,
                >((plan.changes@, coins)),
                HandInEnd::MissingStateBlob => spec_plan_hand_in(*snapshot, *state, hand_in@)
                    == Err::<(Seq<InventoryChange>, i32), HerbQuestError>(
                    HerbQuestError::MissingStateBlob,
                ),
            },
        },
{
    // Block a second hand-in of the same quest.
    match state {
        Some(progress) => {
            if progress.last_completed_quest_id == Some(snapshot.quest.quest_id) {
                return Err(HerbQuestError::AlreadyCompleted);
            }
        },
        None => {},
    }

    // Every handed-in fish must be a species the quest asked for.
    let mut i: usize = 0;
    while i < hand_in.len()
        invariant
            i <= hand_in.len(),
            !(*state is Some && state->0.last_completed_quest_id == Some(snapshot.quest.quest_id)),
            first_foreign_fish(hand_in@.take(i as int), snapshot.fishes@) is None,
        decreases hand_in.len() - i,
    {
        assert(hand_in@.take(i + 1).drop_last() =~= hand_in@.take(i as int));
        if !asks_for(&snapshot.fishes, hand_in[i].fish_id) {
            assert(hand_in@.take(i + 1).last() == hand_in@[i as int]);
            proof {
                lemma_first_foreign_prefix(hand_in@, snapshot.fishes@, i + 1);
            }
            return Err(HerbQuestError::FishNotInQuest(hand_in[i].fish_id));
        }
        i += 1;
    }
    assert(hand_in@.take(i as int) =~= hand_in@);

    // The inventory writes the (trusted) game server computed.
    let mut changes: Vec<InventoryChange> = Vec::new();
    let mut i: usize = 0;
    while i < hand_in.len()
        invariant
            i <= hand_in.len(),
            !(*state is Some && state->0.last_completed_quest_id == Some(snapshot.quest.quest_id)),
            first_foreign_fish(hand_in@, snapshot.fishes@) is None,
            changes_for(hand_in@.take(i as int)) == Some(changes@),
            writes_until_failure(hand_in@.take(i as int)) == changes@,
        decreases hand_in.len() - i,
    {
        assert(hand_in@.take(i + 1).drop_last() =~= hand_in@.take(i as int));
        let fish = &hand_in[i];
        assert(hand_in@.take(i + 1).last() == hand_in@[i as int]);
        if fish.fish_amount <= 0 {
            changes.push(InventoryChange::Destroy { item_uid: fish.fish_uid });
        } else {
            match &fish.new_state_blob {
                Some(blob) => {
                    if blob.as_str().is_empty() {
                        proof {
                            lemma_changes_prefix_none(hand_in@, i + 1);
                            lemma_writes_stop_at_failure(hand_in@, i + 1);
                        }
                        return Ok(HandInPlan { changes, end: HandInEnd::MissingStateBlob });
                    }
                    changes.push(
                        InventoryChange::Store {
                            item_uid: fish.fish_uid,
                            definition_id: fish.fish_id,
                            state_blob: blob.clone(),
                        },
                    );
                },
                None => {
                    proof {
                        lemma_changes_prefix_none(hand_in@, i + 1);
                        lemma_writes_stop_at_failure(hand_in@, i + 1);
                    }
                    return Ok(HandInPlan { changes, end: HandInEnd::MissingStateBlob });
                },
            }
        }
        i += 1;
    }
    assert(hand_in@.take(i as int) =~= hand_in@);

    // The reward comes from the stored quest, never from the client-sent value.
    Ok(HandInPlan { changes, end: HandInEnd::Reward(snapshot.quest.reward_coins) })
}

/// Once a prefix has a foreign fish, the whole list has the same first foreign fish.
proof fn lemma_first_foreign_prefix(
    hand_in: Seq<HandInFish>,
    quest_fishes: Seq<StoredQuestFish>,
    n: int,
)
    requires
        0 <= n <= hand_in.len(),
        first_foreign_fish(hand_in.take(n), quest_fishes) is Some,
    ensures
        first_foreign_fish(hand_in, quest_fishes) == first_foreign_fish(
            hand_in.take(n),
            quest_fishes,
        ),
    decreases hand_in.len() - n,
{
    if n < hand_in.len() {
        assert(hand_in.take(n + 1).drop_last() =~= hand_in.take(n));
        lemma_first_foreign_prefix(hand_in, quest_fishes, n + 1);
    } else {
        assert(hand_in.take(n) =~= hand_in);
    }
}

/// Once a prefix has a stack without a write, no later stack is written.
proof fn lemma_writes_stop_at_failure(hand_in: Seq<HandInFish>, n: int)
    requires
        0 <= n <= hand_in.len(),
        changes_for(hand_in.take(n)) is None,
    ensures
        writes_until_failure(hand_in) == writes_until_failure(hand_in.take(n)),
    decreases hand_in.len() - n,
{
    if n < hand_in.len() {
        assert(hand_in.take(n + 1).drop_last() =~= hand_in.take(n));
        lemma_writes_stop_at_failure(hand_in, n + 1);
    } else {
        assert(hand_in.take(n) =~= hand_in);
    }
}

/// Once a prefix has a stack without a write, the whole list has none.
proof fn lemma_changes_prefix_none(hand_in: Seq<HandInFish>, n: int)
    requires
        0 <= n <= hand_in.len(),
        changes_for(hand_in.take(n)) is None,
    ensures
        changes_for(hand_in) is None,
    decreases hand_in.len() - n,
{
    if n < hand_in.len() {
        assert(hand_in.take(n + 1).drop_last() =~= hand_in.take(n));
        lemma_changes_prefix_none(hand_in, n + 1);
    } else {
        assert(hand_in.take(n) =~= hand_in);
    }
}

/// The (fish_id, amount) pairs of the stored quest fishes, in order.
pub open spec fn fish_pairs(fishes: Seq<StoredQuestFish>) -> Seq<(i32, i32)> {
    fishes.map_values(|f: StoredQuestFish| (f.fish_id, f.amount))
}

impl CurrentQuest {
    /// Whether this answer shows exactly the stored quest `snapshot`.
    pub open spec fn shows(&self, snapshot: QuestSnapshot) -> bool {
        &&& self.quest_id == snapshot.quest.quest_id
        &&& self.area_id == snapshot.quest.area_id
        &&& self.reward_coins == snapshot.quest.reward_coins
        &&& self.next_move_at == snapshot.quest.next_move_at
        &&& self.fishes@ == fish_pairs(snapshot.fishes@)
    }

    /// The current quest as answered to the game, read from its stored rows.
    pub fn from_snapshot(snapshot: &QuestSnapshot) -> (r: CurrentQuest)
        ensures
            r.shows(*snapshot),
    {
        let mut fishes: Vec<(i32, i32)> = Vec::new();
        let mut i: usize = 0;
        while i < snapshot.fishes.len()
            invariant
                i <= snapshot.fishes.len(),
                fishes@ == fish_pairs(snapshot.fishes@.take(i as int)),
            decreases snapshot.fishes.len() - i,
        {
            fishes.push((snapshot.fishes[i].fish_id, snapshot.fishes[i].amount));
            assert(fish_pairs(snapshot.fishes@.take(i + 1)) =~= fish_pairs(
                snapshot.fishes@.take(i as int),
            ).push((snapshot.fishes@[i as int].fish_id, snapshot.fishes@[i as int].amount)));
            i += 1;
        }
        assert(snapshot.fishes@.take(i as int) =~= snapshot.fishes@);
        CurrentQuest {
            quest_id: snapshot.quest.quest_id,
            area_id: snapshot.quest.area_id,
            reward_coins: snapshot.quest.reward_coins,
            next_move_at: snapshot.quest.next_move_at,
            fishes,
        }
    }
}

/// The quest read back right after a new one was generated and stored; it
/// must be there.
pub fn current_after_generation(reread: Option<QuestSnapshot>) -> (r: Result<
    CurrentQuest,
    HerbQuestError,
>)
    ensures
        reread is None <==> r == Err::<CurrentQuest, HerbQuestError>(
            HerbQuestError::QuestMissingAfterGeneration,
        ),
        reread is Some ==> (r matches Ok(quest) && quest.shows(reread->0)),
{
    match reread {
        Some(snapshot) => Ok(CurrentQuest::from_snapshot(&snapshot)),
        None => Err(HerbQuestError::QuestMissingAfterGeneration),
    }
}

/// On boot a new quest is needed when there is none, when the stored one has
/// expired (the server was down across a rollover), or when it asks for no fish.
pub open spec fn spec_needs_new_quest(stored: Option<QuestSnapshot>, now: i64) -> bool {
    match stored {
        None => true,
        Some(snapshot) => snapshot.quest.next_move_at <= now || snapshot.fishes@.len() == 0,
    }
}

/// Whether a new quest must be generated on boot (`now` in Unix seconds).
pub fn needs_new_quest(stored: &Option<QuestSnapshot>, now: i64) -> (r: bool)
    ensures
        r == spec_needs_new_quest(*stored, now),
        stored is None ==> r,
        stored matches Some(snapshot) ==> (r <==> (snapshot.quest.next_move_at <= now
            || snapshot.fishes@.len() == 0)),
{
    match stored {
        None => true,
        Some(snapshot) => snapshot.quest.next_move_at <= now || snapshot.fishes.len() == 0,
    }
}

/// The stored form of the generated quest `generated`, under id `quest_id`,
/// created at `now` and moving on at the next rollover.
pub fn quest_record(quest_id: u128, generated: GeneratedQuest, now: i64) -> (r: QuestRecord)
    requires
        i64::MIN + SECONDS_PER_DAY <= now <= i64::MAX - 2 * SECONDS_PER_DAY,
    ensures
        r.quest_id == quest_id,
        r.area_id == generated.area_id,
        r.reward_coins == generated.reward_coins,
        r.fishes@ == generated.fishes@,
        is_next_rollover(now as int, r.next_move_at as int),
        r.created_at == now,
{
    QuestRecord {
        quest_id,
        area_id: generated.area_id,
        reward_coins: generated.reward_coins,
        next_move_at: next_rollover(now),
        created_at: now,
        fishes: generated.fishes,
    }
}

/// Generates the next quest (Herb's next move) at time `now`: a fresh id, a
/// random valid quest from `pools`, moving on at the next rollover.
pub fn new_quest_record(pools: &HashMap<i32, Vec<i32>>, now: i64) -> (r: QuestRecord)
    requires
        quest_possible(pools@),
        i64::MIN + SECONDS_PER_DAY <= now <= i64::MAX - 2 * SECONDS_PER_DAY,
    ensures
        is_v4_uuid(r.quest_id),
        valid_quest(pools@, r.area_id, r.reward_coins, r.fishes@),
        is_next_rollover(now as int, r.next_move_at as int),
        r.created_at == now,
{
    let generated = generate_quest(pools);
    quest_record(fresh_id(), generated, now)
}

/// The quest's (fish_id, amount) pairs as answered to the game.
pub fn herb_quest_fish_dtos(fishes: &Vec<(i32, i32)>) -> (r: Vec<HerbQuestFishDto>)
    ensures
        r@.len() == fishes@.len(),
        forall|k: int|
            0 <= k < fishes@.len() ==> #[trigger] r@[k] == (HerbQuestFishDto {
                fish_id: fishes@[k].0,
                amount: fishes@[k].1,
            }),
{
    let mut dtos: Vec<HerbQuestFishDto> = Vec::new();
    let mut i: usize = 0;
    while i < fishes.len()
        invariant
            i <= fishes.len(),
            dtos@.len() == i,
            forall|k: int|
                0 <= k < i ==> #[trigger] dtos@[k] == (HerbQuestFishDto {
                    fish_id: fishes@[k].0,
                    amount: fishes@[k].1,
                }),
        decreases fishes.len() - i,
    {
        dtos.push(HerbQuestFishDto { fish_id: fishes[i].0, amount: fishes[i].1 });
        i += 1;
    }
    dtos
}

/// The player's row after the completion of `quest_id` is recorded: a new row
/// records the completion and no accepted quest; an existing row only has its
/// completed quest replaced.
pub open spec fn row_after_completion(
    prev: Option<PlayerQuestState>,
    user_id: u128,
    quest_id: u128,
) -> PlayerQuestState {
    match prev {
        None => PlayerQuestState {
            user_id,
            last_completed_quest_id: Some(quest_id),
            last_accepted_quest_id: None,
        },
        Some(row) => PlayerQuestState { last_completed_quest_id: Some(quest_id), ..row },
    }
}

/// The player's row after the acceptance of `quest_id` is recorded: a new row
/// records the acceptance and no completed quest; an existing row only has its
/// accepted quest replaced.
pub open spec fn row_after_acceptance(
    prev: Option<PlayerQuestState>,
    user_id: u128,
    quest_id: u128,
) -> PlayerQuestState {
    match prev {
        None => PlayerQuestState {
            user_id,
            last_completed_quest_id: None,
            last_accepted_quest_id: Some(quest_id),
        },
        Some(row) => PlayerQuestState { last_accepted_quest_id: Some(quest_id), ..row },
    }
}

/// The player's progress row to write once the hand-in of `quest_id` is
/// recorded, given the row read before (`None` when there was none).
pub fn completion_row(prev: &Option<PlayerQuestState>, user_id: u128, quest_id: u128) -> (r:
    PlayerQuestState)
    ensures
        r == row_after_completion(*prev, user_id, quest_id),
        r.last_completed_quest_id == Some(quest_id),
        prev matches Some(row) ==> r.user_id == row.user_id && r.last_accepted_quest_id
            == row.last_accepted_quest_id,
        prev is None ==> r.user_id == user_id && r.last_accepted_quest_id is None,
{
    match prev {
        None => PlayerQuestState {
            user_id,
            last_completed_quest_id: Some(quest_id),
            last_accepted_quest_id: None,
        },
        Some(row) => PlayerQuestState {
            user_id: row.user_id,
            last_completed_quest_id: Some(quest_id),
            last_accepted_quest_id: row.last_accepted_quest_id,
        },
    }
}

/// The player's progress row to write once the acceptance of `quest_id` is
/// recorded, given the row read before (`None` when there was none).
pub fn acceptance_row(prev: &Option<PlayerQuestState>, user_id: u128, quest_id: u128) -> (r:
    PlayerQuestState)
    ensures
        r == row_after_acceptance(*prev, user_id, quest_id),
        r.last_accepted_quest_id == Some(quest_id),
        prev matches Some(row) ==> r.user_id == row.user_id && r.last_completed_quest_id
            == row.last_completed_quest_id,
        prev is None ==> r.user_id == user_id && r.last_completed_quest_id is None,
{
    match prev {
        None => PlayerQuestState {
            user_id,
            last_completed_quest_id: None,
            last_accepted_quest_id: Some(quest_id),
        },
        Some(row) => PlayerQuestState {
            user_id: row.user_id,
            last_completed_quest_id: row.last_completed_quest_id,
            last_accepted_quest_id: Some(quest_id),
        },
    }
}

/// A quest that was handed in cannot be handed in a second time by the same
/// player, whatever fishes are offered, and accepting a quest afterwards does
/// not reopen it: once the row `completion_row` gives is written (and any row
/// `acceptance_row` gives after it), the next hand-in is refused.
pub proof fn law_no_second_hand_in(
    current: Option<QuestSnapshot>,
    prev: Option<PlayerQuestState>,
    user_id: u128,
    quest_id: u128,
    accepted_id: u128,
    first: Seq<HandInFish>,
    second: Seq<HandInFish>,
)
    requires
        spec_complete_quest(current, prev, quest_id, first) is Ok,
    ensures
        spec_complete_quest(
            current,
            Some(row_after_completion(prev, user_id, quest_id)),
            quest_id,
            second,
        ) == Err::<(Seq<InventoryChange>, i32), HerbQuestError>(HerbQuestError::AlreadyCompleted),
        spec_complete_quest(
            current,
            Some(
                row_after_acceptance(
                    Some(row_after_completion(prev, user_id, quest_id)),
                    user_id,
                    accepted_id,
                ),
            ),
            quest_id,
            second,
        ) == Err::<(Seq<InventoryChange>, i32), HerbQuestError>(HerbQuestError::AlreadyCompleted),
{
}

/// The reward of a hand-in is the reward stored with the current quest; the
/// request cannot raise it.
pub proof fn law_reward_is_stored_reward(
    current: Option<QuestSnapshot>,
    state: Option<PlayerQuestState>,
    quest_id: u128,
    hand_in: Seq<HandInFish>,
)
    ensures
        spec_complete_quest(current, state, quest_id, hand_in) matches Ok((_, reward)) ==> (
        current is Some && current->0.quest.quest_id == quest_id && reward
            == current->0.quest.reward_coins),
{
}

/// With no foreign fish, every handed-in fish is a species the quest asks for.
proof fn lemma_no_foreign_fish(hand_in: Seq<HandInFish>, quest_fishes: Seq<StoredQuestFish>)
    requires
        first_foreign_fish(hand_in, quest_fishes) is None,
    ensures
        forall|i: int|
            0 <= i < hand_in.len() ==> quest_asks_for(quest_fishes, #[trigger] hand_in[i].fish_id),
    decreases hand_in.len(),
{
    if hand_in.len() > 0 {
        lemma_no_foreign_fish(hand_in.drop_last(), quest_fishes);
        assert forall|i: int| 0 <= i < hand_in.len() implies quest_asks_for(
            quest_fishes,
            #[trigger] hand_in[i].fish_id,
        ) by {
            if i < hand_in.len() - 1 {
                assert(hand_in.drop_last()[i] == hand_in[i]);
            }
        }
    }
}

/// The writes of a hand-in are one per handed-in fish, in order.
proof fn lemma_changes_one_per_fish(hand_in: Seq<HandInFish>)
    requires
        changes_for(hand_in) is Some,
    ensures
        changes_for(hand_in)->0.len() == hand_in.len(),
        forall|i: int|
            0 <= i < hand_in.len() ==> change_for(#[trigger] hand_in[i]) == Some(
                changes_for(hand_in)->0[i],
            ),
    decreases hand_in.len(),
{
    if hand_in.len() > 0 {
        lemma_changes_one_per_fish(hand_in.drop_last());
        let all = changes_for(hand_in)->0;
        assert forall|i: int| 0 <= i < hand_in.len() implies change_for(#[trigger] hand_in[i])
            == Some(all[i]) by {
            if i < hand_in.len() - 1 {
                assert(hand_in.drop_last()[i] == hand_in[i]);
            }
        }
    }
}

/// An accepted hand-in only takes fish of species the quest asks for, and
/// makes exactly one inventory write per handed-in stack: a used-up stack
/// (amount 0 or less) is destroyed, a kept stack is stored with its new state.
pub proof fn law_hand_in_writes(
    current: Option<QuestSnapshot>,
    state: Option<PlayerQuestState>,
    quest_id: u128,
    hand_in: Seq<HandInFish>,
)
    requires
        spec_complete_quest(current, state, quest_id, hand_in) is Ok,
    ensures
        forall|i: int|
            0 <= i < hand_in.len() ==> quest_asks_for(
                current->0.fishes@,
                #[trigger] hand_in[i].fish_id,
            ),
        spec_complete_quest(current, state, quest_id, hand_in) matches Ok((changes, _)) && {
            &&& changes.len() == hand_in.len()
            &&& forall|i: int|
                0 <= i < hand_in.len() ==> Some(changes[i]) == change_for(#[trigger] hand_in[i])
        },
{
    lemma_no_foreign_fish(hand_in, current->0.fishes@);
    lemma_changes_one_per_fish(hand_in);
}

/// The next rollover after a given time is unique, and consecutive rollovers
/// are exactly one day apart.
pub proof fn law_rollover_daily(now: int, a: int, b: int, next: int)
    requires
        is_next_rollover(now, a),
        is_next_rollover(now, b),
        is_next_rollover(a, next),
    ensures
        a == b,
        next == a + SECONDS_PER_DAY,
{
    vstd::arithmetic::div_mod::lemma_fundamental_div_mod(a, 86400);
    vstd::arithmetic::div_mod::lemma_fundamental_div_mod(b, 86400);
    vstd::arithmetic::div_mod::lemma_fundamental_div_mod(next, 86400);
    let qa = a / 86400;
    let qb = b / 86400;
    let qn = next / 86400;
    assert(a == 86400 * qa + 14400);
    assert(b == 86400 * qb + 14400);
    assert(next == 86400 * qn + 14400);
    assert(qa == qb) by (nonlinear_arith)
        requires
            a == 86400 * qa + 14400,
            b == 86400 * qb + 14400,
            -86400 < a - b < 86400,
    ;
    assert(qn == qa + 1) by (nonlinear_arith)
        requires
            a == 86400 * qa + 14400,
            next == 86400 * qn + 14400,
            0 < next - a <= 86400,
    ;
}

/// Stores the current quest and the players' quest progress.
#[derive(Debug, Clone, Copy)]
pub struct HerbQuestRepositoryImpl;

impl HerbQuestRepositoryImpl {
    pub fn new() -> (r: Self)
        ensures
            r == HerbQuestRepositoryImpl,
    {
        HerbQuestRepositoryImpl
    }
}

/// A new quest is needed on boot when none is stored, when the stored one's
/// move time lies at or before now (the server was down across a rollover),
/// or when it asks for no fish; a stored quest still to move on that asks for
/// fish is kept.
pub proof fn law_boot_replaces_stale_quests(stored: Option<QuestSnapshot>, now: i64)
    ensures
        stored is None ==> spec_needs_new_quest(stored, now),
        stored matches Some(snapshot) && snapshot.quest.next_move_at <= now ==> spec_needs_new_quest(
            stored,
            now,
        ),
        stored matches Some(snapshot) && snapshot.fishes@.len() == 0 ==> spec_needs_new_quest(
            stored,
            now,
        ),
        stored matches Some(snapshot) && now < snapshot.quest.next_move_at
            && snapshot.fishes@.len() > 0 ==> !spec_needs_new_quest(stored, now),
{
}

/// Whether every handed-in fish is of a species the quest's rows list.
pub open spec fn only_asked_species(hand_in: Seq<HandInFish>, quest_fishes: Seq<StoredQuestFish>) -> bool {
    forall|i: int|
        0 <= i < hand_in.len() ==> exists|j: int|
            0 <= j < quest_fishes.len() && #[trigger] quest_fishes[j].fish_id
                == #[trigger] hand_in[i].fish_id
}

/// Whether every handed-in stack is used up or comes with a non-empty new state.
pub open spec fn all_stacks_writable(hand_in: Seq<HandInFish>) -> bool {
    forall|i: int|
        0 <= i < hand_in.len() ==> (#[trigger] hand_in[i]).fish_amount <= 0 || (
        hand_in[i].new_state_blob is Some && hand_in[i].new_state_blob->0@.len() > 0)
}

proof fn lemma_asked_no_foreign(hand_in: Seq<HandInFish>, quest_fishes: Seq<StoredQuestFish>)
    requires
        only_asked_species(hand_in, quest_fishes),
    ensures
        first_foreign_fish(hand_in, quest_fishes) is None,
    decreases hand_in.len(),
{
    if hand_in.len() > 0 {
        assert(only_asked_species(hand_in.drop_last(), quest_fishes)) by {
            assert forall|i: int| 0 <= i < hand_in.drop_last().len() implies exists|j: int|
                0 <= j < quest_fishes.len() && #[trigger] quest_fishes[j].fish_id
                    == #[trigger] hand_in.drop_last()[i].fish_id by {
                assert(hand_in.drop_last()[i] == hand_in[i]);
            }
        }
        lemma_asked_no_foreign(hand_in.drop_last(), quest_fishes);
        let last = hand_in.len() - 1;
        assert(hand_in.last() == hand_in[last]);
        let j = choose|j: int|
            0 <= j < quest_fishes.len() && #[trigger] quest_fishes[j].fish_id
                == #[trigger] hand_in[last].fish_id;
        assert(quest_asks_for(quest_fishes, hand_in.last().fish_id));
    }
}

proof fn lemma_writable_changes(hand_in: Seq<HandInFish>)
    requires
        all_stacks_writable(hand_in),
    ensures
        changes_for(hand_in) is Some,
        changes_for(hand_in)->0.len() == hand_in.len(),
        writes_until_failure(hand_in) == changes_for(hand_in)->0,
    decreases hand_in.len(),
{
    if hand_in.len() > 0 {
        assert(all_stacks_writable(hand_in.drop_last())) by {
            assert forall|i: int| 0 <= i < hand_in.drop_last().len() implies (
            #[trigger] hand_in.drop_last()[i]).fish_amount <= 0 || (
            hand_in.drop_last()[i].new_state_blob is Some
                && hand_in.drop_last()[i].new_state_blob->0@.len() > 0) by {
                assert(hand_in.drop_last()[i] == hand_in[i]);
            }
        }
        lemma_writable_changes(hand_in.drop_last());
        assert(hand_in.last() == hand_in[hand_in.len() - 1]);
    }
}

/// A player whose progress row has not recorded the completion of the current
/// quest, and who hands in only fish the quest asks for, each used up or with
/// a non-empty new state, is paid the stored reward with one write per stack,
/// whatever quest the row records as accepted.
pub proof fn law_unblocked_hand_in_is_paid(
    snapshot: QuestSnapshot,
    state: Option<PlayerQuestState>,
    hand_in: Seq<HandInFish>,
)
    requires
        state is None || state->0.last_completed_quest_id != Some(snapshot.quest.quest_id),
        only_asked_species(hand_in, snapshot.fishes@),
        all_stacks_writable(hand_in),
    ensures
        spec_plan_hand_in(snapshot, state, hand_in) matches Ok((changes, reward)) && reward
            == snapshot.quest.reward_coins && changes.len() == hand_in.len() && forall|i: int|
            0 <= i < hand_in.len() ==> if (#[trigger] hand_in[i]).fish_amount <= 0 {
                changes[i] == InventoryChange::Destroy { item_uid: hand_in[i].fish_uid }
            } else {
                changes[i] == InventoryChange::Store {
                    item_uid: hand_in[i].fish_uid,
                    definition_id: hand_in[i].fish_id,
                    state_blob: hand_in[i].new_state_blob->0,
                }
            },
        writes_until_failure(hand_in).len() == hand_in.len(),
{
    lemma_asked_no_foreign(hand_in, snapshot.fishes@);
    lemma_writable_changes(hand_in);
    lemma_changes_one_per_fish(hand_in);
}

/// A hand-in that offers a fish of a species the quest does not list is
/// refused (unless the quest is already completed), naming such a fish.
pub proof fn law_foreign_fish_refused(
    snapshot: QuestSnapshot,
    state: Option<PlayerQuestState>,
    hand_in: Seq<HandInFish>,
)
    requires
        !only_asked_species(hand_in, snapshot.fishes@),
        state is None || state->0.last_completed_quest_id != Some(snapshot.quest.quest_id),
    ensures
        spec_plan_hand_in(snapshot, state, hand_in) matches Err(HerbQuestError::FishNotInQuest(id))
            && exists|i: int|
            0 <= i < hand_in.len() && (#[trigger] hand_in[i]).fish_id == id && forall|j: int|
                0 <= j < snapshot.fishes@.len() ==> snapshot.fishes@[j].fish_id != id,
{
    if first_foreign_fish(hand_in, snapshot.fishes@) is None {
        lemma_no_foreign_fish(hand_in, snapshot.fishes@);
        assert forall|i: int| 0 <= i < hand_in.len() implies exists|j: int|
            0 <= j < snapshot.fishes@.len() && #[trigger] snapshot.fishes@[j].fish_id
                == #[trigger] hand_in[i].fish_id by {
            assert(quest_asks_for(snapshot.fishes@, hand_in[i].fish_id));
        }
        assert(false);
    }
    lemma_first_foreign_found(hand_in, snapshot.fishes@);
}

proof fn lemma_first_foreign_found(hand_in: Seq<HandInFish>, quest_fishes: Seq<StoredQuestFish>)
    requires
        first_foreign_fish(hand_in, quest_fishes) is Some,
    ensures
        exists|i: int|
            0 <= i < hand_in.len() && (#[trigger] hand_in[i]).fish_id == first_foreign_fish(
                hand_in,
                quest_fishes,
            )->0,
        !quest_asks_for(quest_fishes, first_foreign_fish(hand_in, quest_fishes)->0),
    decreases hand_in.len(),
{
    if first_foreign_fish(hand_in.drop_last(), quest_fishes) is Some {
        lemma_first_foreign_found(hand_in.drop_last(), quest_fishes);
        let i = choose|i: int|
            0 <= i < hand_in.drop_last().len() && (#[trigger] hand_in.drop_last()[i]).fish_id
                == first_foreign_fish(hand_in.drop_last(), quest_fishes)->0;
        assert(hand_in[i] == hand_in.drop_last()[i]);
    } else {
        assert(hand_in[hand_in.len() - 1] == hand_in.last());
    }
}

/// Recording an acceptance replaces only the accepted quest: the completed
/// quest stays as stored (none for a new row), so accepting never makes a
/// quest count as completed and never blocks its hand-in.
pub proof fn law_acceptance_keeps_completion(
    prev: Option<PlayerQuestState>,
    user_id: u128,
    quest_id: u128,
    snapshot: QuestSnapshot,
    hand_in: Seq<HandInFish>,
)
    ensures
        row_after_acceptance(prev, user_id, quest_id).last_accepted_quest_id == Some(quest_id),
        prev matches Some(row) ==> row_after_acceptance(prev, user_id, quest_id).last_completed_quest_id
            == row.last_completed_quest_id && row_after_acceptance(prev, user_id, quest_id).user_id
            == row.user_id,
        prev is None ==> row_after_acceptance(prev, user_id, quest_id).last_completed_quest_id
            is None,
        (prev is None || prev->0.last_completed_quest_id != Some(snapshot.quest.quest_id))
            && only_asked_species(hand_in, snapshot.fishes@) && all_stacks_writable(hand_in)
            ==> spec_plan_hand_in(
            snapshot,
            Some(row_after_acceptance(prev, user_id, quest_id)),
            hand_in,
        ) is Ok,
{
    if (prev is None || prev->0.last_completed_quest_id != Some(snapshot.quest.quest_id))
        && only_asked_species(hand_in, snapshot.fishes@) && all_stacks_writable(hand_in) {
        law_unblocked_hand_in_is_paid(
            snapshot,
            Some(row_after_acceptance(prev, user_id, quest_id)),
            hand_in,
        );
    }
}

/// Recording a completion replaces only the completed quest: the accepted
/// quest stays as stored (none for a new row).
pub proof fn law_completion_keeps_acceptance(
    prev: Option<PlayerQuestState>,
    user_id: u128,
    quest_id: u128,
)
    ensures
        row_after_completion(prev, user_id, quest_id).last_completed_quest_id == Some(quest_id),
        prev matches Some(row) ==> row_after_completion(prev, user_id, quest_id).last_accepted_quest_id
            == row.last_accepted_quest_id && row_after_completion(prev, user_id, quest_id).user_id
            == row.user_id,
        prev is None ==> row_after_completion(prev, user_id, quest_id).last_accepted_quest_id
            is None,
{
}

} // verus!
