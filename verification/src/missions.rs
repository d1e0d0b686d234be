//! Mission completion and its reward.
//!
//! The reward is applied in the same transaction as the completion itself, so a
//! player can never end up marked complete without being paid, or paid twice.

use vstd::prelude::*;

verus! {

/// The single inventory row a mission reward writes.
#[derive(Debug, PartialEq, Eq)]
pub struct MissionRewardItem {
    pub uuid: u128,
    pub definition_id: i32,
    pub state_blob: String,
}

/// Everything a mission pays out on completion.
#[derive(Debug, PartialEq, Eq)]
pub struct MissionReward {
    pub coins: i32,
    pub bucks: i32,
    pub item: Option<MissionRewardItem>,
}

impl MissionReward {
    /// The reward of a completion request whose item fields are flat and always
    /// present: a nil (zero) item uuid means the mission rewards no item.
    /// Definition id 0 is a real item, so it cannot be the sentinel.
    pub fn from_request(
        coins: i32,
        bucks: i32,
        item_definition_id: i32,
        item_uuid: u128,
        item_state_blob: String,
    ) -> (r: MissionReward)
        ensures
            r.coins == coins,
            r.bucks == bucks,
            r.item is None <==> item_uuid == 0,
            item_uuid != 0 ==> r.item == Some(
                MissionRewardItem {
                    uuid: item_uuid,
                    definition_id: item_definition_id,
                    state_blob: item_state_blob,
                },
            ),
    {
        let item = if item_uuid == 0 {
            None
        } else {
            Some(
                MissionRewardItem {
                    uuid: item_uuid,
                    definition_id: item_definition_id,
                    state_blob: item_state_blob,
                },
            )
        };
        MissionReward { coins, bucks, item }
    }
}

/// One write of a mission completion.
#[derive(Debug, PartialEq, Eq)]
pub enum MissionStep {
    /// Moves the started mission into the completed ones. A second completion
    /// of the same mission is refused there and rolls the reward back with it.
    MarkCompleted,
    ChangeCoins(i32),
    ChangeBucks(i32),
    StoreItem(MissionRewardItem),
}

/// The writes of a completion: the completion itself, then each part of the
/// reward that pays something.
pub open spec fn spec_completion_steps(reward: MissionReward) -> Seq<MissionStep> {
    let coins = if reward.coins != 0 {
        seq![MissionStep::ChangeCoins(reward.coins)]
    } else {
        Seq::empty()
    };
    let bucks = if reward.bucks != 0 {
        seq![MissionStep::ChangeBucks(reward.bucks)]
    } else {
        Seq::empty()
    };
    let item = match reward.item {
        Some(item) => seq![MissionStep::StoreItem(item)],
        None => Seq::empty(),
    };
    seq![MissionStep::MarkCompleted] + coins + bucks + item
}

/// The writes that complete a mission and pay its reward, in order.
pub fn completion_steps(reward: MissionReward) -> (steps: Vec<MissionStep>)
    ensures
        steps@ == spec_completion_steps(reward),
{
    let ghost expected = spec_completion_steps(reward);
    let mut steps: Vec<MissionStep> = Vec::new();
    steps.push(MissionStep::MarkCompleted);
    if reward.coins != 0 {
        steps.push(MissionStep::ChangeCoins(reward.coins));
    }
    if reward.bucks != 0 {
        steps.push(MissionStep::ChangeBucks(reward.bucks));
    }
    match reward.item {
        Some(item) => {
            steps.push(MissionStep::StoreItem(item));
        },
        None => {},
    }
    assert(steps@ =~= expected);
    steps
}

/// A completion is recorded together with every part of its reward that pays
/// something, and with nothing else: the completion comes first, each non-zero
/// currency is paid exactly once, and the item, if any, is stored.
pub proof fn law_completion_pays_reward(reward: MissionReward)
    ensures
        spec_completion_steps(reward)[0] == MissionStep::MarkCompleted,
        spec_completion_steps(reward).contains(MissionStep::ChangeCoins(reward.coins)) <==> reward.coins
            != 0,
        spec_completion_steps(reward).contains(MissionStep::ChangeBucks(reward.bucks)) <==> reward.bucks
            != 0,
        reward.item matches Some(item) ==> spec_completion_steps(reward).contains(
            MissionStep::StoreItem(item),
        ),
        spec_completion_steps(reward).len() == 1 + (if reward.coins != 0 {
            1int
        } else {
            0
        }) + (if reward.bucks != 0 {
            1int
        } else {
            0
        }) + (if reward.item is Some {
            1int
        } else {
            0
        }),
{
    let steps = spec_completion_steps(reward);
    if reward.coins != 0 {
        assert(steps[1] == MissionStep::ChangeCoins(reward.coins));
    } else {
        assert forall|k: int| 0 <= k < steps.len() implies steps[k] != MissionStep::ChangeCoins(
            reward.coins,
        ) by {}
    }
    if reward.bucks != 0 {
        let k = if reward.coins != 0 {
            2int
        } else {
            1int
        };
        assert(steps[k] == MissionStep::ChangeBucks(reward.bucks));
    } else {
        assert forall|k: int| 0 <= k < steps.len() implies steps[k] != MissionStep::ChangeBucks(
            reward.bucks,
        ) by {}
    }
    if let Some(item) = reward.item {
        assert(steps[steps.len() - 1] == MissionStep::StoreItem(item));
    }
}

/// Stores started and completed missions.
#[derive(Debug, Clone, Copy)]
pub struct MissionRepositoryImpl;

impl MissionRepositoryImpl {
    pub fn new() -> (r: Self)
        ensures
            r == MissionRepositoryImpl,
    {
        MissionRepositoryImpl
    }
}

} // verus!
