//! Inventory updates.
//!
//! The durability and stack of an item update are relative: they are added to
//! the values already stored for the item, so a stack of `1` adds one to the
//! stack and a stack of `-1` removes one from it. When the resulting
//! durability or stack drops to zero or below, the item is removed.

use vstd::prelude::*;

verus! {

/// A relative change of an item's durability.
#[derive(Debug, Clone, Copy, PartialEq, Eq)]
pub struct Durability {
    pub durability: i32,
}

/// A relative change of an item's stack size.
#[derive(Debug, Clone, Copy, PartialEq, Eq)]
pub struct Stack {
    pub stack: i32,
}

/// An item to apply to a player's inventory.
#[derive(Debug, Clone, Copy, PartialEq, Eq)]
pub struct InventoryItem {
    pub item_uuid: u128,
    pub definition_id: i32,
    pub durability: Option<Durability>,
    pub stack: Option<Stack>,
}

/// The writes for one item: its definition is always upserted; a durability
/// or stack change is only sent when there is one and it is not zero.
#[derive(Debug, Clone, Copy, PartialEq, Eq)]
pub struct ItemUpdatePlan {
    pub item_uuid: u128,
    pub definition_id: i32,
    pub durability_delta: Option<i32>,
    pub stack_delta: Option<i32>,
}

/// A present, non-zero change; zero changes nothing and is not sent.
pub open spec fn nonzero_delta(delta: Option<i32>) -> Option<i32> {
    match delta {
        Some(d) => if d != 0 {
            Some(d)
        } else {
            None
        },
        None => None,
    }
}

/// The durability change of `item`, if any.
pub open spec fn durability_of(item: InventoryItem) -> Option<i32> {
    match item.durability {
        Some(d) => Some(d.durability),
        None => None,
    }
}

/// The stack change of `item`, if any.
pub open spec fn stack_of(item: InventoryItem) -> Option<i32> {
    match item.stack {
        Some(s) => Some(s.stack),
        None => None,
    }
}

impl ItemUpdatePlan {
    /// The writes for applying `item` to the inventory.
    pub fn for_item(item: &InventoryItem) -> (plan: ItemUpdatePlan)
        ensures
            plan.item_uuid == item.item_uuid,
            plan.definition_id == item.definition_id,
            plan.durability_delta == nonzero_delta(durability_of(*item)),
            plan.stack_delta == nonzero_delta(stack_of(*item)),
            item.durability is Some && item.durability->0.durability != 0 ==> plan.durability_delta
                == Some(item.durability->0.durability),
            item.stack is Some && item.stack->0.stack != 0 ==> plan.stack_delta == Some(
                item.stack->0.stack,
            ),
            plan.durability_delta is None <==> (item.durability is None
                || item.durability->0.durability == 0),
            plan.stack_delta is None <==> (item.stack is None || item.stack->0.stack == 0),
    {
        let durability_delta = match item.durability {
            Some(d) => if d.durability != 0 {
                Some(d.durability)
            } else {
                None
            },
            None => None,
        };
        let stack_delta = match item.stack {
            Some(s) => if s.stack != 0 {
                Some(s.stack)
            } else {
                None
            },
            None => None,
        };
        ItemUpdatePlan {
            item_uuid: item.item_uuid,
            definition_id: item.definition_id,
            durability_delta,
            stack_delta,
        }
    }
}

/// Whether an updated value means the item is used up.
pub open spec fn spent(value: Option<i32>) -> bool {
    value matches Some(v) && v <= 0
}

/// Whether the item is used up, given the durability and stack that the
/// update left stored (`None` where that value was not changed).
pub fn is_depleted(durability_after: Option<i32>, stack_after: Option<i32>) -> (r: bool)
    ensures
        r == (spent(durability_after) || spent(stack_after)),
        r <==> ((durability_after is Some && durability_after->0 <= 0) || (stack_after is Some
            && stack_after->0 <= 0)),
{
    let mut depleted = false;
    match durability_after {
        Some(d) => {
            depleted = depleted || d <= 0;
        },
        None => {},
    }
    match stack_after {
        Some(s) => {
            depleted = depleted || s <= 0;
        },
        None => {},
    }
    depleted
}

/// Why an inventory write is refused.
#[derive(Debug, Clone, Copy, PartialEq, Eq, Structural)]
pub enum InventoryError {
    /// The item to destroy does not belong to the player.
    RecordNotUpdated,
    /// The amount of a create, increase or degrade is not positive.
    AmountNotPositive,
}

/// Destroying an item fails when no row was removed.
pub fn destroy_outcome(rows_affected: u64) -> (r: Result<(), InventoryError>)
    ensures
        r is Ok <==> rows_affected > 0,
        r is Err ==> r == Err::<(), InventoryError>(InventoryError::RecordNotUpdated),
{
    if rows_affected == 0 {
        Err(InventoryError::RecordNotUpdated)
    } else {
        Ok(())
    }
}

/// Creating, increasing or degrading an item takes a positive amount.
pub fn check_amount(amount: i32) -> (r: Result<(), InventoryError>)
    ensures
        r is Ok <==> amount > 0,
        r is Err ==> r == Err::<(), InventoryError>(InventoryError::AmountNotPositive),
{
    if amount <= 0 {
        Err(InventoryError::AmountNotPositive)
    } else {
        Ok(())
    }
}

/// Stores inventory items.
#[derive(Debug, Clone, Copy)]
pub struct InventoryRepositoryImpl;

impl InventoryRepositoryImpl {
    pub fn new() -> (r: Self)
        ensures
            r == InventoryRepositoryImpl,
    {
        InventoryRepositoryImpl
    }
}

/// An item that changes neither durability nor stack (no change, or a change
/// of zero) sends no relative change and is never removed.
pub proof fn law_zero_change_keeps_item(item: InventoryItem)
    requires
        durability_of(item) is None || durability_of(item) == Some(0i32),
        stack_of(item) is None || stack_of(item) == Some(0i32),
    ensures
        nonzero_delta(durability_of(item)) is None,
        nonzero_delta(stack_of(item)) is None,
        !(spent(nonzero_delta(durability_of(item))) || spent(nonzero_delta(stack_of(item)))),
{
}

/// Every present, non-zero change of an item's durability or stack is sent
/// as exactly that change (growing ones included: a stack of 1 adds one), and
/// nothing is sent only for an absent or zero change.
pub proof fn law_item_changes_are_sent(item: InventoryItem)
    ensures
        forall|d: i32|
            item.durability == Some(Durability { durability: d }) && d != 0 ==> nonzero_delta(
                durability_of(item),
            ) == Some(d),
        forall|s: i32|
            item.stack == Some(Stack { stack: s }) && s != 0 ==> nonzero_delta(stack_of(item))
                == Some(s),
        nonzero_delta(durability_of(item)) is None <==> (item.durability is None
            || item.durability->0.durability == 0),
        nonzero_delta(stack_of(item)) is None <==> (item.stack is None || item.stack->0.stack
            == 0),
{
}

} // verus!
