//! Player-to-player trades.

use vstd::prelude::*;

verus! {

/// The bucks each side of a trade gains (negative: loses); `None` when a side's
/// balance does not change and nothing is written for it.
#[derive(Debug, Clone, Copy, PartialEq, Eq)]
pub struct TradeBucks {
    pub user_one_change: Option<i32>,
    pub user_two_change: Option<i32>,
}

/// A change that is only written when it changes something.
pub open spec fn written_change(delta: int) -> Option<i32> {
    if delta != 0 {
        Some(delta as i32)
    } else {
        None
    }
}

/// The change a written (or skipped) update makes to a balance.
pub open spec fn applied(change: Option<i32>) -> int {
    match change {
        Some(d) => d as int,
        None => 0,
    }
}

/// Each side gains what it receives and loses what the other side receives.
pub fn trade_bucks_changes(user_one_received: i32, user_two_received: i32) -> (r: TradeBucks)
    requires
        i32::MIN <= user_one_received - user_two_received <= i32::MAX,
        i32::MIN <= user_two_received - user_one_received <= i32::MAX,
    ensures
        r.user_one_change == written_change(user_one_received - user_two_received),
        r.user_two_change == written_change(user_two_received - user_one_received),
        r.user_one_change is None <==> user_one_received == user_two_received,
        r.user_two_change is None <==> user_one_received == user_two_received,
        r.user_one_change is Some ==> r.user_one_change->0 == user_one_received - user_two_received,
        r.user_two_change is Some ==> r.user_two_change->0 == user_two_received - user_one_received,
{
    let delta_bucks_user_one = user_one_received - user_two_received;
    let delta_bucks_user_two = user_two_received - user_one_received;
    TradeBucks {
        user_one_change: if delta_bucks_user_one != 0 {
            Some(delta_bucks_user_one)
        } else {
            None
        },
        user_two_change: if delta_bucks_user_two != 0 {
            Some(delta_bucks_user_two)
        } else {
            None
        },
    }
}

/// A trade creates and destroys no bucks: what one side gains the other loses,
/// and each side ends up with its net receipt.
pub proof fn law_trade_conserves_bucks(user_one_received: i32, user_two_received: i32)
    requires
        i32::MIN <= user_one_received - user_two_received <= i32::MAX,
        i32::MIN <= user_two_received - user_one_received <= i32::MAX,
    ensures
        applied(written_change(user_one_received - user_two_received)) + applied(
            written_change(user_two_received - user_one_received),
        ) == 0,
        applied(written_change(user_one_received - user_two_received)) == user_one_received
            - user_two_received,
{
}

} // verus!
