//! Player stats: xp, coins, bucks and playtime.

use vstd::prelude::*;

verus! {

/// XP a new player starts with.
pub const STARTING_XP: i32 = 0;

/// Coins a new player starts with.
pub const STARTING_COINS: i32 = 25;

/// Bucks a new player starts with.
pub const STARTING_BUCKS: i32 = 5000;

/// Playtime a new player starts with.
pub const STARTING_PLAYTIME: i32 = 0;

/// The stat a change request is about.
#[derive(Debug, Clone, Copy, PartialEq, Eq, Structural)]
pub enum StatKind {
    Xp,
    Bucks,
    Coins,
    Playtime,
}

/// XP and playtime only ever grow; coins and bucks may go either way.
pub open spec fn spec_amount_allowed(kind: StatKind, amount: i32) -> bool {
    match kind {
        StatKind::Xp | StatKind::Playtime => amount >= 0,
        StatKind::Bucks | StatKind::Coins => true,
    }
}

/// Whether a change of `amount` to the `kind` stat is accepted.
pub fn amount_allowed(kind: StatKind, amount: i32) -> (r: bool)
    ensures
        r == spec_amount_allowed(kind, amount),
        kind == StatKind::Coins || kind == StatKind::Bucks ==> r,
        kind == StatKind::Xp || kind == StatKind::Playtime ==> (r <==> amount >= 0),
{
    match kind {
        StatKind::Xp | StatKind::Playtime => amount >= 0,
        StatKind::Bucks | StatKind::Coins => true,
    }
}

/// The column of the stats table a change of `kind` is added to.
pub fn stat_column(kind: StatKind) -> (r: &'static str)
    ensures
        kind == StatKind::Xp ==> r@ == "xp"@,
        kind == StatKind::Bucks ==> r@ == "bucks"@,
        kind == StatKind::Coins ==> r@ == "coins"@,
        kind == StatKind::Playtime ==> r@ == "total_playtime"@,
{
    match kind {
        StatKind::Xp => "xp",
        StatKind::Bucks => "bucks",
        StatKind::Coins => "coins",
        StatKind::Playtime => "total_playtime",
    }
}

/// Why a stats change is refused.
#[derive(Debug, Clone, Copy, PartialEq, Eq, Structural)]
pub enum StatsError {
    /// The player has no stats row.
    RowNotFound,
}

/// A stats change fails when no row was updated.
pub fn update_outcome(rows_affected: u64) -> (r: Result<(), StatsError>)
    ensures
        r is Ok <==> rows_affected > 0,
        r is Err ==> r == Err::<(), StatsError>(StatsError::RowNotFound),
{
    if rows_affected == 0 {
        Err(StatsError::RowNotFound)
    } else {
        Ok(())
    }
}

/// A change of coins or bucks is accepted for every amount, positive and
/// negative; a change of xp or playtime is accepted exactly when it does not
/// make the stat shrink.
pub proof fn law_stat_changes_allowed(amount: i32)
    ensures
        spec_amount_allowed(StatKind::Coins, amount),
        spec_amount_allowed(StatKind::Bucks, amount),
        spec_amount_allowed(StatKind::Xp, amount) <==> amount >= 0,
        spec_amount_allowed(StatKind::Playtime, amount) <==> amount >= 0,
{
}

} // verus!
