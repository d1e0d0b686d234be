//! Accounts: registration data, password hashing and login answers.

use rand::Rng;
use vstd::prelude::*;
use crate::ids::{fresh_id, is_v4_uuid};
use crate::stats::{STARTING_BUCKS, STARTING_COINS, STARTING_PLAYTIME, STARTING_XP};

verus! {

/// Definition id of the bamboo rod every new player gets.
pub const STARTER_ROD_DEFINITION: i32 = 1000;

/// Definition id of the hook every new player gets.
pub const STARTER_HOOK_DEFINITION: i32 = 0;

/// A stored account.
#[derive(Debug, PartialEq, Eq)]
pub struct User {
    pub user_id: u128,
    pub name: String,
    pub email: String,
    pub password: String,
    pub salt: String,
    /// Unix seconds of the account's creation.
    pub created: i64,
}

/// A player's name, as looked up by email.
#[derive(Debug, PartialEq, Eq)]
pub struct Username {
    pub name: String,
}

/// The answer to a login or registration.
#[derive(Debug, PartialEq, Eq)]
pub struct LoginResponse {
    pub code: i16,
    pub jwt: String,
}

impl LoginResponse {
    /// The answer to a registration that failed: code 401 and no token.
    pub fn registration_failed() -> (r: LoginResponse)
        ensures
            r.code == 401,
            r.jwt@ == Seq::<char>::empty(),
    {
        LoginResponse { code: 401, jwt: String::new() }
    }
}

/// Whether `hash` has the shape of a bcrypt hash of version 2b at cost 12:
/// the prefix `$2b$12$` followed by 22 characters of salt and 31 of hash.
pub open spec fn is_bcrypt_2b_cost_12(hash: Seq<char>) -> bool {
    hash.len() == 60 && hash.subrange(0, 7) == "$2b$12$"@
}

/// The version 2b bcrypt hash of `password` at `cost` with the 16-byte salt
/// `salt`, as `bcrypt::hash_with_salt` computes it.
pub uninterp spec fn bcrypt_hash_of(password: Seq<char>, cost: u32, salt: Seq<u8>) -> Seq<char>;

/// Whether `hash` is the cost-12 bcrypt hash of `password` under some 16-byte salt.
pub open spec fn is_bcrypt_hash_of(password: Seq<char>, hash: Seq<char>) -> bool {
    exists|salt: Seq<u8>| salt.len() == 16 && hash == #[trigger] bcrypt_hash_of(password, 12, salt)
}

/// Draws 16 random bytes through `rand::Rng::gen` with the thread-local
/// generator. Nothing is claimed of them: they rest on chance.
#[verifier::external_body]
fn random_salt() -> [u8; 16] {
    rand::thread_rng().gen()
}

/// Hashes `password` with `salt` through `bcrypt::hash_with_salt` at
/// `bcrypt::DEFAULT_COST` (12) and formats it as a version 2b hash.
/// Claimed: there always is a hash (`hash_with_salt` only fails for a cost
/// outside 4 to 31), it is the named value `bcrypt_hash_of` of the password,
/// the cost and the salt, and it is 60 characters long with the prefix `$2b$12$`.
#[verifier::external_body]
fn bcrypt_hash_with_salt(password: &str, salt: [u8; 16]) -> (r: Option<String>)
    ensures
        r is Some,
        r matches Some(hash) ==> hash@ == bcrypt_hash_of(password@, 12, salt@)
            && is_bcrypt_2b_cost_12(hash@),
{
    bcrypt::hash_with_salt(password, bcrypt::DEFAULT_COST, salt).map(
        |parts| parts.format_for_version(bcrypt::Version::TwoB),
    ).ok()
}

/// Hashes a password with bcrypt at cost 12 under the given salt.
pub fn hash_password_with_salt(password: &str, salt: [u8; 16]) -> (r: String)
    ensures
        r@ == bcrypt_hash_of(password@, 12, salt@),
        is_bcrypt_2b_cost_12(r@),
{
    bcrypt_hash_with_salt(password, salt).unwrap()
}

/// Hashes a password with bcrypt at cost 12 under a fresh random salt.
pub fn hash_password(password: &str) -> (r: String)
    ensures
        is_bcrypt_hash_of(password@, r@),
        is_bcrypt_2b_cost_12(r@),
{
    let salt = random_salt();
    let r = hash_password_with_salt(password, salt);
    assert(salt@.len() == 16);
    assert(r@ == bcrypt_hash_of(password@, 12, salt@));
    r
}

/// Checks `password` against `hash` through `bcrypt::verify`, which reads the
/// cost and salt from `hash`, re-hashes the password with them and compares.
/// Claimed: for a hash that is the cost-12 bcrypt hash of some password under
/// some 16-byte salt (as `bcrypt::hash_with_salt` formats it), the answer is
/// `Some` of whether `password` hashes to it under that same salt. What other
/// strings give is not stated.
#[verifier::external_body]
fn bcrypt_verify(password: &str, hash: &str) -> (r: Option<bool>)
    ensures
        forall|q: Seq<char>, salt: Seq<u8>|
            salt.len() == 16 && hash@ == #[trigger] bcrypt_hash_of(q, 12, salt) ==> r == Some(
                bcrypt_hash_of(password@, 12, salt) == hash@,
            ),
{
    bcrypt::verify(password, hash).ok()
}

/// Checks a password against a stored bcrypt hash made by `hash_password`
/// (or `hash_password_with_salt`): `Some(true)` exactly when the password
/// hashes to it under the salt it was made with, `Some(false)` otherwise.
/// For a string that is no such hash, the answer is left to bcrypt (`None`
/// when it cannot read the hash).
pub fn verify_password(password: &str, hash: &str) -> (r: Option<bool>)
    ensures
        forall|q: Seq<char>, salt: Seq<u8>|
            salt.len() == 16 && hash@ == #[trigger] bcrypt_hash_of(q, 12, salt) ==> r == Some(
                bcrypt_hash_of(password@, 12, salt) == hash@,
            ),
        is_bcrypt_hash_of(password@, hash@) ==> r == Some(true),
{
    bcrypt_verify(password, hash)
}

/// The account as it is stored, given the hash of its password: the same user
/// with the password replaced by the hash.
pub fn with_password_hash(user: User, hash: String) -> (r: User)
    ensures
        r.user_id == user.user_id,
        r.name == user.name,
        r.email == user.email,
        r.salt == user.salt,
        r.created == user.created,
        r.password == hash,
{
    let mut user = user;
    user.password = hash;
    user
}

/// The account as it is stored: the same user with the password replaced by
/// a bcrypt hash of it; the plain password is not kept.
pub fn prepare_user_for_storage(user: User) -> (r: User)
    ensures
        r.user_id == user.user_id,
        r.name == user.name,
        r.email == user.email,
        r.salt == user.salt,
        r.created == user.created,
        is_bcrypt_hash_of(user.password@, r.password@),
        is_bcrypt_2b_cost_12(r.password@),
{
    let hashed = hash_password(user.password.as_str());
    with_password_hash(user, hashed)
}

/// An inventory row every new player starts with.
#[derive(Debug, PartialEq, Eq)]
pub struct StarterItem {
    pub item_uuid: u128,
    pub definition_id: i32,
    pub state_blob: String,
}

/// The rows a registration writes besides the account itself.
#[derive(Debug, PartialEq, Eq)]
pub struct NewAccountRows {
    pub xp: i32,
    pub coins: i32,
    pub bucks: i32,
    pub total_playtime: i32,
    pub starter_items: Vec<StarterItem>,
}

/// The stats and starter items of a new player whose rod and hook get the
/// ids `rod_uuid` and `hook_uuid`: 0 xp, 25 coins, 5000 bucks, no playtime, and
/// the bamboo rod and the hook with empty state.
pub fn account_rows_with_ids(rod_uuid: u128, hook_uuid: u128) -> (r: NewAccountRows)
    ensures
        r.xp == STARTING_XP && r.coins == STARTING_COINS && r.bucks == STARTING_BUCKS
            && r.total_playtime == STARTING_PLAYTIME,
        r.starter_items@.len() == 2,
        r.starter_items@[0].item_uuid == rod_uuid,
        r.starter_items@[0].definition_id == STARTER_ROD_DEFINITION,
        r.starter_items@[1].item_uuid == hook_uuid,
        r.starter_items@[1].definition_id == STARTER_HOOK_DEFINITION,
        forall|k: int|
            0 <= k < r.starter_items@.len() ==> (#[trigger] r.starter_items@[k]).state_blob@
                == Seq::<char>::empty(),
{
    let mut starter_items: Vec<StarterItem> = Vec::new();
    starter_items.push(
        StarterItem {
            item_uuid: rod_uuid,
            definition_id: STARTER_ROD_DEFINITION,
            state_blob: String::new(),
        },
    );
    starter_items.push(
        StarterItem {
            item_uuid: hook_uuid,
            definition_id: STARTER_HOOK_DEFINITION,
            state_blob: String::new(),
        },
    );
    NewAccountRows {
        xp: STARTING_XP,
        coins: STARTING_COINS,
        bucks: STARTING_BUCKS,
        total_playtime: STARTING_PLAYTIME,
        starter_items,
    }
}

/// The stats and starter items of a new player, the rod and the hook under
/// fresh random ids.
pub fn new_account_rows() -> (r: NewAccountRows)
    ensures
        is_v4_uuid(r.starter_items@[0].item_uuid),
        is_v4_uuid(r.starter_items@[1].item_uuid),
        r.xp == STARTING_XP && r.coins == STARTING_COINS && r.bucks == STARTING_BUCKS
            && r.total_playtime == STARTING_PLAYTIME,
        r.starter_items@.len() == 2,
        r.starter_items@[0].definition_id == STARTER_ROD_DEFINITION,
        r.starter_items@[1].definition_id == STARTER_HOOK_DEFINITION,
        forall|k: int|
            0 <= k < r.starter_items@.len() ==> (#[trigger] r.starter_items@[k]).state_blob@
                == Seq::<char>::empty(),
{
    let rod_uuid = fresh_id();
    let hook_uuid = fresh_id();
    account_rows_with_ids(rod_uuid, hook_uuid)
}

} // verus!
