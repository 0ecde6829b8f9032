//! The public ledger's bookkeeping: the plain records kept beside the private
//! computations, and the notices that tell the world a record changed.
//!
//! Each function here is one step of the ledger as a function of the record
//! it changes and the plain values of the request. Reading accounts, moving
//! funds, reading the clock and publishing the notice are left to the caller.

use vstd::prelude::*;

verus! {

/// `Pubkey` of `anchor_lang::prelude`: an account address of the ledger.
/// Nothing is claimed of what it holds; it is carried through and compared,
/// never looked into.
#[verifier::external_type_specification]
#[verifier::external_body]
pub struct ExPubkey(anchor_lang::prelude::Pubkey);

/// The address of the premium collection.
pub const PREMIUM_COLLECTION: &'static str = "11111111111111111111111111111111";

/// The price of premium, in lamports.
pub const PREMIUM_PRICE_LAMPORTS: u64 = 100_000_000;

/// The ledger's one global record.
#[derive(Clone, Copy, Debug)]
pub struct ProgramState {
    pub authority: anchor_lang::prelude::Pubkey,
    pub confession_count: u64,
    pub total_premium_sold: u64,
}

/// The public record of one confession.
#[derive(Clone, Copy, Debug)]
pub struct Confession {
    pub id: u64,
    pub content_hash: [u8; 32],
    pub category: u8,
    pub is_premium: bool,
    pub likes: u32,
    pub timestamp: i64,
    pub submitter: anchor_lang::prelude::Pubkey,
}

/// The public record of one user's matchmaking profile.
#[derive(Clone, Copy, Debug)]
pub struct UserProfile {
    pub user: anchor_lang::prelude::Pubkey,
    pub interests: [u8; 10],
    pub age_min: u8,
    pub age_max: u8,
    pub user_age: u8,
    pub looking_for: u8,
    pub is_active: bool,
}

/// Notice: a confession was recorded.
#[derive(Clone, Copy, Debug)]
pub struct ConfessionSubmitted {
    pub id: u64,
    pub category: u8,
    pub is_premium: bool,
    pub timestamp: u64,
}

/// Notice: a confession was liked.
#[derive(Clone, Copy, Debug)]
pub struct ConfessionLiked {
    pub confession_id: u64,
    pub new_likes: u32,
    pub liker: anchor_lang::prelude::Pubkey,
}

/// Notice: premium was bought.
#[derive(Clone, Copy, Debug)]
pub struct PremiumPurchased {
    pub buyer: anchor_lang::prelude::Pubkey,
    pub amount: u64,
    pub total_sold: u64,
}

/// Notice: a user registered a profile.
#[derive(Clone, Copy, Debug)]
pub struct PreferencesRegistered {
    pub user: anchor_lang::prelude::Pubkey,
    pub interests: [u8; 10],
    pub looking_for: u8,
}

/// Notice: a user asked to be matched with another.
#[derive(Clone, Copy, Debug)]
pub struct MatchRequested {
    pub requester: anchor_lang::prelude::Pubkey,
    pub target: anchor_lang::prelude::Pubkey,
}

/// The global record of a fresh ledger: nothing recorded, nothing sold.
pub fn initialize(authority: anchor_lang::prelude::Pubkey) -> (state: ProgramState)
    ensures
        state.authority == authority,
        state.confession_count == 0,
        state.total_premium_sold == 0,
{
    ProgramState { authority, confession_count: 0, total_premium_sold: 0 }
}

/// Records a confession under the next free number and counts it.
///
/// The record takes the count as its number, starts with no likes and keeps
/// the time as given. The notice carries the time as an unsigned number.
pub fn submit_confession(
    state: &mut ProgramState,
    content_hash: [u8; 32],
    category: u8,
    is_premium: bool,
    unix_timestamp: i64,
    submitter: anchor_lang::prelude::Pubkey,
) -> (r: (Confession, ConfessionSubmitted))
    requires
        old(state).confession_count < u64::MAX,
    ensures
        final(state).confession_count == old(state).confession_count + 1,
        final(state).authority == old(state).authority,
        final(state).total_premium_sold == old(state).total_premium_sold,
        r.0.id == old(state).confession_count,
        r.0.content_hash == content_hash,
        r.0.category == category,
        r.0.is_premium == is_premium,
        r.0.likes == 0,
        r.0.timestamp == unix_timestamp,
        r.0.submitter == submitter,
        r.1.id == old(state).confession_count,
        r.1.category == category,
        r.1.is_premium == is_premium,
        r.1.timestamp == unix_timestamp as u64,
{
    let confession = Confession {
        id: state.confession_count,
        content_hash,
        category,
        is_premium,
        likes: 0,
        timestamp: unix_timestamp,
        submitter,
    };
    state.confession_count = state.confession_count + 1;
    let event = ConfessionSubmitted {
        id: confession.id,
        category,
        is_premium,
        timestamp: #[verifier::truncate]
        (unix_timestamp as u64),
    };
    (confession, event)
}

/// Adds one like to a confession.
pub fn like_confession(confession: &mut Confession, liker: anchor_lang::prelude::Pubkey) -> (event:
    ConfessionLiked)
    requires
        old(confession).likes < u32::MAX,
    ensures
        final(confession).likes == old(confession).likes + 1,
        final(confession).id == old(confession).id,
        final(confession).content_hash == old(confession).content_hash,
        final(confession).category == old(confession).category,
        final(confession).is_premium == old(confession).is_premium,
        final(confession).timestamp == old(confession).timestamp,
        final(confession).submitter == old(confession).submitter,
        event.confession_id == old(confession).id,
        event.new_likes == old(confession).likes + 1,
        event.liker == liker,
{
    confession.likes = confession.likes + 1;
    ConfessionLiked { confession_id: confession.id, new_likes: confession.likes, liker }
}

/// Counts one sale of premium, once the price has been paid.
pub fn purchase_premium(state: &mut ProgramState, buyer: anchor_lang::prelude::Pubkey) -> (event:
    PremiumPurchased)
    requires
        old(state).total_premium_sold < u64::MAX,
    ensures
        final(state).total_premium_sold == old(state).total_premium_sold + 1,
        final(state).authority == old(state).authority,
        final(state).confession_count == old(state).confession_count,
        event.buyer == buyer,
        event.amount == PREMIUM_PRICE_LAMPORTS,
        event.total_sold == old(state).total_premium_sold + 1,
{
    state.total_premium_sold = state.total_premium_sold + 1;
    PremiumPurchased { buyer, amount: PREMIUM_PRICE_LAMPORTS, total_sold: state.total_premium_sold }
}

/// The profile a user registers, active from the start, and its notice.
pub fn register_preferences(
    user: anchor_lang::prelude::Pubkey,
    interests: [u8; 10],
    age_min: u8,
    age_max: u8,
    user_age: u8,
    looking_for: u8,
) -> (r: (UserProfile, PreferencesRegistered))
    ensures
        r.0.user == user,
        r.0.interests == interests,
        r.0.age_min == age_min,
        r.0.age_max == age_max,
        r.0.user_age == user_age,
        r.0.looking_for == looking_for,
        r.0.is_active,
        r.1.user == user,
        r.1.interests == interests,
        r.1.looking_for == looking_for,
{
    let profile = UserProfile {
        user,
        interests,
        age_min,
        age_max,
        user_age,
        looking_for,
        is_active: true,
    };
    let event = PreferencesRegistered { user: profile.user, interests, looking_for };
    (profile, event)
}

/// The notice that `requester` asks to be matched with the owner of
/// `target_profile`.
pub fn request_match(requester: anchor_lang::prelude::Pubkey, target_profile: &UserProfile) -> (event:
    MatchRequested)
    ensures
        event.requester == requester,
        event.target == target_profile.user,
{
    MatchRequested { requester, target: target_profile.user }
}

} // verus!
