//! Participants: the users and the bots that they own, with their ratings
//! and win counts.

use vstd::prelude::*;
use crate::address::Address;
use crate::error::ErrorCode;
use crate::platform::{require_authority, Platform};
use crate::text::{byte_len, text_len};

verus! {

/// The rating that every user and bot starts with.
pub const STARTING_ELO: u32 = 1200;

/// The longest user name, in bytes.
pub const MAX_USERNAME_LEN: usize = 32;

/// The longest bot name, in bytes.
pub const MAX_BOT_NAME_LEN: usize = 50;

/// A registered user.
#[derive(Clone, Debug, PartialEq, Eq)]
pub struct User {
    pub wallet: Address,
    pub username: String,
    pub elo: u32,
    pub wins: u32,
    pub losses: u32,
    pub bot_count: u8,
    pub total_wagered: u64,
    pub total_won: u64,
    pub created_at: i64,
    pub bump: u8,
}

/// A registered bot.
#[derive(Clone, Debug, PartialEq, Eq)]
pub struct Bot {
    pub owner: Address,
    pub name: String,
    /// The hash of the bot's endpoint, kept to verify it later.
    pub endpoint_hash: [u8; 32],
    pub elo: u32,
    pub wins: u32,
    pub losses: u32,
    pub is_active: bool,
    pub created_at: i64,
    pub bump: u8,
}

/// Which error, if any, keeps a user from being registered.
pub open spec fn register_user_error(platform: Platform, username: Seq<char>) -> Option<
    ErrorCode,
> {
    if byte_len(username) > MAX_USERNAME_LEN {
        Some(ErrorCode::UsernameTooLong)
    } else if platform.total_users == u64::MAX {
        Some(ErrorCode::ArithmeticOverflow)
    } else {
        None
    }
}

/// The record of a user who has just registered.
pub open spec fn new_user(wallet: Address, username: String, now: i64, bump: u8) -> User {
    User {
        wallet,
        username,
        elo: STARTING_ELO,
        wins: 0,
        losses: 0,
        bot_count: 0,
        total_wagered: 0,
        total_won: 0,
        created_at: now,
        bump,
    }
}

/// Registers a user at time `now` and counts them on the platform.
pub fn register_user(
    platform: &mut Platform,
    wallet: Address,
    username: String,
    now: i64,
    bump: u8,
) -> (r: Result<User, ErrorCode>)
    ensures
        match register_user_error(*old(platform), username@) {
            Some(e) => r == Err::<User, ErrorCode>(e) && *final(platform) == *old(platform),
            None => {
                &&& r == Ok::<User, ErrorCode>(new_user(wallet, username, now, bump))
                &&& *final(platform) == (Platform {
                    total_users: (old(platform).total_users + 1) as u64,
                    ..*old(platform)
                })
            },
        },
        old(platform).well_formed() ==> final(platform).well_formed(),
{
    if text_len(&username) > MAX_USERNAME_LEN {
        return Err(ErrorCode::UsernameTooLong);
    }
    if platform.total_users == u64::MAX {
        return Err(ErrorCode::ArithmeticOverflow);
    }
    platform.total_users = platform.total_users + 1;
    Ok(
        User {
            wallet,
            username,
            elo: STARTING_ELO,
            wins: 0,
            losses: 0,
            bot_count: 0,
            total_wagered: 0,
            total_won: 0,
            created_at: now,
            bump,
        },
    )
}

/// Which error, if any, keeps `owner` from registering a bot under `user`.
pub open spec fn register_bot_error(user: User, owner: Address, name: Seq<char>) -> Option<
    ErrorCode,
> {
    if user.wallet != owner {
        Some(ErrorCode::Unauthorized)
    } else if byte_len(name) > MAX_BOT_NAME_LEN {
        Some(ErrorCode::BotNameTooLong)
    } else if user.bot_count == u8::MAX {
        Some(ErrorCode::ArithmeticOverflow)
    } else {
        None
    }
}

/// The record of a bot that has just been registered.
pub open spec fn new_bot(
    owner: Address,
    name: String,
    endpoint_hash: [u8; 32],
    now: i64,
    bump: u8,
) -> Bot {
    Bot {
        owner,
        name,
        endpoint_hash,
        elo: STARTING_ELO,
        wins: 0,
        losses: 0,
        is_active: true,
        created_at: now,
        bump,
    }
}

/// Registers a bot for `owner` at time `now` and counts it on the owner's
/// user record.
pub fn register_bot(
    user: &mut User,
    owner: Address,
    name: String,
    endpoint_hash: [u8; 32],
    now: i64,
    bump: u8,
) -> (r: Result<Bot, ErrorCode>)
    ensures
        match register_bot_error(*old(user), owner, name@) {
            Some(e) => r == Err::<Bot, ErrorCode>(e) && *final(user) == *old(user),
            None => {
                &&& r == Ok::<Bot, ErrorCode>(new_bot(owner, name, endpoint_hash, now, bump))
                &&& *final(user) == (User {
                    bot_count: (old(user).bot_count + 1) as u8,
                    ..*old(user)
                })
            },
        },
{
    if !user.wallet.same(&owner) {
        return Err(ErrorCode::Unauthorized);
    }
    if text_len(&name) > MAX_BOT_NAME_LEN {
        return Err(ErrorCode::BotNameTooLong);
    }
    if user.bot_count == u8::MAX {
        return Err(ErrorCode::ArithmeticOverflow);
    }
    user.bot_count = user.bot_count + 1;
    Ok(
        Bot {
            owner,
            name,
            endpoint_hash,
            elo: STARTING_ELO,
            wins: 0,
            losses: 0,
            is_active: true,
            created_at: now,
            bump,
        },
    )
}

/// Which error, if any, keeps `caller` from recording the outcome of a
/// debate on `bot` and on `owner`, the user record of the bot's owner.
pub open spec fn update_bot_elo_error(
    platform: Platform,
    caller: Address,
    bot: Bot,
    owner: User,
    won: bool,
) -> Option<ErrorCode> {
    if !platform.authorizes(caller) {
        Some(ErrorCode::Unauthorized)
    } else if owner.wallet != bot.owner {
        Some(ErrorCode::RecordMismatch)
    } else if won && (bot.wins == u32::MAX || owner.wins == u32::MAX) {
        Some(ErrorCode::ArithmeticOverflow)
    } else if !won && (bot.losses == u32::MAX || owner.losses == u32::MAX) {
        Some(ErrorCode::ArithmeticOverflow)
    } else {
        None
    }
}

/// `bot` with its new rating and one more win or loss.
pub open spec fn rated_bot(bot: Bot, new_elo: u32, won: bool) -> Bot {
    if won {
        Bot { elo: new_elo, wins: (bot.wins + 1) as u32, ..bot }
    } else {
        Bot { elo: new_elo, losses: (bot.losses + 1) as u32, ..bot }
    }
}

/// `owner` with one more win or loss.
pub open spec fn rated_owner(owner: User, won: bool) -> User {
    if won {
        User { wins: (owner.wins + 1) as u32, ..owner }
    } else {
        User { losses: (owner.losses + 1) as u32, ..owner }
    }
}

/// After a debate: sets the bot's rating and counts the win or the loss on
/// the bot and on its owner. Only the settlement authority may do this.
pub fn update_bot_elo(
    platform: &Platform,
    caller: &Address,
    bot: &mut Bot,
    owner: &mut User,
    new_elo: u32,
    won: bool,
) -> (r: Result<(), ErrorCode>)
    ensures
        match update_bot_elo_error(*platform, *caller, *old(bot), *old(owner), won) {
            Some(e) => {
                &&& r == Err::<(), ErrorCode>(e)
                &&& *final(bot) == *old(bot)
                &&& *final(owner) == *old(owner)
            },
            None => {
                &&& r == Ok::<(), ErrorCode>(())
                &&& *final(bot) == rated_bot(*old(bot), new_elo, won)
                &&& *final(owner) == rated_owner(*old(owner), won)
            },
        },
{
    match require_authority(platform, caller) {
        Ok(()) => {},
        Err(e) => {
            return Err(e);
        },
    }
    if !owner.wallet.same(&bot.owner) {
        return Err(ErrorCode::RecordMismatch);
    }
    if won {
        if bot.wins == u32::MAX || owner.wins == u32::MAX {
            return Err(ErrorCode::ArithmeticOverflow);
        }
        bot.elo = new_elo;
        bot.wins = bot.wins + 1;
        owner.wins = owner.wins + 1;
    } else {
        if bot.losses == u32::MAX || owner.losses == u32::MAX {
            return Err(ErrorCode::ArithmeticOverflow);
        }
        bot.elo = new_elo;
        bot.losses = bot.losses + 1;
        owner.losses = owner.losses + 1;
    }
    Ok(())
}

} // verus!
