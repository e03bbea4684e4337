//! Topics that users propose for debates, and the votes of the community on
//! them.

use vstd::prelude::*;
use crate::address::Address;
use crate::error::ErrorCode;
use crate::text::{byte_len, text_len};

verus! {

/// The shortest topic text, in bytes.
pub const MIN_TOPIC_LEN: usize = 10;

/// The longest topic text, in bytes.
pub const MAX_TOPIC_LEN: usize = 500;

/// The longest topic category, in bytes.
pub const MAX_CATEGORY_LEN: usize = 32;

/// A proposed topic with its vote counts.
#[derive(Clone, Debug, PartialEq, Eq)]
pub struct Topic {
    pub proposer: Address,
    pub text: String,
    pub category: String,
    pub upvotes: u32,
    pub downvotes: u32,
    pub times_used: u32,
    pub created_at: i64,
    pub bump: u8,
}

/// The vote of one voter on one topic. There is one such record for each
/// pair of voter and topic; it is filled by the voter's first vote.
#[derive(Clone, Copy, Debug, PartialEq, Eq)]
pub struct TopicVoteRecord {
    pub voter: Address,
    pub topic: Address,
    pub upvote: bool,
    pub has_voted: bool,
    pub bump: u8,
}

impl TopicVoteRecord {
    /// A record that carries no vote yet.
    pub fn empty() -> (record: TopicVoteRecord)
        ensures
            !record.has_voted,
            !record.upvote,
            record.bump == 0,
            record.voter.is_zero(),
            record.topic.is_zero(),
    {
        TopicVoteRecord {
            voter: Address::zero(),
            topic: Address::zero(),
            upvote: false,
            has_voted: false,
            bump: 0,
        }
    }
}

/// Which error, if any, keeps a topic from being proposed.
pub open spec fn propose_topic_error(text: Seq<char>, category: Seq<char>) -> Option<ErrorCode> {
    if byte_len(text) < MIN_TOPIC_LEN || byte_len(text) > MAX_TOPIC_LEN {
        Some(ErrorCode::InvalidTopicLength)
    } else if byte_len(category) > MAX_CATEGORY_LEN {
        Some(ErrorCode::CategoryTooLong)
    } else {
        None
    }
}

/// The record of a topic that has just been proposed.
pub open spec fn new_topic(
    proposer: Address,
    text: String,
    category: String,
    now: i64,
    bump: u8,
) -> Topic {
    Topic {
        proposer,
        text,
        category,
        upvotes: 0,
        downvotes: 0,
        times_used: 0,
        created_at: now,
        bump,
    }
}

/// Proposes a topic at time `now`.
pub fn propose_topic(proposer: Address, text: String, category: String, now: i64, bump: u8) -> (r:
    Result<Topic, ErrorCode>)
    ensures
        match propose_topic_error(text@, category@) {
            Some(e) => r == Err::<Topic, ErrorCode>(e),
            None => r == Ok::<Topic, ErrorCode>(new_topic(proposer, text, category, now, bump)),
        },
{
    let len = text_len(&text);
    if len < MIN_TOPIC_LEN || len > MAX_TOPIC_LEN {
        return Err(ErrorCode::InvalidTopicLength);
    }
    if text_len(&category) > MAX_CATEGORY_LEN {
        return Err(ErrorCode::CategoryTooLong);
    }
    Ok(
        Topic {
            proposer,
            text,
            category,
            upvotes: 0,
            downvotes: 0,
            times_used: 0,
            created_at: now,
            bump,
        },
    )
}

/// Which error, if any, keeps a vote from being cast on `topic` through
/// `record`.
pub open spec fn vote_topic_error(topic: Topic, record: TopicVoteRecord, upvote: bool) -> Option<
    ErrorCode,
> {
    if record.has_voted {
        Some(ErrorCode::AlreadyVoted)
    } else if upvote && topic.upvotes == u32::MAX {
        Some(ErrorCode::ArithmeticOverflow)
    } else if !upvote && topic.downvotes == u32::MAX {
        Some(ErrorCode::ArithmeticOverflow)
    } else {
        None
    }
}

/// `topic` with one more vote up or down.
pub open spec fn voted_topic(topic: Topic, upvote: bool) -> Topic {
    if upvote {
        Topic { upvotes: (topic.upvotes + 1) as u32, ..topic }
    } else {
        Topic { downvotes: (topic.downvotes + 1) as u32, ..topic }
    }
}

/// Casts the vote of `voter` on the topic at `topic_key`. A record that
/// already carries a vote cannot be used again.
pub fn vote_topic(
    topic: &mut Topic,
    topic_key: Address,
    vote_record: &mut TopicVoteRecord,
    voter: Address,
    upvote: bool,
    bump: u8,
) -> (r: Result<(), ErrorCode>)
    ensures
        match vote_topic_error(*old(topic), *old(vote_record), upvote) {
            Some(e) => {
                &&& r == Err::<(), ErrorCode>(e)
                &&& *final(topic) == *old(topic)
                &&& *final(vote_record) == *old(vote_record)
            },
            None => {
                &&& r == Ok::<(), ErrorCode>(())
                &&& *final(topic) == voted_topic(*old(topic), upvote)
                &&& *final(vote_record) == (TopicVoteRecord {
                    voter,
                    topic: topic_key,
                    upvote,
                    has_voted: true,
                    bump,
                })
            },
        },
{
    if vote_record.has_voted {
        return Err(ErrorCode::AlreadyVoted);
    }
    if upvote {
        if topic.upvotes == u32::MAX {
            return Err(ErrorCode::ArithmeticOverflow);
        }
        topic.upvotes = topic.upvotes + 1;
    } else {
        if topic.downvotes == u32::MAX {
            return Err(ErrorCode::ArithmeticOverflow);
        }
        topic.downvotes = topic.downvotes + 1;
    }
    vote_record.voter = voter;
    vote_record.topic = topic_key;
    vote_record.upvote = upvote;
    vote_record.has_voted = true;
    vote_record.bump = bump;
    Ok(())
}

} // verus!
