use vstd::prelude::*;

verus! {

/// An account address assigned by the host runtime. The runtime derives it
/// deterministically from seed bytes and a stored bump before any handler
/// runs, so within the handlers an address is opaque and is only compared
/// for equality.
pub type Pubkey = u64;

/// Which counter of the parent tweet a reaction contributed to.
#[derive(Clone, Copy, PartialEq, Eq, Structural, Debug)]
pub enum ReactionType {
    Like,
    Dislike,
}

/// A tweet record. `likes` and `dislikes` are the counters this module
/// mutates; the identifying fields (address, author, topic, bump) only
/// bind the record to its derived address and are never changed here.
pub struct Tweet {
    /// The record's own address.
    pub key: Pubkey,
    /// The author the tweet's address was derived from.
    pub tweet_author: Pubkey,
    /// The topic bytes the tweet's address was derived from.
    pub topic: Vec<u8>,
    /// The bump recorded when the address was derived.
    pub bump: u8,
    /// How many like reactions are currently recorded.
    pub likes: u64,
    /// How many dislike reactions are currently recorded.
    pub dislikes: u64,
}

impl Tweet {
    /// The identifying fields agree: removal touches the counters only.
    pub open spec fn same_identity(self, other: Tweet) -> bool {
        &&& self.key == other.key
        &&& self.tweet_author == other.tweet_author
        &&& self.topic@ == other.topic@
        &&& self.bump == other.bump
    }
}

/// A reaction record. It exists only while the reaction is active: it is
/// created when the reaction is added and its storage is released when the
/// reaction is removed. Its address is derived from the reacting author
/// and the parent tweet, so the pair identifies the record.
#[derive(Clone, Copy, PartialEq, Eq, Structural, Debug)]
pub struct Reaction {
    /// The author who reacted; the record's address is bound to them.
    pub reaction_author: Pubkey,
    /// The address of the tweet the reaction counts toward.
    pub parent_tweet: Pubkey,
    /// Which counter of the parent tweet this record contributed to.
    pub reaction: ReactionType,
    /// The bump recorded when the address was derived.
    pub bump: u8,
}

} // verus!
