use vstd::prelude::*;

use crate::errors::TwitterError;
use crate::states::Pubkey;
use crate::states::Reaction;
use crate::states::ReactionType;
use crate::states::Tweet;

verus! {

/// The accounts the host runtime hands to the handler after it has
/// resolved and validated them: the signing author, the reaction record
/// being removed, and the tweet whose counter the record contributed to.
pub struct RemoveReactionContext {
    /// The caller; must be the author recorded in the reaction.
    pub reaction_author: Pubkey,
    /// The reaction record being removed.
    pub tweet_reaction: Reaction,
    /// The tweet whose matching counter is decremented.
    pub tweet: Tweet,
}

impl RemoveReactionContext {
    /// The address bindings the host runtime checks before dispatch: the
    /// reaction record's address was derived from the calling author and
    /// from the very tweet being updated. The handler trusts these checks.
    pub open spec fn wf(self) -> bool {
        &&& self.tweet_reaction.reaction_author == self.reaction_author
        &&& self.tweet_reaction.parent_tweet == self.tweet.key
    }
}

/// Can the tweet support removing a reaction of this kind, or does the
/// matching counter already stand at zero?
pub open spec fn counter_supports_removal(tweet: Tweet, reaction: ReactionType) -> bool {
    match reaction {
        ReactionType::Like => tweet.likes > 0,
        ReactionType::Dislike => tweet.dislikes > 0,
    }
}

/// The error raised when the counter matching `reaction` is at its
/// minimum.
pub open spec fn removal_error(reaction: ReactionType) -> TwitterError {
    match reaction {
        ReactionType::Like => TwitterError::MinLikesReached,
        ReactionType::Dislike => TwitterError::MinDislikesReached,
    }
}

/// `after` holds the counters of `before` with the one matching `reaction`
/// lowered by exactly one and the other untouched.
pub open spec fn decremented_counters(before: Tweet, after: Tweet, reaction: ReactionType) -> bool {
    match reaction {
        ReactionType::Like => after.likes == before.likes - 1 && after.dislikes == before.dislikes,
        ReactionType::Dislike => after.dislikes == before.dislikes - 1 && after.likes
            == before.likes,
    }
}

/// Decrement the tweet counter matching `reaction` by exactly one.
///
/// For every tweet whose matching counter is positive, that counter drops
/// by exactly one and the other counter is unchanged. When the matching
/// counter already stands at zero, the operation fails with the counter's
/// minimum-reached error and leaves both counters unchanged. The
/// identifying fields are never touched.
pub fn apply_reaction_removal(tweet: &mut Tweet, reaction: ReactionType) -> (result: Result<
    (),
    TwitterError,
>)
    ensures
        final(tweet).same_identity(*old(tweet)),
        reaction is Like && old(tweet).likes > 0 ==> {
            &&& result is Ok
            &&& final(tweet).likes == old(tweet).likes - 1
            &&& final(tweet).dislikes == old(tweet).dislikes
        },
        reaction is Like && old(tweet).likes == 0 ==> {
            &&& result == Err::<(), TwitterError>(TwitterError::MinLikesReached)
            &&& final(tweet).likes == old(tweet).likes
            &&& final(tweet).dislikes == old(tweet).dislikes
        },
        reaction is Dislike && old(tweet).dislikes > 0 ==> {
            &&& result is Ok
            &&& final(tweet).dislikes == old(tweet).dislikes - 1
            &&& final(tweet).likes == old(tweet).likes
        },
        reaction is Dislike && old(tweet).dislikes == 0 ==> {
            &&& result == Err::<(), TwitterError>(TwitterError::MinDislikesReached)
            &&& final(tweet).likes == old(tweet).likes
            &&& final(tweet).dislikes == old(tweet).dislikes
        },
{
    match reaction {
        ReactionType::Like => {
            if tweet.likes == 0 {
                return Err(TwitterError::MinLikesReached);
            }
            tweet.likes = tweet.likes - 1;
        },
        ReactionType::Dislike => {
            if tweet.dislikes == 0 {
                return Err(TwitterError::MinDislikesReached);
            }
            tweet.dislikes = tweet.dislikes - 1;
        },
    }
    Ok(())
}

/// The removal handler: inspect the variant stored in the reaction record
/// and decrement the tweet's matching counter, failing on underflow. The
/// reaction record and the calling author are left untouched; releasing
/// the record's storage is the host-level step around the handler.
pub fn remove_reaction(ctx: &mut RemoveReactionContext) -> (result: Result<(), TwitterError>)
    requires
        old(ctx).wf(),
    ensures
        final(ctx).wf(),
        final(ctx).reaction_author == old(ctx).reaction_author,
        final(ctx).tweet_reaction == old(ctx).tweet_reaction,
        final(ctx).tweet.same_identity(old(ctx).tweet),
        old(ctx).tweet_reaction.reaction is Like && old(ctx).tweet.likes > 0 ==> {
            &&& result is Ok
            &&& final(ctx).tweet.likes == old(ctx).tweet.likes - 1
            &&& final(ctx).tweet.dislikes == old(ctx).tweet.dislikes
        },
        old(ctx).tweet_reaction.reaction is Like && old(ctx).tweet.likes == 0 ==> {
            &&& result == Err::<(), TwitterError>(TwitterError::MinLikesReached)
            &&& final(ctx).tweet.likes == old(ctx).tweet.likes
            &&& final(ctx).tweet.dislikes == old(ctx).tweet.dislikes
        },
        old(ctx).tweet_reaction.reaction is Dislike && old(ctx).tweet.dislikes > 0 ==> {
            &&& result is Ok
            &&& final(ctx).tweet.dislikes == old(ctx).tweet.dislikes - 1
            &&& final(ctx).tweet.likes == old(ctx).tweet.likes
        },
        old(ctx).tweet_reaction.reaction is Dislike && old(ctx).tweet.dislikes == 0 ==> {
            &&& result == Err::<(), TwitterError>(TwitterError::MinDislikesReached)
            &&& final(ctx).tweet.likes == old(ctx).tweet.likes
            &&& final(ctx).tweet.dislikes == old(ctx).tweet.dislikes
        },
{
    let reaction = ctx.tweet_reaction.reaction;
    apply_reaction_removal(&mut ctx.tweet, reaction)
}

} // verus!
