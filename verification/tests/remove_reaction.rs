use twitter::errors::ProgramError;
use twitter::errors::TwitterError;
use twitter::ledger::ReactionAccount;
use twitter::ledger::ReactionLedger;
use twitter::remove_reaction::apply_reaction_removal;
use twitter::remove_reaction::remove_reaction;
use twitter::remove_reaction::RemoveReactionContext;
use twitter::states::Pubkey;
use twitter::states::Reaction;
use twitter::states::ReactionType;
use twitter::states::Tweet;

const AUTHOR: Pubkey = 11;
const TWEET_KEY: Pubkey = 77;
const TWEET_AUTHOR: Pubkey = 5;

fn sample_tweet(likes: u64, dislikes: u64) -> Tweet {
    Tweet {
        key: TWEET_KEY,
        tweet_author: TWEET_AUTHOR,
        topic: b"cats".to_vec(),
        bump: 255,
        likes,
        dislikes,
    }
}

fn sample_reaction(reaction: ReactionType) -> Reaction {
    Reaction {
        reaction_author: AUTHOR,
        parent_tweet: TWEET_KEY,
        reaction,
        bump: 254,
    }
}

fn ledger_with(reaction: ReactionType, lamports: u64) -> ReactionLedger {
    let mut ledger = ReactionLedger {
        records: Vec::new(),
    };
    let added = ledger.add_reaction_record(ReactionAccount {
        reaction: sample_reaction(reaction),
        lamports,
    });
    assert_eq!(added, Ok(()));
    ledger
}

#[test]
fn removing_like_decrements_likes_only() {
    let mut tweet = sample_tweet(5, 4);
    let result = apply_reaction_removal(&mut tweet, ReactionType::Like);
    assert_eq!(result, Ok(()));
    assert_eq!(tweet.likes, 4);
    assert_eq!(tweet.dislikes, 4);
    assert_eq!(tweet.key, TWEET_KEY);
    assert_eq!(tweet.tweet_author, TWEET_AUTHOR);
    assert_eq!(tweet.topic, b"cats".to_vec());
    assert_eq!(tweet.bump, 255);
}

#[test]
fn removing_dislike_decrements_dislikes_only() {
    let mut tweet = sample_tweet(5, 4);
    let result = apply_reaction_removal(&mut tweet, ReactionType::Dislike);
    assert_eq!(result, Ok(()));
    assert_eq!(tweet.likes, 5);
    assert_eq!(tweet.dislikes, 3);
}

#[test]
fn removing_like_at_zero_fails() {
    let mut tweet = sample_tweet(0, 2);
    let result = apply_reaction_removal(&mut tweet, ReactionType::Like);
    assert_eq!(result, Err(TwitterError::MinLikesReached));
    assert_eq!(tweet.likes, 0);
    assert_eq!(tweet.dislikes, 2);
}

#[test]
fn removing_dislike_at_zero_fails() {
    let mut tweet = sample_tweet(3, 0);
    let result = apply_reaction_removal(&mut tweet, ReactionType::Dislike);
    assert_eq!(result, Err(TwitterError::MinDislikesReached));
    assert_eq!(tweet.likes, 3);
    assert_eq!(tweet.dislikes, 0);
}

#[test]
fn error_messages_name_the_counter() {
    assert_eq!(TwitterError::MinLikesReached.message(), "minimum likes reached");
    assert_eq!(
        TwitterError::MinDislikesReached.message(),
        "minimum dislikes reached"
    );
}

#[test]
fn handler_decrements_through_context() {
    let mut ctx = RemoveReactionContext {
        reaction_author: AUTHOR,
        tweet_reaction: sample_reaction(ReactionType::Dislike),
        tweet: sample_tweet(3, 1),
    };
    let result = remove_reaction(&mut ctx);
    assert_eq!(result, Ok(()));
    assert_eq!(ctx.tweet.likes, 3);
    assert_eq!(ctx.tweet.dislikes, 0);
    assert_eq!(ctx.tweet_reaction, sample_reaction(ReactionType::Dislike));
    assert_eq!(ctx.reaction_author, AUTHOR);
}

#[test]
fn handler_reports_min_likes_at_zero() {
    let mut ctx = RemoveReactionContext {
        reaction_author: AUTHOR,
        tweet_reaction: sample_reaction(ReactionType::Like),
        tweet: sample_tweet(0, 0),
    };
    let result = remove_reaction(&mut ctx);
    assert_eq!(result, Err(TwitterError::MinLikesReached));
    assert_eq!(ctx.tweet.likes, 0);
    assert_eq!(ctx.tweet.dislikes, 0);
}

#[test]
fn example_like_removal() {
    // likes = 3, dislikes = 1; removing a recorded Like leaves 2 and 1 and
    // the reaction record is gone.
    let mut ledger = ledger_with(ReactionType::Like, 890_880);
    let mut tweet = sample_tweet(3, 1);
    let mut balance: u64 = 0;
    let result = ledger.process_remove_reaction(&mut tweet, AUTHOR, &mut balance);
    assert_eq!(result, Ok(()));
    assert_eq!(tweet.likes, 2);
    assert_eq!(tweet.dislikes, 1);
    assert_eq!(ledger.records.len(), 0);
}

#[test]
fn example_like_removal_fails_at_zero() {
    // likes = 0, dislikes = 2; removing a recorded Like fails and changes
    // nothing, and the record is still resolvable.
    let mut ledger = ledger_with(ReactionType::Like, 890_880);
    let mut tweet = sample_tweet(0, 2);
    let mut balance: u64 = 125;
    let result = ledger.process_remove_reaction(&mut tweet, AUTHOR, &mut balance);
    assert_eq!(
        result,
        Err(ProgramError::Custom(TwitterError::MinLikesReached))
    );
    assert_eq!(tweet.likes, 0);
    assert_eq!(tweet.dislikes, 2);
    assert_eq!(balance, 125);
    assert_eq!(ledger.records.len(), 1);
    assert_eq!(ledger.records[0].reaction, sample_reaction(ReactionType::Like));
}

#[test]
fn repeat_removal_fails_at_resolution() {
    let mut ledger = ledger_with(ReactionType::Dislike, 10);
    let mut tweet = sample_tweet(1, 1);
    let mut balance: u64 = 0;
    let first = ledger.process_remove_reaction(&mut tweet, AUTHOR, &mut balance);
    assert_eq!(first, Ok(()));
    assert_eq!(tweet.dislikes, 0);
    let second = ledger.process_remove_reaction(&mut tweet, AUTHOR, &mut balance);
    assert_eq!(second, Err(ProgramError::AccountNotFound));
    assert_eq!(tweet.likes, 1);
    assert_eq!(tweet.dislikes, 0);
    assert_eq!(balance, 10);
}

#[test]
fn closing_the_record_returns_its_balance() {
    let mut ledger = ledger_with(ReactionType::Like, 890_880);
    let mut tweet = sample_tweet(1, 0);
    let mut balance: u64 = 2_000;
    let result = ledger.process_remove_reaction(&mut tweet, AUTHOR, &mut balance);
    assert_eq!(result, Ok(()));
    assert_eq!(balance, 892_880);
}

#[test]
fn unknown_pair_is_not_resolved() {
    let mut ledger = ledger_with(ReactionType::Like, 10);
    let mut tweet = sample_tweet(4, 4);
    let mut balance: u64 = 0;
    let other_author: Pubkey = AUTHOR + 1;
    let result = ledger.process_remove_reaction(&mut tweet, other_author, &mut balance);
    assert_eq!(result, Err(ProgramError::AccountNotFound));
    assert_eq!(tweet.likes, 4);
    assert_eq!(tweet.dislikes, 4);
    assert_eq!(balance, 0);
    assert_eq!(ledger.records.len(), 1);
}

#[test]
fn duplicate_reaction_record_is_refused() {
    let mut ledger = ledger_with(ReactionType::Like, 10);
    let result = ledger.add_reaction_record(ReactionAccount {
        reaction: sample_reaction(ReactionType::Dislike),
        lamports: 20,
    });
    assert_eq!(result, Err(ProgramError::AccountAlreadyInUse));
    assert_eq!(ledger.records.len(), 1);
}

#[test]
fn removal_from_largest_counter() {
    let mut tweet = sample_tweet(u64::MAX, u64::MAX);
    let result = apply_reaction_removal(&mut tweet, ReactionType::Like);
    assert_eq!(result, Ok(()));
    assert_eq!(tweet.likes, u64::MAX - 1);
    assert_eq!(tweet.dislikes, u64::MAX);
}

#[test]
fn records_of_other_pairs_survive_removal() {
    let mut ledger = ReactionLedger {
        records: Vec::new(),
    };
    let added_first = ledger.add_reaction_record(ReactionAccount {
        reaction: sample_reaction(ReactionType::Like),
        lamports: 1,
    });
    assert_eq!(added_first, Ok(()));
    let other = Reaction {
        reaction_author: AUTHOR + 1,
        parent_tweet: TWEET_KEY,
        reaction: ReactionType::Like,
        bump: 253,
    };
    let added_second = ledger.add_reaction_record(ReactionAccount {
        reaction: other,
        lamports: 2,
    });
    assert_eq!(added_second, Ok(()));
    let mut tweet = sample_tweet(2, 0);
    let mut balance: u64 = 0;
    let result = ledger.process_remove_reaction(&mut tweet, AUTHOR, &mut balance);
    assert_eq!(result, Ok(()));
    assert_eq!(tweet.likes, 1);
    assert_eq!(ledger.records.len(), 1);
    assert_eq!(ledger.records[0].reaction, other);
    assert_eq!(ledger.records[0].lamports, 2);
}
