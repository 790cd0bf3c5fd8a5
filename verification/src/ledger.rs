use vstd::prelude::*;

use crate::errors::ProgramError;
use crate::remove_reaction::apply_reaction_removal;
use crate::remove_reaction::counter_supports_removal;
use crate::remove_reaction::decremented_counters;
use crate::remove_reaction::removal_error;
use crate::states::Pubkey;
use crate::states::Reaction;
use crate::states::Tweet;

verus! {

/// A live reaction record together with the storage balance its account
/// holds, which is returned to the author when the record is closed.
#[derive(Clone, Copy, PartialEq, Eq, Structural, Debug)]
pub struct ReactionAccount {
    /// The record's data.
    pub reaction: Reaction,
    /// The balance held by the record's storage.
    pub lamports: u64,
}

/// Does `account` hold the reaction of `author` on the tweet at
/// `tweet_key`? Record addresses are derived from exactly this pair, so
/// the pair resolves at most one live record.
pub open spec fn is_record_for(account: ReactionAccount, author: Pubkey, tweet_key: Pubkey) -> bool {
    &&& account.reaction.reaction_author == author
    &&& account.reaction.parent_tweet == tweet_key
}

/// No two records of `records` answer to the same author/tweet pair.
pub open spec fn distinct_keys(records: Seq<ReactionAccount>) -> bool {
    forall|i: int, j: int|
        0 <= i < records.len() && 0 <= j < records.len() && i != j ==> !(
        records[i].reaction.reaction_author == records[j].reaction.reaction_author
            && records[i].reaction.parent_tweet == records[j].reaction.parent_tweet)
}

/// Some record of `records` answers to the author/tweet pair.
pub open spec fn resolves_in(records: Seq<ReactionAccount>, author: Pubkey, tweet_key: Pubkey) -> bool {
    exists|i: int| 0 <= i < records.len() && is_record_for(records[i], author, tweet_key)
}

/// The position of the record answering to the author/tweet pair;
/// meaningful only when some record resolves.
pub open spec fn record_index_in(records: Seq<ReactionAccount>, author: Pubkey, tweet_key: Pubkey) -> int {
    choose|i: int| 0 <= i < records.len() && is_record_for(records[i], author, tweet_key)
}

/// The record store of the host runtime, restricted to reaction records:
/// every live reaction account, resolvable by the author/tweet pair its
/// address is derived from.
pub struct ReactionLedger {
    /// The live records, no two under the same pair.
    pub records: Vec<ReactionAccount>,
}

impl ReactionLedger {
    /// Well-formedness: derived addressing keeps the keys distinct.
    pub open spec fn wf(self) -> bool {
        distinct_keys(self.records@)
    }

    /// Does a live record exist for the author/tweet pair?
    pub open spec fn resolves(self, author: Pubkey, tweet_key: Pubkey) -> bool {
        resolves_in(self.records@, author, tweet_key)
    }

    /// The live record for the author/tweet pair; meaningful only when one
    /// resolves.
    pub open spec fn record_for(self, author: Pubkey, tweet_key: Pubkey) -> ReactionAccount {
        self.records@[record_index_in(self.records@, author, tweet_key)]
    }

    /// Resolve the author/tweet pair to the position of its live record.
    fn find_record(&self, author: Pubkey, tweet_key: Pubkey) -> (found: Option<usize>)
        ensures
            match found {
                Some(i) => {
                    &&& i < self.records@.len()
                    &&& is_record_for(self.records@[i as int], author, tweet_key)
                },
                None => !self.resolves(author, tweet_key),
            },
    {
        let mut i: usize = 0;
        while i < self.records.len()
            invariant
                i <= self.records@.len(),
                forall|k: int| 0 <= k < i ==> !is_record_for(self.records@[k], author, tweet_key),
            decreases self.records@.len() - i,
        {
            let account = self.records[i];
            if account.reaction.reaction_author == author && account.reaction.parent_tweet
                == tweet_key {
                return Some(i);
            }
            i = i + 1;
        }
        None
    }

    /// Record a newly added reaction. The host runtime refuses to create a
    /// record at an address that is already in use, which is what keeps
    /// the author/tweet keys of the ledger distinct.
    pub fn add_reaction_record(&mut self, account: ReactionAccount) -> (result: Result<
        (),
        ProgramError,
    >)
        requires
            old(self).wf(),
        ensures
            final(self).wf(),
            old(self).resolves(
                account.reaction.reaction_author,
                account.reaction.parent_tweet,
            ) ==> {
                &&& result == Err::<(), ProgramError>(ProgramError::AccountAlreadyInUse)
                &&& final(self).records@ == old(self).records@
            },
            !old(self).resolves(
                account.reaction.reaction_author,
                account.reaction.parent_tweet,
            ) ==> {
                &&& result is Ok
                &&& final(self).records@ == old(self).records@.push(account)
                &&& final(self).resolves(
                    account.reaction.reaction_author,
                    account.reaction.parent_tweet,
                )
            },
    {
        let found = self.find_record(
            account.reaction.reaction_author,
            account.reaction.parent_tweet,
        );
        match found {
            Some(_) => Err(ProgramError::AccountAlreadyInUse),
            None => {
                proof {
                    lemma_distinct_keys_push(self.records@, account);
                }
                self.records.push(account);
                proof {
                    assert(is_record_for(
                        self.records@[self.records@.len() - 1],
                        account.reaction.reaction_author,
                        account.reaction.parent_tweet,
                    ));
                }
                Ok(())
            },
        }
    }

    /// The full removal operation, as the host runtime dispatches it:
    /// resolve the caller's reaction record on the tweet, run the removal
    /// handler on the resolved accounts, and on success close the record,
    /// returning the balance it held to the calling author. Any failure
    /// leaves every account exactly as it was: no partial update persists.
    pub fn process_remove_reaction(
        &mut self,
        tweet: &mut Tweet,
        reaction_author: Pubkey,
        author_lamports: &mut u64,
    ) -> (result: Result<(), ProgramError>)
        requires
            old(self).wf(),
            // machine limit: the author's balance must be able to receive
            // the closed record's balance
            old(self).resolves(reaction_author, old(tweet).key) ==> *old(author_lamports) + old(
                self,
            ).record_for(reaction_author, old(tweet).key).lamports <= u64::MAX,
        ensures
            final(self).wf(),
            final(tweet).same_identity(*old(tweet)),
            !old(self).resolves(reaction_author, old(tweet).key) ==> {
                &&& result == Err::<(), ProgramError>(ProgramError::AccountNotFound)
                &&& final(self).records@ == old(self).records@
                &&& final(tweet).likes == old(tweet).likes
                &&& final(tweet).dislikes == old(tweet).dislikes
                &&& *final(author_lamports) == *old(author_lamports)
            },
            old(self).resolves(reaction_author, old(tweet).key) ==> ({
                let record = old(self).record_for(reaction_author, old(tweet).key);
                &&& counter_supports_removal(*old(tweet), record.reaction.reaction) ==> {
                    &&& result is Ok
                    &&& decremented_counters(*old(tweet), *final(tweet), record.reaction.reaction)
                    &&& final(self).records@ == old(self).records@.remove(
                        record_index_in(old(self).records@, reaction_author, old(tweet).key),
                    )
                    &&& !final(self).resolves(reaction_author, old(tweet).key)
                    &&& *final(author_lamports) == *old(author_lamports) + record.lamports
                }
                &&& !counter_supports_removal(*old(tweet), record.reaction.reaction) ==> {
                    &&& result == Err::<(), ProgramError>(
                        ProgramError::Custom(removal_error(record.reaction.reaction)),
                    )
                    &&& final(self).records@ == old(self).records@
                    &&& final(tweet).likes == old(tweet).likes
                    &&& final(tweet).dislikes == old(tweet).dislikes
                    &&& *final(author_lamports) == *old(author_lamports)
                }
            }),
    {
        let tweet_key = tweet.key;
        let found = self.find_record(reaction_author, tweet_key);
        match found {
            None => Err(ProgramError::AccountNotFound),
            Some(i) => {
                proof {
                    lemma_record_index_unique(self.records@, reaction_author, tweet_key, i as int);
                }
                let account = self.records[i];
                match apply_reaction_removal(tweet, account.reaction.reaction) {
                    Err(e) => Err(ProgramError::Custom(e)),
                    Ok(()) => {
                        proof {
                            lemma_distinct_keys_remove(self.records@, i as int);
                            lemma_removed_record_gone(self.records@, reaction_author, tweet_key);
                        }
                        let closed = self.records.remove(i);
                        *author_lamports = *author_lamports + closed.lamports;
                        Ok(())
                    },
                }
            },
        }
    }
}

/// Under distinct keys, any position holding the pair's record is the
/// position that the pair resolves to.
proof fn lemma_record_index_unique(
    records: Seq<ReactionAccount>,
    author: Pubkey,
    tweet_key: Pubkey,
    i: int,
)
    requires
        distinct_keys(records),
        0 <= i < records.len(),
        is_record_for(records[i], author, tweet_key),
    ensures
        resolves_in(records, author, tweet_key),
        record_index_in(records, author, tweet_key) == i,
{
    assert(resolves_in(records, author, tweet_key));
    let j = record_index_in(records, author, tweet_key);
    assert(0 <= j < records.len() && is_record_for(records[j], author, tweet_key));
    if j != i {
        assert(false);
    }
}

/// Appending a record whose pair resolves to nothing keeps the keys
/// distinct.
proof fn lemma_distinct_keys_push(records: Seq<ReactionAccount>, account: ReactionAccount)
    requires
        distinct_keys(records),
        !resolves_in(records, account.reaction.reaction_author, account.reaction.parent_tweet),
    ensures
        distinct_keys(records.push(account)),
{
    let grown = records.push(account);
    assert forall|i: int, j: int|
        0 <= i < grown.len() && 0 <= j < grown.len() && i != j implies !(
    grown[i].reaction.reaction_author == grown[j].reaction.reaction_author
        && grown[i].reaction.parent_tweet == grown[j].reaction.parent_tweet) by {
        if i < records.len() && j < records.len() {
            assert(grown[i] == records[i]);
            assert(grown[j] == records[j]);
        } else if i < records.len() {
            assert(grown[i] == records[i]);
            assert(grown[j] == account);
            assert(!is_record_for(
                records[i],
                account.reaction.reaction_author,
                account.reaction.parent_tweet,
            ));
        } else {
            assert(grown[i] == account);
            assert(grown[j] == records[j]);
            assert(!is_record_for(
                records[j],
                account.reaction.reaction_author,
                account.reaction.parent_tweet,
            ));
        }
    }
}

/// Removing a record keeps the remaining keys distinct.
proof fn lemma_distinct_keys_remove(records: Seq<ReactionAccount>, i: int)
    requires
        distinct_keys(records),
        0 <= i < records.len(),
    ensures
        distinct_keys(records.remove(i)),
{
    records.remove_ensures(i);
    let rest = records.remove(i);
    assert forall|j: int, k: int|
        0 <= j < rest.len() && 0 <= k < rest.len() && j != k implies !(
    rest[j].reaction.reaction_author == rest[k].reaction.reaction_author
        && rest[j].reaction.parent_tweet == rest[k].reaction.parent_tweet) by {
        let j0 = if j < i {
            j
        } else {
            j + 1
        };
        let k0 = if k < i {
            k
        } else {
            k + 1
        };
        assert(rest[j] == records[j0]);
        assert(rest[k] == records[k0]);
        assert(j0 != k0);
    }
}

/// After a successful removal the reaction record no longer exists: the
/// record store that results from removing the pair's record resolves
/// that pair to nothing, so a repeated removal attempt by the same author
/// on the same tweet is rejected at record resolution.
pub proof fn lemma_removed_record_gone(
    records: Seq<ReactionAccount>,
    author: Pubkey,
    tweet_key: Pubkey,
)
    requires
        distinct_keys(records),
        resolves_in(records, author, tweet_key),
    ensures
        !resolves_in(
            records.remove(record_index_in(records, author, tweet_key)),
            author,
            tweet_key,
        ),
{
    let i = record_index_in(records, author, tweet_key);
    assert(0 <= i < records.len() && is_record_for(records[i], author, tweet_key));
    records.remove_ensures(i);
    let rest = records.remove(i);
    assert forall|j: int| 0 <= j < rest.len() implies !is_record_for(
        rest[j],
        author,
        tweet_key,
    ) by {
        if j < i {
            assert(rest[j] == records[j]);
        } else {
            assert(rest[j] == records[j + 1]);
        }
    }
}

} // verus!
