//! Removal of a recorded reaction (like or dislike) from a tweet.
//!
//! A tweet keeps two unsigned counters, one per reaction kind. A reaction
//! record remembers which counter it contributed to. Removing a reaction
//! decrements the matching counter by exactly one, guarded against
//! underflow, and then releases the reaction record's storage back to the
//! reacting author. The host runtime's account resolution is modelled by a
//! ledger of live reaction records keyed by the pair the record's address
//! is derived from.

pub mod errors;
pub mod ledger;
pub mod remove_reaction;
pub mod states;
