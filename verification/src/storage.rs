//! What a store of records offers, and what can be stored.

use crate::reddit_types::comment::Comment;
use crate::reddit_types::submission::Submission;
use vstd::prelude::*;

verus! {

/// Why a store refused a record or failed.
#[derive(Debug, Clone)]
pub enum StoreError {
    /// The record's identifier is no base-36 number of 64 bits.
    InvalidId,
    /// The database failed; the text is what it said.
    Sql(String),
}

/// A store that takes records of both kinds.
pub trait Storage: Sized {
    fn insert_comment(&mut self, comment: Comment) -> Result<usize, StoreError>;

    fn insert_submission(&mut self, submission: Submission) -> Result<usize, StoreError>;
}

/// A record that can be handed to a store.
pub trait Storable: Sized {
    fn store<T: Storage>(self, storage: &mut T) -> Result<usize, StoreError>;
}

} // verus!
