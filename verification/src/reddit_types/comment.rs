use crate::filter::Filterable;
use crate::reddit_types::{ParentId, SubredditType};
use crate::storage::{Storable, Storage, StoreError};
use vstd::prelude::*;

verus! {

/// The standing of a comment's author.
#[derive(Debug, Clone, Copy, PartialEq, Eq, Structural)]
pub enum Distinguished {
    Admin,
    Moderator,
    Special,
}

impl Distinguished {
    /// The name under which the standing is stored.
    pub open spec fn name(self) -> Seq<char> {
        match self {
            Distinguished::Admin => "admin"@,
            Distinguished::Moderator => "moderator"@,
            Distinguished::Special => "special"@,
        }
    }

    pub fn as_str(self) -> (name: &'static str)
        ensures
            name@ == self.name(),
    {
        match self {
            Distinguished::Admin => "admin",
            Distinguished::Moderator => "moderator",
            Distinguished::Special => "special",
        }
    }
}

/// One comment of the archive.
#[derive(Debug, Clone)]
pub struct Comment {
    pub author: String,
    pub body: String,
    pub subreddit: String,
    pub subreddit_id: ParentId,
    pub subreddit_type: Option<SubredditType>,
    pub author_flair_text: Option<String>,
    /// The identifier of the flair template, as a 128-bit number.
    pub author_flair_template_id: Option<u128>,
    pub author_premium: Option<bool>,
    pub author_flair_css_class: Option<String>,
    pub score: Option<i64>,
    pub ups: Option<i32>,
    pub downs: Option<i32>,
    pub created_utc: i64,
    pub retrieved_on: Option<i64>,
    pub link_id: ParentId,
    pub id: String,
    pub permalink: Option<String>,
    pub parent_id: Option<ParentId>,
    pub parent_is_post: bool,
    pub stickied: bool,
    pub is_submitter: bool,
    pub distinguished: Option<Distinguished>,
    pub edited: Option<i64>,
    pub archived: bool,
    pub controversiality: Option<i32>,
    pub locked: bool,
    pub collapsed: bool,
}

impl Filterable for Comment {
    fn score(&self) -> (score: Option<i64>)
        ensures
            score == self.score,
    {
        self.score
    }

    fn author(&self) -> (author: Option<&str>)
        ensures
            author matches Some(name) && name@ == self.author@,
    {
        Some(self.author.as_str())
    }

    fn subreddit(&self) -> (subreddit: Option<&str>)
        ensures
            subreddit matches Some(name) && name@ == self.subreddit@,
    {
        Some(self.subreddit.as_str())
    }

    fn created(&self) -> (created: i64)
        ensures
            created == self.created_utc,
    {
        self.created_utc
    }
}

impl Storable for Comment {
    /// Hands the comment to the store's `insert_comment`: the store changes
    /// as that method changes it, and what it gives is handed back.
    fn store<T: Storage>(self, storage: &mut T) -> (stored: Result<usize, StoreError>)
        ensures
            exists|store: &mut T|
                mut_ref_current(store) == *old(storage)
                    && mut_ref_future(store) == *final(storage)
                    && #[trigger] call_ensures(T::insert_comment, (store, self), stored),
    {
        storage.insert_comment(self)
    }
}

} // verus!
