use crate::filter::Filterable;
use crate::reddit_types::{ParentId, SubredditType};
use crate::storage::{Storable, Storage, StoreError};
use vstd::prelude::*;

verus! {

/// The order in which a submission asks for its comments to be shown.
#[derive(Debug, Clone, Copy, PartialEq, Eq, Structural)]
pub enum SuggestedSort {
    Confidence,
    Controversial,
    Live,
    New,
    Old,
    Qa,
    Random,
    Top,
}

impl SuggestedSort {
    /// The name under which the order is stored.
    pub open spec fn name(self) -> Seq<char> {
        match self {
            SuggestedSort::Confidence => "confidence"@,
            SuggestedSort::Controversial => "controversial"@,
            SuggestedSort::Live => "live"@,
            SuggestedSort::New => "new"@,
            SuggestedSort::Old => "old"@,
            SuggestedSort::Qa => "qa"@,
            SuggestedSort::Random => "random"@,
            SuggestedSort::Top => "top"@,
        }
    }

    pub fn as_str(self) -> (name: &'static str)
        ensures
            name@ == self.name(),
    {
        match self {
            SuggestedSort::Confidence => "confidence",
            SuggestedSort::Controversial => "controversial",
            SuggestedSort::Live => "live",
            SuggestedSort::New => "new",
            SuggestedSort::Old => "old",
            SuggestedSort::Qa => "qa",
            SuggestedSort::Random => "random",
            SuggestedSort::Top => "top",
        }
    }
}

/// What kind of content a submission links to.
#[derive(Debug, Clone, Copy, PartialEq, Eq, Structural)]
pub enum PostHint {
    Gallery,
    HostedVideo,
    Image,
    Link,
    RichVideo,
    Slf,
    Video,
}

impl PostHint {
    /// The name under which the hint is stored.
    pub open spec fn name(self) -> Seq<char> {
        match self {
            PostHint::Gallery => "gallery"@,
            PostHint::HostedVideo => "hosted_video"@,
            PostHint::Image => "image"@,
            PostHint::Link => "link"@,
            PostHint::RichVideo => "rich_video"@,
            PostHint::Slf => "slf"@,
            PostHint::Video => "video"@,
        }
    }

    pub fn as_str(self) -> (name: &'static str)
        ensures
            name@ == self.name(),
    {
        match self {
            PostHint::Gallery => "gallery",
            PostHint::HostedVideo => "hosted_video",
            PostHint::Image => "image",
            PostHint::Link => "link",
            PostHint::RichVideo => "rich_video",
            PostHint::Slf => "slf",
            PostHint::Video => "video",
        }
    }
}

/// Who took a submission down.
#[derive(Debug, Clone, Copy, PartialEq, Eq, Structural)]
pub enum RemovedByCategory {
    Author,
    AutomodFiltered,
    ContentTakedown,
    Deleted,
    Moderator,
    Reddit,
    AntiEvilOps,
    CommunityOps,
    CopyrightTakedown,
}

impl RemovedByCategory {
    /// The name under which the category is stored.
    pub open spec fn name(self) -> Seq<char> {
        match self {
            RemovedByCategory::Author => "author"@,
            RemovedByCategory::AutomodFiltered => "automod_filtered"@,
            RemovedByCategory::ContentTakedown => "content_takedown"@,
            RemovedByCategory::Deleted => "deleted"@,
            RemovedByCategory::Moderator => "moderator"@,
            RemovedByCategory::Reddit => "reddit"@,
            RemovedByCategory::AntiEvilOps => "anti_evil_ops"@,
            RemovedByCategory::CommunityOps => "community_ops"@,
            RemovedByCategory::CopyrightTakedown => "copyright_takedown"@,
        }
    }

    pub fn as_str(self) -> (name: &'static str)
        ensures
            name@ == self.name(),
    {
        match self {
            RemovedByCategory::Author => "author",
            RemovedByCategory::AutomodFiltered => "automod_filtered",
            RemovedByCategory::ContentTakedown => "content_takedown",
            RemovedByCategory::Deleted => "deleted",
            RemovedByCategory::Moderator => "moderator",
            RemovedByCategory::Reddit => "reddit",
            RemovedByCategory::AntiEvilOps => "anti_evil_ops",
            RemovedByCategory::CommunityOps => "community_ops",
            RemovedByCategory::CopyrightTakedown => "copyright_takedown",
        }
    }
}

/// One submission of the archive.
#[derive(Debug, Clone)]
pub struct Submission {
    pub author: Option<String>,
    pub author_premium: Option<bool>,
    pub url: Option<String>,
    pub permalink: String,
    pub score: Option<i64>,
    pub title: String,
    pub selftext: String,
    pub domain: Option<String>,
    pub author_flair_text: Option<String>,
    /// The identifier of the author's flair template, as a 128-bit number.
    pub author_flair_template_id: Option<u128>,
    pub subreddit: Option<String>,
    pub subreddit_id: Option<ParentId>,
    pub id: String,
    pub num_comments: i32,
    pub over_18: bool,
    pub is_self: bool,
    /// The identifier of the link's flair template, as a 128-bit number.
    pub link_flair_template_id: Option<u128>,
    pub link_flair_text: Option<String>,
    pub spoiler: Option<bool>,
    pub pinned: Option<bool>,
    pub stickied: bool,
    pub num_crossposts: Option<u32>,
    pub ups: Option<i32>,
    pub downs: Option<i32>,
    pub created_utc: i64,
    pub edited_utc: Option<i64>,
    pub retrieved_on: Option<i64>,
    pub is_created_from_ads_ui: bool,
    pub is_gallery: bool,
    pub is_video: bool,
    pub is_original_content: Option<bool>,
    pub is_reddit_media_domain: bool,
    pub url_overridden_by_dest: Option<String>,
    pub quarantine: Option<bool>,
    pub subreddit_subscribers: Option<i64>,
    pub contest_mode: bool,
    pub suggested_sort: Option<SuggestedSort>,
    pub crosspost_parent: Option<ParentId>,
    pub post_hint: Option<PostHint>,
    pub removed_by_category: Option<RemovedByCategory>,
    pub subreddit_type: Option<SubredditType>,
    pub wls: Option<i8>,
    pub whitelist_status: Option<String>,
}

/// The text of a name that may be absent.
pub open spec fn name_text(name: Option<String>) -> Option<Seq<char>> {
    match name {
        Some(text) => Some(text@),
        None => None,
    }
}

fn optional_str(name: &Option<String>) -> (text: Option<&str>)
    ensures
        crate::filter::text_of(text) == name_text(*name),
{
    match name {
        Some(text) => Some(text.as_str()),
        None => None,
    }
}

impl Filterable for Submission {
    fn score(&self) -> (score: Option<i64>)
        ensures
            score == self.score,
    {
        self.score
    }

    fn author(&self) -> (author: Option<&str>)
        ensures
            crate::filter::text_of(author) == name_text(self.author),
    {
        optional_str(&self.author)
    }

    fn subreddit(&self) -> (subreddit: Option<&str>)
        ensures
            crate::filter::text_of(subreddit) == name_text(self.subreddit),
    {
        optional_str(&self.subreddit)
    }

    fn created(&self) -> (created: i64)
        ensures
            created == self.created_utc,
    {
        self.created_utc
    }
}

impl Storable for Submission {
    /// Hands the submission to the store's `insert_submission`: the store
    /// changes as that method changes it, and what it gives is handed back.
    fn store<T: Storage>(self, storage: &mut T) -> (stored: Result<usize, StoreError>)
        ensures
            exists|store: &mut T|
                mut_ref_current(store) == *old(storage)
                    && mut_ref_future(store) == *final(storage)
                    && #[trigger] call_ensures(T::insert_submission, (store, self), stored),
    {
        storage.insert_submission(self)
    }
}

} // verus!
