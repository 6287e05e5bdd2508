//! The text of the insert statements.

use vstd::prelude::*;
use vstd::string::StringExecFns;

verus! {

/// The opening of the statement that inserts comments, up to the rows.
pub const COMMENT_INSERT: &'static str =
    "INSERT INTO comment (decoded_reddit_id, reddit_id, permalink, author, author_premium, subreddit, decoded_subreddit_id, subreddit_type, body, score, ups, downs, created_utc, edited_utc, retrieved_on, parent_type, parent_id, decoded_parent_id, distinguished, stickied, parent_is_post, is_submitter, archived, locked, collapsed) VALUES ";

/// The placeholders of one comment.
pub const COMMENT_PLACEHOLDERS: &'static str =
    "(?, ?, ?, ?, ?, ?, ?, ?, ?, ?, ?, ?, ?, ?, ?, ?, ?, ?, ?, ?, ?, ?, ?, ?, ?)";

/// The opening of the statement that inserts submissions, up to the rows.
pub const SUBMISSION_INSERT: &'static str =
    "INSERT INTO submission (decoded_reddit_id, reddit_id, author, author_premium, title, subreddit, decoded_subreddit_id, subreddit_subscribers, selftext, permalink, domain, url, score, ups, downs, created_utc, edited_utc, retrieved_on, is_self, over_18, spoiler, pinned, stickied, num_comments, num_crossposts, author_flair_text, author_flair_template_id, link_flair_text, link_flair_template_id, is_created_from_ads_ui, is_gallery, is_video, is_original_content, is_reddit_media_domain, contest_mode, quarantine, subreddit_type, suggested_sort, decoded_crosspost_parent_id, post_hint, removed_by_category) VALUES ";

/// The placeholders of one submission.
pub const SUBMISSION_PLACEHOLDERS: &'static str =
    "(?, ?, ?, ?, ?, ?, ?, ?, ?, ?, ?, ?, ?, ?, ?, ?, ?, ?, ?, ?, ?, ?, ?, ?, ?, ?, ?, ?, ?, ?, ?, ?, ?, ?, ?, ?, ?, ?, ?, ?, ?)";

/// What stands between the placeholders of two rows.
pub const ROW_SEPARATOR: &'static str = ", ";

/// The close of an insert statement: a row whose identifier is stored
/// already is passed over.
pub const ON_CONFLICT: &'static str = " ON CONFLICT DO NOTHING";

/// `item` written `count` times with `separator` between two of them.
pub open spec fn repeated(item: Seq<char>, separator: Seq<char>, count: nat) -> Seq<char>
    decreases count,
{
    if count == 0 {
        Seq::empty()
    } else if count == 1 {
        item
    } else {
        repeated(item, separator, (count - 1) as nat) + separator + item
    }
}

/// The statement that inserts `rows` rows: the opening, the placeholders of
/// each row, and the close.
pub open spec fn insert_text(opening: Seq<char>, placeholders: Seq<char>, rows: nat) -> Seq<
    char,
> {
    opening + repeated(placeholders, ROW_SEPARATOR@, rows) + ON_CONFLICT@
}

/// Writes the statement that inserts `rows` rows.
pub fn insert_statement(opening: &str, placeholders: &str, rows: usize) -> (text: String)
    ensures
        text@ == insert_text(opening@, placeholders@, rows as nat),
{
    let mut text = opening.to_owned();
    let mut written: usize = 0;
    while written < rows
        invariant
            written <= rows,
            text@ == opening@ + repeated(placeholders@, ROW_SEPARATOR@, written as nat),
        decreases rows - written,
    {
        if written > 0 {
            text.append(ROW_SEPARATOR);
        }
        text.append(placeholders);
        written += 1;
        assert(text@ =~= opening@ + repeated(placeholders@, ROW_SEPARATOR@, written as nat));
    }
    text.append(ON_CONFLICT);
    text
}

} // verus!
