//! The row that a record becomes in its table.

use crate::radix::{from_str_radix, parse_i64};
use crate::reddit_types::comment::{Comment, Distinguished};
use crate::reddit_types::submission::{PostHint, RemovedByCategory, Submission, SuggestedSort};
use crate::reddit_types::{ParentId, SubredditType};
use rusqlite::types::Value;
use vstd::prelude::*;

verus! {

/// `rusqlite::types::Value`, the value bound to one placeholder. Its five
/// variants are read from rusqlite itself, so that rows are built and
/// stated over them.
#[verifier::external_type_specification]
pub struct ExValue(Value);

/// How many columns a comment fills.
pub const COMMENT_COLUMNS: usize = 25;

/// How many columns a submission fills.
pub const SUBMISSION_COLUMNS: usize = 41;

/// What one cell of a row holds.
pub enum Cell {
    Null,
    Integer(i64),
    /// A real number; no row made here holds one.
    Real,
    Text(Seq<char>),
    Blob(Seq<u8>),
}

/// The cell that a database value fills.
pub open spec fn cell_of(value: Value) -> Cell {
    match value {
        Value::Null => Cell::Null,
        Value::Integer(number) => Cell::Integer(number),
        Value::Real(_) => Cell::Real,
        Value::Text(text) => Cell::Text(text@),
        Value::Blob(bytes) => Cell::Blob(bytes@),
    }
}

/// The cells that a run of database values fills.
pub open spec fn cells(values: Seq<Value>) -> Seq<Cell> {
    Seq::new(values.len(), |i: int| cell_of(values[i]))
}

/// The cell of a truth value: 1 for true, 0 for false.
pub open spec fn flag_cell(flag: bool) -> Cell {
    Cell::Integer(if flag { 1i64 } else { 0i64 })
}

/// The cell of a truth value that may be absent.
pub open spec fn optional_flag_cell(flag: Option<bool>) -> Cell {
    match flag {
        Some(flag) => flag_cell(flag),
        None => Cell::Null,
    }
}

/// The cell of an integer that may be absent.
pub open spec fn optional_integer_cell(number: Option<i64>) -> Cell {
    match number {
        Some(number) => Cell::Integer(number),
        None => Cell::Null,
    }
}

/// The cell of a 32-bit integer that may be absent.
pub open spec fn optional_small_cell(number: Option<i32>) -> Cell {
    match number {
        Some(number) => Cell::Integer(number as i64),
        None => Cell::Null,
    }
}

/// The cell of a count that may be absent.
pub open spec fn optional_count_cell(number: Option<u32>) -> Cell {
    match number {
        Some(number) => Cell::Integer(number as i64),
        None => Cell::Null,
    }
}

/// The cell of a text that may be absent.
pub open spec fn optional_text_cell(text: Option<String>) -> Cell {
    match text {
        Some(text) => Cell::Text(text@),
        None => Cell::Null,
    }
}

/// The cell of the kind of a subreddit: its stored name.
pub open spec fn subreddit_type_cell(kind: Option<SubredditType>) -> Cell {
    match kind {
        Some(kind) => Cell::Text(kind.name()),
        None => Cell::Null,
    }
}

/// The cell of the standing of an author: its stored name.
pub open spec fn distinguished_cell(standing: Option<Distinguished>) -> Cell {
    match standing {
        Some(standing) => Cell::Text(standing.name()),
        None => Cell::Null,
    }
}

/// The cell of the order a submission asks for: its stored name.
pub open spec fn suggested_sort_cell(order: Option<SuggestedSort>) -> Cell {
    match order {
        Some(order) => Cell::Text(order.name()),
        None => Cell::Null,
    }
}

/// The cell of the hint of a submission: its stored name.
pub open spec fn post_hint_cell(hint: Option<PostHint>) -> Cell {
    match hint {
        Some(hint) => Cell::Text(hint.name()),
        None => Cell::Null,
    }
}

/// The cell of who took a submission down: its stored name.
pub open spec fn removed_by_cell(category: Option<RemovedByCategory>) -> Cell {
    match category {
        Some(category) => Cell::Text(category.name()),
        None => Cell::Null,
    }
}

/// The byte of a 128-bit identifier at place `i`, counted from the most
/// significant.
pub open spec fn identifier_byte(identifier: u128, i: int) -> u8 {
    ((identifier >> ((8 * (15 - i)) as u128)) & 0xff) as u8
}

/// The 16 bytes of a 128-bit identifier, most significant first.
pub open spec fn identifier_bytes(identifier: u128) -> Seq<u8> {
    Seq::new(16, |i: int| identifier_byte(identifier, i))
}

/// The cell of a 128-bit identifier that may be absent: its 16 bytes.
pub open spec fn optional_identifier_cell(identifier: Option<u128>) -> Cell {
    match identifier {
        Some(identifier) => Cell::Blob(identifier_bytes(identifier)),
        None => Cell::Null,
    }
}

/// The cell of the number that a reference names, where there is one.
pub open spec fn optional_decoded_cell(reference: Option<ParentId>) -> Cell {
    match reference {
        Some(reference) => Cell::Integer(reference.decoded_parent_id),
        None => Cell::Null,
    }
}

/// The cell of the kind that a comment's parent is of.
pub open spec fn parent_type_cell(parent: Option<ParentId>) -> Cell {
    match parent {
        Some(ParentId { parent_type: Some(kind), .. }) => Cell::Integer(kind as i64),
        _ => Cell::Null,
    }
}

/// The cell of the text of a comment's parent.
pub open spec fn parent_text_cell(parent: Option<ParentId>) -> Cell {
    match parent {
        Some(parent) => Cell::Text(parent.parent_id@),
        None => Cell::Null,
    }
}

/// Whether a record's identifier is a base-36 number of 64 bits.
pub open spec fn valid_id(id: Seq<char>) -> bool {
    parse_i64(id, 36) is Some
}

/// The number that a record's identifier spells in base 36.
pub open spec fn decoded_id(id: Seq<char>) -> i64 {
    parse_i64(id, 36).unwrap()
}

/// The row of a comment, column by column in the order of the insert
/// statement.
pub open spec fn comment_cells(comment: Comment) -> Seq<Cell> {
    seq![
        Cell::Integer(decoded_id(comment.id@)),
        Cell::Text(comment.id@),
        optional_text_cell(comment.permalink),
        Cell::Text(comment.author@),
        optional_flag_cell(comment.author_premium),
        Cell::Text(comment.subreddit@),
        Cell::Integer(comment.subreddit_id.decoded_parent_id),
        subreddit_type_cell(comment.subreddit_type),
        Cell::Text(comment.body@),
        optional_integer_cell(comment.score),
        optional_small_cell(comment.ups),
        optional_small_cell(comment.downs),
        Cell::Integer(comment.created_utc),
        optional_integer_cell(comment.edited),
        optional_integer_cell(comment.retrieved_on),
        parent_type_cell(comment.parent_id),
        parent_text_cell(comment.parent_id),
        optional_decoded_cell(comment.parent_id),
        distinguished_cell(comment.distinguished),
        flag_cell(comment.stickied),
        flag_cell(comment.parent_is_post),
        flag_cell(comment.is_submitter),
        flag_cell(comment.archived),
        flag_cell(comment.locked),
        flag_cell(comment.collapsed),
    ]
}

/// The first twelve columns of a submission's row: what it is and says.
pub open spec fn submission_text_cells(submission: Submission) -> Seq<Cell> {
    seq![
        Cell::Integer(decoded_id(submission.id@)),
        Cell::Text(submission.id@),
        optional_text_cell(submission.author),
        optional_flag_cell(submission.author_premium),
        Cell::Text(submission.title@),
        optional_text_cell(submission.subreddit),
        optional_decoded_cell(submission.subreddit_id),
        optional_integer_cell(submission.subreddit_subscribers),
        Cell::Text(submission.selftext@),
        Cell::Text(submission.permalink@),
        optional_text_cell(submission.domain),
        optional_text_cell(submission.url),
    ]
}

/// The next thirteen columns of a submission's row: its numbers and marks.
pub open spec fn submission_number_cells(submission: Submission) -> Seq<Cell> {
    seq![
        optional_integer_cell(submission.score),
        optional_small_cell(submission.ups),
        optional_small_cell(submission.downs),
        Cell::Integer(submission.created_utc),
        optional_integer_cell(submission.edited_utc),
        optional_integer_cell(submission.retrieved_on),
        flag_cell(submission.is_self),
        flag_cell(submission.over_18),
        optional_flag_cell(submission.spoiler),
        optional_flag_cell(submission.pinned),
        flag_cell(submission.stickied),
        Cell::Integer(submission.num_comments as i64),
        optional_count_cell(submission.num_crossposts),
    ]
}

/// The last sixteen columns of a submission's row: flairs, marks and kinds.
pub open spec fn submission_flair_cells(submission: Submission) -> Seq<Cell> {
    seq![
        optional_text_cell(submission.author_flair_text),
        optional_identifier_cell(submission.author_flair_template_id),
        optional_text_cell(submission.link_flair_text),
        optional_identifier_cell(submission.link_flair_template_id),
        flag_cell(submission.is_created_from_ads_ui),
        flag_cell(submission.is_gallery),
        flag_cell(submission.is_video),
        optional_flag_cell(submission.is_original_content),
        flag_cell(submission.is_reddit_media_domain),
        flag_cell(submission.contest_mode),
        optional_flag_cell(submission.quarantine),
        subreddit_type_cell(submission.subreddit_type),
        suggested_sort_cell(submission.suggested_sort),
        optional_decoded_cell(submission.crosspost_parent),
        post_hint_cell(submission.post_hint),
        removed_by_cell(submission.removed_by_category),
    ]
}

/// The row of a submission, column by column in the order of the insert
/// statement.
pub open spec fn submission_cells(submission: Submission) -> Seq<Cell> {
    submission_text_cells(submission) + submission_number_cells(submission)
        + submission_flair_cells(submission)
}

/// The cells of two runs of values laid end to end are the cells of the
/// first followed by those of the second.
pub proof fn lemma_cells_concat(first: Seq<Value>, second: Seq<Value>)
    ensures
        cells(first + second) == cells(first) + cells(second),
{
    assert(cells(first + second) =~= cells(first) + cells(second));
}

fn integer(number: i64) -> (value: Value)
    ensures
        cell_of(value) == Cell::Integer(number),
{
    Value::Integer(number)
}

fn text(content: &str) -> (value: Value)
    ensures
        cell_of(value) == Cell::Text(content@),
{
    Value::Text(content.to_owned())
}

fn flag(set: bool) -> (value: Value)
    ensures
        cell_of(value) == flag_cell(set),
{
    if set {
        Value::Integer(1)
    } else {
        Value::Integer(0)
    }
}

fn optional_flag(set: Option<bool>) -> (value: Value)
    ensures
        cell_of(value) == optional_flag_cell(set),
{
    match set {
        Some(known) => flag(known),
        None => Value::Null,
    }
}

fn optional_integer(number: Option<i64>) -> (value: Value)
    ensures
        cell_of(value) == optional_integer_cell(number),
{
    match number {
        Some(number) => Value::Integer(number),
        None => Value::Null,
    }
}

fn optional_small(number: Option<i32>) -> (value: Value)
    ensures
        cell_of(value) == optional_small_cell(number),
{
    match number {
        Some(number) => Value::Integer(number as i64),
        None => Value::Null,
    }
}

fn optional_count(number: Option<u32>) -> (value: Value)
    ensures
        cell_of(value) == optional_count_cell(number),
{
    match number {
        Some(number) => Value::Integer(number as i64),
        None => Value::Null,
    }
}

fn optional_text(content: &Option<String>) -> (value: Value)
    ensures
        cell_of(value) == optional_text_cell(*content),
{
    match content {
        Some(content) => text(content.as_str()),
        None => Value::Null,
    }
}

fn subreddit_type_value(kind: Option<SubredditType>) -> (value: Value)
    ensures
        cell_of(value) == subreddit_type_cell(kind),
{
    match kind {
        Some(kind) => text(kind.as_str()),
        None => Value::Null,
    }
}

fn distinguished_value(standing: Option<Distinguished>) -> (value: Value)
    ensures
        cell_of(value) == distinguished_cell(standing),
{
    match standing {
        Some(standing) => text(standing.as_str()),
        None => Value::Null,
    }
}

fn suggested_sort_value(order: Option<SuggestedSort>) -> (value: Value)
    ensures
        cell_of(value) == suggested_sort_cell(order),
{
    match order {
        Some(order) => text(order.as_str()),
        None => Value::Null,
    }
}

fn post_hint_value(hint: Option<PostHint>) -> (value: Value)
    ensures
        cell_of(value) == post_hint_cell(hint),
{
    match hint {
        Some(hint) => text(hint.as_str()),
        None => Value::Null,
    }
}

fn removed_by_value(category: Option<RemovedByCategory>) -> (value: Value)
    ensures
        cell_of(value) == removed_by_cell(category),
{
    match category {
        Some(category) => text(category.as_str()),
        None => Value::Null,
    }
}

fn optional_identifier(identifier: Option<u128>) -> (value: Value)
    ensures
        cell_of(value) == optional_identifier_cell(identifier),
{
    match identifier {
        Some(identifier) => {
            let mut bytes: Vec<u8> = Vec::with_capacity(16);
            let mut i: u32 = 0;
            while i < 16
                invariant
                    i <= 16,
                    bytes@.len() == i,
                    forall|j: int| 0 <= j < i ==> bytes@[j] == identifier_byte(identifier, j),
                decreases 16 - i,
            {
                let shifted: u128 = identifier >> ((8 * (15 - i)) as u128);
                let low: u128 = shifted & 0xff;
                assert(low <= 0xff) by (bit_vector)
                    requires
                        low == shifted & 0xff,
                ;
                bytes.push(low as u8);
                i += 1;
            }
            assert(bytes@ =~= identifier_bytes(identifier));
            Value::Blob(bytes)
        },
        None => Value::Null,
    }
}

fn optional_decoded(reference: &Option<ParentId>) -> (value: Value)
    ensures
        cell_of(value) == optional_decoded_cell(*reference),
{
    match reference {
        Some(reference) => Value::Integer(reference.decoded_parent_id),
        None => Value::Null,
    }
}

fn parent_type(parent: &Option<ParentId>) -> (value: Value)
    ensures
        cell_of(value) == parent_type_cell(*parent),
{
    match parent {
        Some(parent) => match parent.parent_type {
            Some(kind) => Value::Integer(kind as i64),
            None => Value::Null,
        },
        None => Value::Null,
    }
}

fn parent_text(parent: &Option<ParentId>) -> (value: Value)
    ensures
        cell_of(value) == parent_text_cell(*parent),
{
    match parent {
        Some(parent) => text(parent.parent_id.as_str()),
        None => Value::Null,
    }
}

/// Makes the row of a comment. `None` where the comment's identifier is no
/// base-36 number.
pub fn comment_row(comment: &Comment) -> (row: Option<Vec<Value>>)
    ensures
        match row {
            Some(values) => valid_id(comment.id@) && cells(values@) == comment_cells(*comment)
                && values@.len() == COMMENT_COLUMNS,
            None => !valid_id(comment.id@),
        },
{
    let decoded = match from_str_radix(comment.id.as_str(), 36) {
        Some(decoded) => decoded,
        None => {
            return None;
        },
    };
    let values = vec![
        integer(decoded),
        text(comment.id.as_str()),
        optional_text(&comment.permalink),
        text(comment.author.as_str()),
        optional_flag(comment.author_premium),
        text(comment.subreddit.as_str()),
        integer(comment.subreddit_id.decoded_parent_id),
        subreddit_type_value(comment.subreddit_type),
        text(comment.body.as_str()),
        optional_integer(comment.score),
        optional_small(comment.ups),
        optional_small(comment.downs),
        integer(comment.created_utc),
        optional_integer(comment.edited),
        optional_integer(comment.retrieved_on),
        parent_type(&comment.parent_id),
        parent_text(&comment.parent_id),
        optional_decoded(&comment.parent_id),
        distinguished_value(comment.distinguished),
        flag(comment.stickied),
        flag(comment.parent_is_post),
        flag(comment.is_submitter),
        flag(comment.archived),
        flag(comment.locked),
        flag(comment.collapsed),
    ];
    assert(cells(values@) =~= comment_cells(*comment));
    Some(values)
}

fn submission_text_values(submission: &Submission, decoded: i64) -> (values: Vec<Value>)
    requires
        parse_i64(submission.id@, 36) == Some(decoded),
    ensures
        cells(values@) == submission_text_cells(*submission),
{
    let values = vec![
        integer(decoded),
        text(submission.id.as_str()),
        optional_text(&submission.author),
        optional_flag(submission.author_premium),
        text(submission.title.as_str()),
        optional_text(&submission.subreddit),
        optional_decoded(&submission.subreddit_id),
        optional_integer(submission.subreddit_subscribers),
        text(submission.selftext.as_str()),
        text(submission.permalink.as_str()),
        optional_text(&submission.domain),
        optional_text(&submission.url),
    ];
    assert(cells(values@) =~= submission_text_cells(*submission));
    values
}

fn submission_number_values(submission: &Submission) -> (values: Vec<Value>)
    ensures
        cells(values@) == submission_number_cells(*submission),
{
    let values = vec![
        optional_integer(submission.score),
        optional_small(submission.ups),
        optional_small(submission.downs),
        integer(submission.created_utc),
        optional_integer(submission.edited_utc),
        optional_integer(submission.retrieved_on),
        flag(submission.is_self),
        flag(submission.over_18),
        optional_flag(submission.spoiler),
        optional_flag(submission.pinned),
        flag(submission.stickied),
        integer(submission.num_comments as i64),
        optional_count(submission.num_crossposts),
    ];
    assert(cells(values@) =~= submission_number_cells(*submission));
    values
}

fn submission_flair_values(submission: &Submission) -> (values: Vec<Value>)
    ensures
        cells(values@) == submission_flair_cells(*submission),
{
    let values = vec![
        optional_text(&submission.author_flair_text),
        optional_identifier(submission.author_flair_template_id),
        optional_text(&submission.link_flair_text),
        optional_identifier(submission.link_flair_template_id),
        flag(submission.is_created_from_ads_ui),
        flag(submission.is_gallery),
        flag(submission.is_video),
        optional_flag(submission.is_original_content),
        flag(submission.is_reddit_media_domain),
        flag(submission.contest_mode),
        optional_flag(submission.quarantine),
        subreddit_type_value(submission.subreddit_type),
        suggested_sort_value(submission.suggested_sort),
        optional_decoded(&submission.crosspost_parent),
        post_hint_value(submission.post_hint),
        removed_by_value(submission.removed_by_category),
    ];
    assert(cells(values@) =~= submission_flair_cells(*submission));
    values
}

/// Makes the row of a submission. `None` where the submission's identifier
/// is no base-36 number.
pub fn submission_row(submission: &Submission) -> (row: Option<Vec<Value>>)
    ensures
        match row {
            Some(values) => valid_id(submission.id@) && cells(values@) == submission_cells(
                *submission,
            ) && values@.len() == SUBMISSION_COLUMNS,
            None => !valid_id(submission.id@),
        },
{
    let decoded = match from_str_radix(submission.id.as_str(), 36) {
        Some(decoded) => decoded,
        None => {
            return None;
        },
    };
    let mut values = submission_text_values(submission, decoded);
    let mut numbers = submission_number_values(submission);
    let mut flairs = submission_flair_values(submission);
    proof {
        lemma_cells_concat(values@, numbers@);
        lemma_cells_concat(values@ + numbers@, flairs@);
    }
    values.append(&mut numbers);
    values.append(&mut flairs);
    Some(values)
}

} // verus!
