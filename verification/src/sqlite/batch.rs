//! The pending batches: records of each kind wait in a buffer until a whole
//! batch is written with one statement, and writes are counted until the
//! open transaction is due for a commit.

use crate::radix::from_str_radix;
use crate::reddit_types::comment::Comment;
use crate::reddit_types::submission::Submission;
use crate::sqlite::rows::{
    cells, comment_cells, comment_row, lemma_cells_concat, submission_cells, submission_row,
    valid_id, Cell, COMMENT_COLUMNS, SUBMISSION_COLUMNS,
};
use crate::sqlite::statement::{
    insert_statement, insert_text, COMMENT_INSERT, COMMENT_PLACEHOLDERS, SUBMISSION_INSERT,
    SUBMISSION_PLACEHOLDERS,
};
use crate::storage::StoreError;
use rusqlite::types::Value;
use vstd::prelude::*;

verus! {

/// How many written rows make a transaction due for a commit.
pub const TRANSACTION_SIZE: usize = 10000;

/// How many records of one kind make a batch.
pub const BATCH_SIZE: usize = 50;

/// What the store holds and what it has handed on, as plain values.
pub struct StoreState {
    /// The comments that wait to be written, oldest first.
    pub comments: Seq<Comment>,
    /// The submissions that wait to be written, oldest first.
    pub submissions: Seq<Submission>,
    /// How many rows were written since the last commit.
    pub in_transaction: nat,
    /// The comments of the statements that succeeded, oldest first.
    pub written_comments: Seq<Comment>,
    /// The submissions of the statements that succeeded, oldest first.
    pub written_submissions: Seq<Submission>,
    /// How many statements wrote comments.
    pub comment_batches: nat,
    /// How many statements wrote submissions.
    pub submission_batches: nat,
    /// How many commits succeeded.
    pub commits: nat,
}

/// A count grown by `more`, held at the largest count the machine has.
pub open spec fn grown(count: nat, more: nat) -> nat {
    if count + more > usize::MAX {
        usize::MAX as nat
    } else {
        count + more
    }
}

impl StoreState {
    /// The store that has taken nothing yet.
    pub open spec fn empty() -> StoreState {
        StoreState {
            comments: Seq::empty(),
            submissions: Seq::empty(),
            in_transaction: 0,
            written_comments: Seq::empty(),
            written_submissions: Seq::empty(),
            comment_batches: 0,
            submission_batches: 0,
            commits: 0,
        }
    }

    /// Every comment that was taken, written or waiting, oldest first.
    pub open spec fn all_comments(self) -> Seq<Comment> {
        self.written_comments + self.comments
    }

    /// Every submission that was taken, written or waiting, oldest first.
    pub open spec fn all_submissions(self) -> Seq<Submission> {
        self.written_submissions + self.submissions
    }

    /// Whether the open transaction is short of a commit.
    pub open spec fn settled(self) -> bool {
        self.in_transaction < TRANSACTION_SIZE
    }

    /// The state with one more comment waiting.
    pub open spec fn push_comment(self, comment: Comment) -> StoreState {
        StoreState { comments: self.comments.push(comment), ..self }
    }

    /// The state with one more submission waiting.
    pub open spec fn push_submission(self, submission: Submission) -> StoreState {
        StoreState { submissions: self.submissions.push(submission), ..self }
    }

    /// The state after the waiting comments were written. Where none waits
    /// nothing is written.
    pub open spec fn comments_flushed(self) -> StoreState {
        if self.comments.len() == 0 {
            self
        } else {
            StoreState {
                comments: Seq::empty(),
                written_comments: self.written_comments + self.comments,
                in_transaction: grown(self.in_transaction, self.comments.len()),
                comment_batches: self.comment_batches + 1,
                ..self
            }
        }
    }

    /// The state after the waiting submissions were written. Where none
    /// waits nothing is written.
    pub open spec fn submissions_flushed(self) -> StoreState {
        if self.submissions.len() == 0 {
            self
        } else {
            StoreState {
                submissions: Seq::empty(),
                written_submissions: self.written_submissions + self.submissions,
                in_transaction: grown(self.in_transaction, self.submissions.len()),
                submission_batches: self.submission_batches + 1,
                ..self
            }
        }
    }

    /// The state after everything that waits was written.
    pub open spec fn flushed(self) -> StoreState {
        self.comments_flushed().submissions_flushed()
    }

    /// The state after the open transaction was committed.
    pub open spec fn commit_done(self) -> StoreState {
        StoreState { commits: self.commits + 1, ..self }
    }

    /// The state with no row counted as written since the last commit.
    pub open spec fn count_reset(self) -> StoreState {
        StoreState { in_transaction: 0, ..self }
    }

    /// The state after a commit that went through: everything that waited
    /// is written, the transaction is committed and a new one is open.
    pub open spec fn committed(self) -> StoreState {
        self.flushed().commit_done().count_reset()
    }

    /// Whether `after` is where a flush stops that fails at one of its two
    /// statements: the comments are written unless it was their statement
    /// that failed, the submissions are not.
    pub open spec fn flush_stalled(self, after: StoreState) -> bool {
        ||| self.comments.len() > 0 && after == self
        ||| self.submissions.len() > 0 && after == self.comments_flushed()
    }

    /// Whether `after` is where a commit stops that fails at one of its four
    /// statements: what went before the failed statement has taken effect,
    /// the statement itself and what follows it have not.
    pub open spec fn commit_stalled(self, after: StoreState) -> bool {
        ||| self.flush_stalled(after)
        ||| after == self.flushed()
        ||| after == self.flushed().commit_done()
    }

    /// The state after the check that follows every insert: a transaction
    /// that is due is committed.
    pub open spec fn checked(self) -> StoreState {
        if self.in_transaction >= TRANSACTION_SIZE {
            self.committed()
        } else {
            self
        }
    }

    /// The state after a comment was taken and before the check: the comment
    /// waits, unless it filled a batch, which is then written.
    pub open spec fn comment_taken(self, comment: Comment) -> StoreState {
        let pushed = self.push_comment(comment);
        if pushed.comments.len() >= BATCH_SIZE {
            pushed.comments_flushed()
        } else {
            pushed
        }
    }

    /// The state after a submission was taken and before the check.
    pub open spec fn submission_taken(self, submission: Submission) -> StoreState {
        let pushed = self.push_submission(submission);
        if pushed.submissions.len() >= BATCH_SIZE {
            pushed.submissions_flushed()
        } else {
            pushed
        }
    }

    /// The state after an insert of a comment that went through.
    pub open spec fn comment_inserted(self, comment: Comment) -> StoreState {
        self.comment_taken(comment).checked()
    }

    /// The state after an insert of a submission that went through.
    pub open spec fn submission_inserted(self, submission: Submission) -> StoreState {
        self.submission_taken(submission).checked()
    }

    /// Whether the insert of a comment runs no statement: the comment fills
    /// no batch and the transaction is not due.
    pub open spec fn comment_only_buffered(self) -> bool {
        self.comments.len() + 1 < BATCH_SIZE && self.in_transaction < TRANSACTION_SIZE
    }

    /// Whether the insert of a submission runs no statement.
    pub open spec fn submission_only_buffered(self) -> bool {
        self.submissions.len() + 1 < BATCH_SIZE && self.in_transaction < TRANSACTION_SIZE
    }

    /// Whether `after` is where the insert of a comment stops that fails at
    /// a statement: the comment waits in any case.
    pub open spec fn comment_insert_stalled(self, comment: Comment, after: StoreState) -> bool {
        let pushed = self.push_comment(comment);
        ||| pushed.comments.len() >= BATCH_SIZE && after == pushed
        ||| {
            let taken = self.comment_taken(comment);
            taken.in_transaction >= TRANSACTION_SIZE && taken.commit_stalled(after)
        }
    }

    /// Whether `after` is where the insert of a submission stops that fails
    /// at a statement.
    pub open spec fn submission_insert_stalled(
        self,
        submission: Submission,
        after: StoreState,
    ) -> bool {
        let pushed = self.push_submission(submission);
        ||| pushed.submissions.len() >= BATCH_SIZE && after == pushed
        ||| {
            let taken = self.submission_taken(submission);
            taken.in_transaction >= TRANSACTION_SIZE && taken.commit_stalled(after)
        }
    }

    /// The state in which a shutdown leaves the store: each buffer is
    /// written if its statement went through, and a transaction that holds
    /// rows is committed if the commit went through.
    pub open spec fn close_outcome(
        self,
        comments_written: bool,
        submissions_written: bool,
        commit_made: bool,
    ) -> StoreState {
        let first = if comments_written {
            self.comments_flushed()
        } else {
            self
        };
        let second = if submissions_written {
            first.submissions_flushed()
        } else {
            first
        };
        if second.in_transaction > 0 && commit_made {
            second.commit_done().count_reset()
        } else {
            second
        }
    }

    /// The state after a shutdown that went through.
    pub open spec fn closed(self) -> StoreState {
        self.close_outcome(true, true, true)
    }
}

/// The state after the comments of `records` were inserted one after the
/// other, every statement going through.
pub open spec fn comments_inserted(state: StoreState, records: Seq<Comment>) -> StoreState
    decreases records.len(),
{
    if records.len() == 0 {
        state
    } else {
        comments_inserted(state, records.drop_last()).comment_inserted(records.last())
    }
}

/// The state after the submissions of `records` were inserted one after the
/// other, every statement going through.
pub open spec fn submissions_inserted(state: StoreState, records: Seq<Submission>) -> StoreState
    decreases records.len(),
{
    if records.len() == 0 {
        state
    } else {
        submissions_inserted(state, records.drop_last()).submission_inserted(records.last())
    }
}

/// Fewer comments than a batch, inserted into a store in which no comment
/// waits, all wait afterwards: nothing else of the store has changed.
pub proof fn lemma_comments_short_of_a_batch(state: StoreState, records: Seq<Comment>)
    requires
        state.comments.len() == 0,
        state.settled(),
        records.len() < BATCH_SIZE,
    ensures
        comments_inserted(state, records) == (StoreState { comments: records, ..state }),
    decreases records.len(),
{
    if records.len() == 0 {
        assert(state.comments =~= records);
    } else {
        lemma_comments_short_of_a_batch(state, records.drop_last());
        assert(records.drop_last().push(records.last()) =~= records);
    }
}

/// A batch of comments, inserted into a store in which no comment waits,
/// is written with exactly one statement, and no comment waits afterwards.
pub proof fn lemma_comments_full_batch(state: StoreState, records: Seq<Comment>)
    requires
        state.comments.len() == 0,
        state.settled(),
        records.len() == BATCH_SIZE,
    ensures
        comments_inserted(state, records).comments.len() == 0,
        comments_inserted(state, records).written_comments == state.written_comments + records,
        comments_inserted(state, records).comment_batches == state.comment_batches + 1,
{
    lemma_comments_short_of_a_batch(state, records.drop_last());
    assert(records.drop_last().push(records.last()) =~= records);
}

/// Fewer submissions than a batch, inserted into a store in which no
/// submission waits, all wait afterwards: nothing else of the store has
/// changed.
pub proof fn lemma_submissions_short_of_a_batch(state: StoreState, records: Seq<Submission>)
    requires
        state.submissions.len() == 0,
        state.settled(),
        records.len() < BATCH_SIZE,
    ensures
        submissions_inserted(state, records) == (StoreState { submissions: records, ..state }),
    decreases records.len(),
{
    if records.len() == 0 {
        assert(state.submissions =~= records);
    } else {
        lemma_submissions_short_of_a_batch(state, records.drop_last());
        assert(records.drop_last().push(records.last()) =~= records);
    }
}

/// A batch of submissions, inserted into a store in which no submission
/// waits, is written with exactly one statement, and no submission waits
/// afterwards.
pub proof fn lemma_submissions_full_batch(state: StoreState, records: Seq<Submission>)
    requires
        state.submissions.len() == 0,
        state.settled(),
        records.len() == BATCH_SIZE,
    ensures
        submissions_inserted(state, records).submissions.len() == 0,
        submissions_inserted(state, records).written_submissions == state.written_submissions
            + records,
        submissions_inserted(state, records).submission_batches == state.submission_batches + 1,
{
    lemma_submissions_short_of_a_batch(state, records.drop_last());
    assert(records.drop_last().push(records.last()) =~= records);
}

/// An insert that went through leaves the transaction short of a commit.
pub proof fn lemma_insert_settles(state: StoreState, comment: Comment, submission: Submission)
    ensures
        state.comment_inserted(comment).settled(),
        state.submission_inserted(submission).settled(),
{
}

/// No insert loses a record. Whether its statements go through or one of
/// them fails, the record it took is written or waits, behind every record
/// taken before it, and the records of the other kind are the same.
pub proof fn lemma_insert_keeps_records(
    state: StoreState,
    comment: Comment,
    submission: Submission,
    after: StoreState,
)
    ensures
        after == state.comment_inserted(comment) || state.comment_insert_stalled(comment, after)
            ==> after.all_comments() == state.all_comments().push(comment)
            && after.all_submissions() == state.all_submissions(),
        after == state.submission_inserted(submission) || state.submission_insert_stalled(
            submission,
            after,
        ) ==> after.all_submissions() == state.all_submissions().push(submission)
            && after.all_comments() == state.all_comments(),
{
    lemma_flush_keeps_records(state.push_comment(comment));
    lemma_flush_keeps_records(state.comment_taken(comment));
    lemma_flush_keeps_records(state.comment_taken(comment).comments_flushed());
    lemma_flush_keeps_records(state.push_submission(submission));
    lemma_flush_keeps_records(state.submission_taken(submission));
    lemma_flush_keeps_records(state.submission_taken(submission).comments_flushed());
    assert(state.push_comment(comment).all_comments() =~= state.all_comments().push(comment));
    assert(state.push_submission(submission).all_submissions() =~= state.all_submissions().push(
        submission,
    ));
}

/// Writing a buffer loses no record: what waited is written, behind what
/// was written before.
pub proof fn lemma_flush_keeps_records(state: StoreState)
    ensures
        state.comments_flushed().all_comments() == state.all_comments(),
        state.comments_flushed().all_submissions() == state.all_submissions(),
        state.submissions_flushed().all_comments() == state.all_comments(),
        state.submissions_flushed().all_submissions() == state.all_submissions(),
{
    assert(state.comments_flushed().all_comments() =~= state.all_comments());
    assert(state.submissions_flushed().all_submissions() =~= state.all_submissions());
}

/// A shutdown loses no record, whichever of its statements fail: every
/// record that was taken is written or still waits. Where all of them go
/// through nothing waits and no written row is left without a commit.
pub proof fn lemma_close_keeps_records(
    state: StoreState,
    comments_written: bool,
    submissions_written: bool,
    commit_made: bool,
)
    ensures
        state.close_outcome(comments_written, submissions_written, commit_made).all_comments()
            == state.all_comments(),
        state.close_outcome(comments_written, submissions_written, commit_made).all_submissions()
            == state.all_submissions(),
        state.closed().comments.len() == 0,
        state.closed().submissions.len() == 0,
        state.closed().in_transaction == 0,
        state.closed().written_comments == state.all_comments(),
        state.closed().written_submissions == state.all_submissions(),
{
    lemma_flush_keeps_records(state);
    lemma_flush_keeps_records(state.comments_flushed());
    assert(state.closed().written_comments =~= state.all_comments());
    assert(state.closed().written_submissions =~= state.all_submissions());
}

/// The cells of a batch of comments: row after row.
pub open spec fn comment_batch_cells(comments: Seq<Comment>) -> Seq<Cell>
    decreases comments.len(),
{
    if comments.len() == 0 {
        Seq::empty()
    } else {
        comment_batch_cells(comments.drop_last()) + comment_cells(comments.last())
    }
}

/// The cells of a batch of submissions: row after row.
pub open spec fn submission_batch_cells(submissions: Seq<Submission>) -> Seq<Cell>
    decreases submissions.len(),
{
    if submissions.len() == 0 {
        Seq::empty()
    } else {
        submission_batch_cells(submissions.drop_last()) + submission_cells(submissions.last())
    }
}

/// A batch has a cell for each column of each of its records.
pub proof fn lemma_batch_length(comments: Seq<Comment>, submissions: Seq<Submission>)
    ensures
        comment_batch_cells(comments).len() == comments.len() * COMMENT_COLUMNS,
        submission_batch_cells(submissions).len() == submissions.len() * SUBMISSION_COLUMNS,
    decreases comments.len() + submissions.len(),
{
    if comments.len() > 0 {
        lemma_batch_length(comments.drop_last(), submissions);
    } else if submissions.len() > 0 {
        lemma_batch_length(comments, submissions.drop_last());
    }
}

/// One statement with the values of its placeholders.
pub struct Batch {
    pub sql: String,
    pub params: Vec<Value>,
}

/// The pending batches of a store.
pub struct PendingBatches {
    in_transaction: usize,
    comment_buffer: Vec<Comment>,
    submission_buffer: Vec<Submission>,
    written_comments: Ghost<Seq<Comment>>,
    written_submissions: Ghost<Seq<Submission>>,
    comment_batches: Ghost<nat>,
    submission_batches: Ghost<nat>,
    commits: Ghost<nat>,
}

impl View for PendingBatches {
    type V = StoreState;

    closed spec fn view(&self) -> StoreState {
        StoreState {
            comments: self.comment_buffer@,
            submissions: self.submission_buffer@,
            in_transaction: self.in_transaction as nat,
            written_comments: self.written_comments@,
            written_submissions: self.written_submissions@,
            comment_batches: self.comment_batches@,
            submission_batches: self.submission_batches@,
            commits: self.commits@,
        }
    }
}

impl PendingBatches {
    /// Every record that waits has an identifier that is a base-36 number.
    #[verifier::type_invariant]
    spec fn ids_valid(self) -> bool {
        &&& forall|i: int|
            0 <= i < self.comment_buffer@.len() ==> valid_id(
                (#[trigger] self.comment_buffer@[i]).id@,
            )
        &&& forall|i: int|
            0 <= i < self.submission_buffer@.len() ==> valid_id(
                (#[trigger] self.submission_buffer@[i]).id@,
            )
    }

    /// Makes the batches of a store that has taken nothing yet.
    pub fn new() -> (batches: PendingBatches)
        ensures
            batches@ == StoreState::empty(),
    {
        PendingBatches {
            in_transaction: 0,
            comment_buffer: Vec::with_capacity(BATCH_SIZE),
            submission_buffer: Vec::with_capacity(BATCH_SIZE),
            written_comments: Ghost(Seq::empty()),
            written_submissions: Ghost(Seq::empty()),
            comment_batches: Ghost(0),
            submission_batches: Ghost(0),
            commits: Ghost(0),
        }
    }

    /// How many comments wait.
    pub fn comment_buffer_len(&self) -> (len: usize)
        ensures
            len == self@.comments.len(),
    {
        self.comment_buffer.len()
    }

    /// How many submissions wait.
    pub fn submission_buffer_len(&self) -> (len: usize)
        ensures
            len == self@.submissions.len(),
    {
        self.submission_buffer.len()
    }

    /// How many rows were written since the last commit.
    pub fn in_transaction(&self) -> (count: usize)
        ensures
            count == self@.in_transaction,
    {
        self.in_transaction
    }

    /// Takes a comment into its buffer. A comment whose identifier is no
    /// base-36 number is refused and not buffered.
    pub fn push_comment(&mut self, comment: Comment) -> (taken: Result<(), StoreError>)
        ensures
            valid_id(comment.id@) ==> taken is Ok && final(self)@ == old(self)@.push_comment(
                comment,
            ),
            !valid_id(comment.id@) ==> taken == Err::<(), StoreError>(StoreError::InvalidId)
                && final(self)@ == old(self)@,
    {
        proof {
            use_type_invariant(&*self);
        }
        if from_str_radix(comment.id.as_str(), 36).is_none() {
            return Err(StoreError::InvalidId);
        }
        let mut buffer: Vec<Comment> = Vec::new();
        core::mem::swap(&mut buffer, &mut self.comment_buffer);
        buffer.push(comment);
        self.comment_buffer = buffer;
        Ok(())
    }

    /// Takes a submission into its buffer. A submission whose identifier is
    /// no base-36 number is refused and not buffered.
    pub fn push_submission(&mut self, submission: Submission) -> (taken: Result<(), StoreError>)
        ensures
            valid_id(submission.id@) ==> taken is Ok && final(self)@ == old(self)@.push_submission(submission),
            !valid_id(submission.id@) ==> taken == Err::<(), StoreError>(StoreError::InvalidId)
                && final(self)@ == old(self)@,
    {
        proof {
            use_type_invariant(&*self);
        }
        if from_str_radix(submission.id.as_str(), 36).is_none() {
            return Err(StoreError::InvalidId);
        }
        let mut buffer: Vec<Submission> = Vec::new();
        core::mem::swap(&mut buffer, &mut self.submission_buffer);
        buffer.push(submission);
        self.submission_buffer = buffer;
        Ok(())
    }

    /// Whether the waiting comments make a batch.
    pub fn comment_batch_due(&self) -> (due: bool)
        ensures
            due == (self@.comments.len() >= BATCH_SIZE),
    {
        self.comment_buffer.len() >= BATCH_SIZE
    }

    /// Whether the waiting submissions make a batch.
    pub fn submission_batch_due(&self) -> (due: bool)
        ensures
            due == (self@.submissions.len() >= BATCH_SIZE),
    {
        self.submission_buffer.len() >= BATCH_SIZE
    }

    /// Whether the open transaction is due for a commit.
    pub fn commit_due(&self) -> (due: bool)
        ensures
            due == (self@.in_transaction >= TRANSACTION_SIZE),
    {
        self.in_transaction >= TRANSACTION_SIZE
    }

    /// The statement that writes the waiting comments, none where none
    /// waits: one row of placeholders and one row of values for each.
    pub fn comment_statement(&self) -> (statement: Option<Batch>)
        ensures
            match statement {
                Some(batch) => {
                    &&& self@.comments.len() > 0
                    &&& batch.sql@ == insert_text(
                        COMMENT_INSERT@,
                        COMMENT_PLACEHOLDERS@,
                        self@.comments.len(),
                    )
                    &&& cells(batch.params@) == comment_batch_cells(self@.comments)
                    &&& batch.params@.len() == self@.comments.len() * COMMENT_COLUMNS
                },
                None => self@.comments.len() == 0,
            },
    {
        proof {
            use_type_invariant(self);
        }
        let count = self.comment_buffer.len();
        if count == 0 {
            return None;
        }
        let sql = insert_statement(COMMENT_INSERT, COMMENT_PLACEHOLDERS, count);
        let mut params: Vec<Value> = Vec::new();
        let mut i: usize = 0;
        while i < count
            invariant
                i <= count,
                count == self.comment_buffer@.len(),
                forall|k: int|
                    0 <= k < self.comment_buffer@.len() ==> valid_id(
                        (#[trigger] self.comment_buffer@[k]).id@,
                    ),
                cells(params@) == comment_batch_cells(self.comment_buffer@.subrange(0, i as int)),
            decreases count - i,
        {
            let ghost before = self.comment_buffer@.subrange(0, i as int);
            let ghost after = self.comment_buffer@.subrange(0, i + 1);
            assert(valid_id(self.comment_buffer@[i as int].id@));
            let mut row = match comment_row(&self.comment_buffer[i]) {
                Some(row) => row,
                None => Vec::new(),
            };
            proof {
                lemma_cells_concat(params@, row@);
                assert(after.drop_last() =~= before);
                assert(after.last() == self.comment_buffer@[i as int]);
            }
            params.append(&mut row);
            i += 1;
        }
        assert(self.comment_buffer@.subrange(0, count as int) =~= self.comment_buffer@);
        proof {
            lemma_batch_length(self.comment_buffer@, Seq::empty());
        }
        Some(Batch { sql, params })
    }

    /// The statement that writes the waiting submissions, none where none
    /// waits.
    pub fn submission_statement(&self) -> (statement: Option<Batch>)
        ensures
            match statement {
                Some(batch) => {
                    &&& self@.submissions.len() > 0
                    &&& batch.sql@ == insert_text(
                        SUBMISSION_INSERT@,
                        SUBMISSION_PLACEHOLDERS@,
                        self@.submissions.len(),
                    )
                    &&& cells(batch.params@) == submission_batch_cells(self@.submissions)
                    &&& batch.params@.len() == self@.submissions.len() * SUBMISSION_COLUMNS
                },
                None => self@.submissions.len() == 0,
            },
    {
        proof {
            use_type_invariant(self);
        }
        let count = self.submission_buffer.len();
        if count == 0 {
            return None;
        }
        let sql = insert_statement(SUBMISSION_INSERT, SUBMISSION_PLACEHOLDERS, count);
        let mut params: Vec<Value> = Vec::new();
        let mut i: usize = 0;
        while i < count
            invariant
                i <= count,
                count == self.submission_buffer@.len(),
                forall|k: int|
                    0 <= k < self.submission_buffer@.len() ==> valid_id(
                        (#[trigger] self.submission_buffer@[k]).id@,
                    ),
                cells(params@) == submission_batch_cells(
                    self.submission_buffer@.subrange(0, i as int),
                ),
            decreases count - i,
        {
            let ghost before = self.submission_buffer@.subrange(0, i as int);
            let ghost after = self.submission_buffer@.subrange(0, i + 1);
            assert(valid_id(self.submission_buffer@[i as int].id@));
            let mut row = match submission_row(&self.submission_buffer[i]) {
                Some(row) => row,
                None => Vec::new(),
            };
            proof {
                lemma_cells_concat(params@, row@);
                assert(after.drop_last() =~= before);
                assert(after.last() == self.submission_buffer@[i as int]);
            }
            params.append(&mut row);
            i += 1;
        }
        assert(self.submission_buffer@.subrange(0, count as int) =~= self.submission_buffer@);
        proof {
            lemma_batch_length(Seq::empty(), self.submission_buffer@);
        }
        Some(Batch { sql, params })
    }

    /// Records how the statement of the waiting comments ended. After a
    /// success the comments count as written and no longer wait; after a
    /// failure they wait on, and the failure is handed back.
    pub fn settle_comments(&mut self, outcome: Result<usize, String>) -> (settled: Result<
        (),
        StoreError,
    >)
        ensures
            match outcome {
                Ok(_) => settled is Ok && final(self)@ == old(self)@.comments_flushed(),
                Err(said) => settled == Err::<(), StoreError>(StoreError::Sql(said)) && final(self)@ == old(self)@,
            },
    {
        proof {
            use_type_invariant(&*self);
        }
        match outcome {
            Ok(_) => {
                let count = self.comment_buffer.len();
                if count > 0 {
                    self.in_transaction = self.in_transaction.saturating_add(count);
                    self.written_comments = Ghost(self.written_comments@ + self.comment_buffer@);
                    self.comment_batches = Ghost(self.comment_batches@ + 1);
                    let mut buffer: Vec<Comment> = Vec::new();
                    core::mem::swap(&mut buffer, &mut self.comment_buffer);
                    buffer.clear();
                    self.comment_buffer = buffer;
                }
                Ok(())
            },
            Err(said) => Err(StoreError::Sql(said)),
        }
    }

    /// Records how the statement of the waiting submissions ended.
    pub fn settle_submissions(&mut self, outcome: Result<usize, String>) -> (settled: Result<
        (),
        StoreError,
    >)
        ensures
            match outcome {
                Ok(_) => settled is Ok && final(self)@ == old(self)@.submissions_flushed(),
                Err(said) => settled == Err::<(), StoreError>(StoreError::Sql(said)) && final(self)@ == old(self)@,
            },
    {
        proof {
            use_type_invariant(&*self);
        }
        match outcome {
            Ok(_) => {
                let count = self.submission_buffer.len();
                if count > 0 {
                    self.in_transaction = self.in_transaction.saturating_add(count);
                    self.written_submissions = Ghost(
                        self.written_submissions@ + self.submission_buffer@,
                    );
                    self.submission_batches = Ghost(self.submission_batches@ + 1);
                    let mut buffer: Vec<Submission> = Vec::new();
                    core::mem::swap(&mut buffer, &mut self.submission_buffer);
                    buffer.clear();
                    self.submission_buffer = buffer;
                }
                Ok(())
            },
            Err(said) => Err(StoreError::Sql(said)),
        }
    }

    /// Records how the commit of the open transaction ended.
    pub fn settle_commit(&mut self, outcome: Result<(), String>) -> (settled: Result<
        (),
        StoreError,
    >)
        ensures
            match outcome {
                Ok(_) => settled is Ok && final(self)@ == old(self)@.commit_done(),
                Err(said) => settled == Err::<(), StoreError>(StoreError::Sql(said)) && final(self)@ == old(self)@,
            },
    {
        proof {
            use_type_invariant(&*self);
        }
        match outcome {
            Ok(_) => {
                self.commits = Ghost(self.commits@ + 1);
                Ok(())
            },
            Err(said) => Err(StoreError::Sql(said)),
        }
    }

    /// Counts no row as written since the last commit.
    pub fn reset_count(&mut self)
        ensures
            final(self)@ == old(self)@.count_reset(),
    {
        proof {
            use_type_invariant(&*self);
        }
        self.in_transaction = 0;
    }

    /// Records how the opening of a new transaction ended: once it is open
    /// no row counts as written since the last commit.
    pub fn settle_begin(&mut self, outcome: Result<(), String>) -> (settled: Result<
        (),
        StoreError,
    >)
        ensures
            match outcome {
                Ok(_) => settled is Ok && final(self)@ == old(self)@.count_reset(),
                Err(said) => settled == Err::<(), StoreError>(StoreError::Sql(said)) && final(self)@ == old(self)@,
            },
    {
        proof {
            use_type_invariant(&*self);
        }
        match outcome {
            Ok(_) => {
                self.in_transaction = 0;
                Ok(())
            },
            Err(said) => Err(StoreError::Sql(said)),
        }
    }
}

} // verus!
