//! The batched, transactional store of admitted records.

pub mod batch;
pub mod rows;
pub mod schema;
pub mod statement;

use crate::reddit_types::comment::Comment;
use crate::reddit_types::submission::Submission;
use crate::sqlite::batch::{PendingBatches, StoreState};
use crate::sqlite::rows::valid_id;
use crate::sqlite::schema::{setup_statements, BEGIN, COMMIT, OPEN_FLAGS};
use crate::storage::{Storage, StoreError};
use rusqlite::types::Value;
use rusqlite::{Connection, OpenFlags};
use vstd::prelude::*;

verus! {

/// `rusqlite::Connection`, a connection to a database: nothing is known of
/// what it holds.
#[verifier::external_type_specification]
#[verifier::external_body]
pub struct ExConnection(Connection);

/// `rusqlite::Error`, what a database call fails with: nothing is known of
/// what it holds.
#[verifier::external_type_specification]
#[verifier::external_body]
pub struct ExError(rusqlite::Error);

/// Calls `Connection::open_with_flags` with the flags whose bits are given.
/// Whether the database opens is for the file system to say.
#[verifier::external_body]
fn open_with_flags(filename: &str, flags: i32) -> (opened: Result<Connection, rusqlite::Error>) {
    Connection::open_with_flags(filename, OpenFlags::from_bits_truncate(flags))
}

/// Calls `Connection::execute_batch`, which runs the statements of `sql` one
/// after the other and stops at the first that fails. Whether they go
/// through is for the database to say.
#[verifier::external_body]
fn execute_batch(connection: &Connection, sql: &str) -> (done: Result<(), rusqlite::Error>) {
    connection.execute_batch(sql)
}

/// Calls `Connection::prepare_cached` and then `execute` on the statement
/// it gives, with the values bound to the placeholders in order. Whether
/// the statement goes through is for the database to say; on success it
/// says how many rows it changed.
#[verifier::external_body]
fn execute_cached(connection: &Connection, sql: &str, params: &Vec<Value>) -> (changed: Result<
    usize,
    rusqlite::Error,
>) {
    let mut statement = connection.prepare_cached(sql)?;
    statement.execute(rusqlite::params_from_iter(params.iter()))
}

/// Renders a database error with its `to_string`.
#[verifier::external_body]
fn error_text(error: &rusqlite::Error) -> (text: String) {
    error.to_string()
}

/// Keeps what a call gave on success and what the database said on failure.
fn said<T>(outcome: Result<T, rusqlite::Error>) -> (told: Result<T, String>)
    ensures
        match outcome {
            Ok(value) => told == Ok::<T, String>(value),
            Err(_) => told is Err,
        },
{
    match outcome {
        Ok(value) => Ok(value),
        Err(error) => Err(error_text(&error)),
    }
}

fn run(connection: &Connection, sql: &str) -> (done: Result<(), StoreError>)
    ensures
        done matches Err(error) ==> error is Sql,
{
    match execute_batch(connection, sql) {
        Ok(()) => Ok(()),
        Err(error) => Err(StoreError::Sql(error_text(&error))),
    }
}

/// How the three steps of a shutdown ended.
#[derive(Debug)]
pub struct Shutdown {
    /// Writing the comments that waited.
    pub comments: Result<(), StoreError>,
    /// Writing the submissions that waited.
    pub submissions: Result<(), StoreError>,
    /// Committing the transaction, where it held rows.
    pub commit: Result<(), StoreError>,
}

impl Shutdown {
    /// Whether every step went through.
    pub fn is_ok(&self) -> (ok: bool)
        ensures
            ok == (self.comments is Ok && self.submissions is Ok && self.commit is Ok),
    {
        self.comments.is_ok() && self.submissions.is_ok() && self.commit.is_ok()
    }
}

/// The store: a database connection and the batches that wait for it.
pub struct Sqlite {
    connection: Connection,
    batches: PendingBatches,
}

impl View for Sqlite {
    type V = StoreState;

    closed spec fn view(&self) -> StoreState {
        self.batches@
    }
}

impl Sqlite {
    /// The connection over which the store writes.
    pub closed spec fn database(&self) -> Connection {
        self.connection
    }

    /// Opens the database at `filename`, making it if it is not there, sets
    /// it up and opens the first transaction.
    pub fn new(filename: &str, unsafe_pragma: bool, fts: bool) -> (opened: Result<
        Sqlite,
        StoreError,
    >)
        ensures
            match opened {
                Ok(store) => store@ == StoreState::empty(),
                Err(error) => error is Sql,
            },
    {
        match open_with_flags(filename, OPEN_FLAGS) {
            Ok(connection) => Sqlite::with_connection(connection, unsafe_pragma, fts),
            Err(error) => Err(StoreError::Sql(error_text(&error))),
        }
    }

    /// Sets a database up on an open connection: runs the statements of
    /// `setup_statements` in order and stops at the first that fails.
    pub fn with_connection(connection: Connection, unsafe_pragma: bool, fts: bool) -> (opened:
        Result<Sqlite, StoreError>)
        ensures
            match opened {
                Ok(store) => store@ == StoreState::empty() && store.database() == connection,
                Err(error) => error is Sql,
            },
    {
        let statements = setup_statements(unsafe_pragma, fts);
        let mut i: usize = 0;
        while i < statements.len()
            invariant
                i <= statements.len(),
            decreases statements.len() - i,
        {
            if let Err(error) = run(&connection, statements[i]) {
                return Err(error);
            }
            i += 1;
        }
        Ok(Sqlite { connection, batches: PendingBatches::new() })
    }

    /// The connection over which the store writes, for reading what was
    /// stored.
    pub fn connection(&self) -> (connection: &Connection)
        ensures
            *connection == self.database(),
    {
        &self.connection
    }

    /// How many comments wait.
    pub fn comment_buffer_len(&self) -> (len: usize)
        ensures
            len == self@.comments.len(),
    {
        self.batches.comment_buffer_len()
    }

    /// How many submissions wait.
    pub fn submission_buffer_len(&self) -> (len: usize)
        ensures
            len == self@.submissions.len(),
    {
        self.batches.submission_buffer_len()
    }

    /// How many rows were written since the last commit.
    pub fn in_transaction(&self) -> (count: usize)
        ensures
            count == self@.in_transaction,
    {
        self.batches.in_transaction()
    }

    /// Writes the waiting comments with one statement. Where the statement
    /// fails the comments wait on.
    pub fn flush_comments(&mut self) -> (flushed: Result<(), StoreError>)
        ensures
            final(self).database() == old(self).database(),
            match flushed {
                Ok(_) => final(self)@ == old(self)@.comments_flushed(),
                Err(error) => error is Sql && old(self)@.comments.len() > 0 && final(self)@
                    == old(self)@,
            },
    {
        match self.batches.comment_statement() {
            None => Ok(()),
            Some(batch) => {
                let outcome = execute_cached(&self.connection, batch.sql.as_str(), &batch.params);
                self.batches.settle_comments(said(outcome))
            },
        }
    }

    /// Writes the waiting submissions with one statement. Where the
    /// statement fails the submissions wait on.
    pub fn flush_submissions(&mut self) -> (flushed: Result<(), StoreError>)
        ensures
            final(self).database() == old(self).database(),
            match flushed {
                Ok(_) => final(self)@ == old(self)@.submissions_flushed(),
                Err(error) => error is Sql && old(self)@.submissions.len() > 0 && final(self)@
                    == old(self)@,
            },
    {
        match self.batches.submission_statement() {
            None => Ok(()),
            Some(batch) => {
                let outcome = execute_cached(&self.connection, batch.sql.as_str(), &batch.params);
                self.batches.settle_submissions(said(outcome))
            },
        }
    }

    /// Writes everything that waits: the comments, then the submissions. It
    /// stops at the first statement that fails.
    pub fn flush(&mut self) -> (flushed: Result<(), StoreError>)
        ensures
            final(self).database() == old(self).database(),
            match flushed {
                Ok(_) => final(self)@ == old(self)@.flushed(),
                Err(error) => error is Sql && old(self)@.flush_stalled(final(self)@),
            },
    {
        if let Err(error) = self.flush_comments() {
            return Err(error);
        }
        self.flush_submissions()
    }

    /// Writes everything that waits, commits the open transaction and opens
    /// a new one. It stops at the first statement that fails.
    pub fn commit(&mut self) -> (committed: Result<(), StoreError>)
        ensures
            final(self).database() == old(self).database(),
            match committed {
                Ok(_) => final(self)@ == old(self)@.committed(),
                Err(error) => error is Sql && old(self)@.commit_stalled(final(self)@),
            },
    {
        if let Err(error) = self.flush() {
            return Err(error);
        }
        let outcome = execute_batch(&self.connection, COMMIT);
        if let Err(error) = self.batches.settle_commit(said(outcome)) {
            return Err(error);
        }
        let outcome = execute_batch(&self.connection, BEGIN);
        self.batches.settle_begin(said(outcome))
    }

    /// Commits the open transaction if it is due.
    fn check_transaction(&mut self) -> (checked: Result<(), StoreError>)
        ensures
            final(self).database() == old(self).database(),
            match checked {
                Ok(_) => final(self)@ == old(self)@.checked(),
                Err(error) => error is Sql && old(self)@.in_transaction
                    >= crate::sqlite::batch::TRANSACTION_SIZE && old(self)@.commit_stalled(
                    final(self)@,
                ),
            },
    {
        if self.batches.commit_due() {
            self.commit()
        } else {
            Ok(())
        }
    }

    /// Shuts the store down: writes what waits of either kind and, where the
    /// transaction holds rows, commits it. A buffer whose statement fails is
    /// left as it is and the shutdown goes on. No transaction is opened
    /// after the commit: the store is not to be used again.
    pub fn close(&mut self) -> (shutdown: Shutdown)
        ensures
            final(self).database() == old(self).database(),
            final(self)@ == old(self)@.close_outcome(
                shutdown.comments is Ok,
                shutdown.submissions is Ok,
                shutdown.commit is Ok,
            ),
            old(self)@.comments.len() == 0 ==> shutdown.comments is Ok,
            old(self)@.submissions.len() == 0 ==> shutdown.submissions is Ok,
            old(self)@.close_outcome(
                shutdown.comments is Ok,
                shutdown.submissions is Ok,
                false,
            ).in_transaction == 0 ==> shutdown.commit is Ok,
            shutdown.comments matches Err(error) ==> error is Sql,
            shutdown.submissions matches Err(error) ==> error is Sql,
            shutdown.commit matches Err(error) ==> error is Sql,
    {
        let comments = self.flush_comments();
        let submissions = self.flush_submissions();
        let mut commit: Result<(), StoreError> = Ok(());
        if self.batches.in_transaction() > 0 {
            let outcome = execute_batch(&self.connection, COMMIT);
            commit = self.batches.settle_commit(said(outcome));
            if commit.is_ok() {
                self.batches.reset_count();
            }
        }
        Shutdown { comments, submissions, commit }
    }
}

impl Storage for Sqlite {
    /// Takes a comment. One whose identifier is no base-36 number is
    /// refused at once and not buffered. A comment that fills a batch has
    /// the batch written, and a transaction that is due is committed.
    fn insert_comment(&mut self, comment: Comment) -> (inserted: Result<usize, StoreError>)
        ensures
            final(self).database() == old(self).database(),
            !valid_id(comment.id@) ==> inserted == Err::<usize, StoreError>(StoreError::InvalidId)
                && final(self)@ == old(self)@,
            valid_id(comment.id@) ==> match inserted {
                Ok(count) => count == 0 && final(self)@ == old(self)@.comment_inserted(comment),
                Err(error) => error is Sql && old(self)@.comment_insert_stalled(
                    comment,
                    final(self)@,
                ),
            },
            valid_id(comment.id@) && old(self)@.comment_only_buffered() ==> inserted is Ok,
    {
        if let Err(error) = self.batches.push_comment(comment) {
            return Err(error);
        }
        if self.batches.comment_batch_due() {
            if let Err(error) = self.flush_comments() {
                return Err(error);
            }
        }
        if let Err(error) = self.check_transaction() {
            return Err(error);
        }
        Ok(0)
    }

    /// Takes a submission, as `insert_comment` takes a comment.
    fn insert_submission(&mut self, submission: Submission) -> (inserted: Result<
        usize,
        StoreError,
    >)
        ensures
            final(self).database() == old(self).database(),
            !valid_id(submission.id@) ==> inserted == Err::<usize, StoreError>(
                StoreError::InvalidId,
            ) && final(self)@ == old(self)@,
            valid_id(submission.id@) ==> match inserted {
                Ok(count) => count == 0 && final(self)@ == old(self)@.submission_inserted(
                    submission,
                ),
                Err(error) => error is Sql && old(self)@.submission_insert_stalled(
                    submission,
                    final(self)@,
                ),
            },
            valid_id(submission.id@) && old(self)@.submission_only_buffered() ==> inserted is Ok,
    {
        if let Err(error) = self.batches.push_submission(submission) {
            return Err(error);
        }
        if self.batches.submission_batch_due() {
            if let Err(error) = self.flush_submissions() {
                return Err(error);
            }
        }
        if let Err(error) = self.check_transaction() {
            return Err(error);
        }
        Ok(0)
    }
}

} // verus!
