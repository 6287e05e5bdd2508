//! The statements that set a database up.

use vstd::prelude::*;

verus! {

/// The settings of a database that is to survive a crash.
pub const PRAGMA: &'static str = "PRAGMA journal_mode=WAL;
PRAGMA recursive_triggers = ON;
PRAGMA synchronous = NORMAL;
PRAGMA max_page_count = 4294967292;
PRAGMA page_size = 8192;";

/// The settings that trade durability for speed: a crash may corrupt the
/// database.
pub const UNSAFE_PRAGMA: &'static str = "PRAGMA journal_mode=MEMORY;
PRAGMA cache_size=-8000000;
PRAGMA temp_store = memory;
PRAGMA recursive_triggers = ON;
PRAGMA synchronous = OFF;
PRAGMA max_page_count = 4294967292;
PRAGMA page_size = 8192;
PRAGMA locking_mode=EXCLUSIVE;";

/// The table of comments. No two rows share a `reddit_id`.
pub const SETUP_COMMENTS: &'static str = "CREATE TABLE IF NOT EXISTS comment (
    id INTEGER PRIMARY KEY,
    decoded_reddit_id INTEGER NOT NULL,
    reddit_id TEXT NOT NULL UNIQUE,
    permalink TEXT,
    author TEXT NOT NULL,
    author_premium INTEGER,
    subreddit TEXT NOT NULL,
    decoded_subreddit_id INTEGER NOT NULL,
    subreddit_type TEXT,
    body TEXT NOT NULL,
    score INTEGER,
    ups INTEGER,
    downs INTEGER,
    created_utc INTEGER NOT NULL,
    edited_utc INTEGER,
    retrieved_on INTEGER,
    parent_type INTEGER,
    parent_id TEXT,
    decoded_parent_id INTEGER,
    distinguished TEXT,
    stickied INTEGER NOT NULL,
    parent_is_post INTEGER NOT NULL,
    is_submitter INTEGER NOT NULL,
    archived INTEGER NOT NULL,
    locked INTEGER NOT NULL,
    collapsed INTEGER NOT NULL
);
CREATE INDEX IF NOT EXISTS comment_decoded_reddit_id ON comment (decoded_reddit_id);
CREATE INDEX IF NOT EXISTS comment_author ON comment (author);
CREATE INDEX IF NOT EXISTS comment_subreddit ON comment (subreddit);";

/// The text index over comments, kept in step with the table.
pub const COMMENTS_FTS: &'static str = "CREATE VIRTUAL TABLE IF NOT EXISTS comment_fts USING fts5(
    author, subreddit, body, content='comment', content_rowid='id'
);
CREATE TRIGGER IF NOT EXISTS comment_fts_insert AFTER INSERT ON comment BEGIN
    INSERT INTO comment_fts (rowid, author, subreddit, body)
    VALUES (new.id, new.author, new.subreddit, new.body);
END;
CREATE TRIGGER IF NOT EXISTS comment_fts_delete AFTER DELETE ON comment BEGIN
    INSERT INTO comment_fts (comment_fts, rowid, author, subreddit, body)
    VALUES ('delete', old.id, old.author, old.subreddit, old.body);
END;";

/// The table of submissions. No two rows share a `reddit_id`.
pub const SETUP_SUBMISSIONS: &'static str = "CREATE TABLE IF NOT EXISTS submission (
    id INTEGER PRIMARY KEY,
    decoded_reddit_id INTEGER NOT NULL,
    reddit_id TEXT NOT NULL UNIQUE,
    author TEXT,
    author_premium INTEGER,
    title TEXT NOT NULL,
    subreddit TEXT,
    decoded_subreddit_id INTEGER,
    subreddit_subscribers INTEGER,
    selftext TEXT NOT NULL,
    permalink TEXT NOT NULL,
    domain TEXT,
    url TEXT,
    score INTEGER,
    ups INTEGER,
    downs INTEGER,
    created_utc INTEGER NOT NULL,
    edited_utc INTEGER,
    retrieved_on INTEGER,
    is_self INTEGER NOT NULL,
    over_18 INTEGER NOT NULL,
    spoiler INTEGER,
    pinned INTEGER,
    stickied INTEGER NOT NULL,
    num_comments INTEGER NOT NULL,
    num_crossposts INTEGER,
    author_flair_text TEXT,
    author_flair_template_id BLOB,
    link_flair_text TEXT,
    link_flair_template_id BLOB,
    is_created_from_ads_ui INTEGER NOT NULL,
    is_gallery INTEGER NOT NULL,
    is_video INTEGER NOT NULL,
    is_original_content INTEGER,
    is_reddit_media_domain INTEGER NOT NULL,
    contest_mode INTEGER NOT NULL,
    quarantine INTEGER,
    subreddit_type TEXT,
    suggested_sort TEXT,
    decoded_crosspost_parent_id INTEGER,
    post_hint TEXT,
    removed_by_category TEXT
);
CREATE INDEX IF NOT EXISTS submission_decoded_reddit_id ON submission (decoded_reddit_id);
CREATE INDEX IF NOT EXISTS submission_author ON submission (author);
CREATE INDEX IF NOT EXISTS submission_subreddit ON submission (subreddit);";

/// The text index over submissions, kept in step with the table.
pub const SUBMISSIONS_FTS: &'static str = "CREATE VIRTUAL TABLE IF NOT EXISTS submission_fts USING fts5(
    author, subreddit, title, selftext, content='submission', content_rowid='id'
);
CREATE TRIGGER IF NOT EXISTS submission_fts_insert AFTER INSERT ON submission BEGIN
    INSERT INTO submission_fts (rowid, author, subreddit, title, selftext)
    VALUES (new.id, new.author, new.subreddit, new.title, new.selftext);
END;
CREATE TRIGGER IF NOT EXISTS submission_fts_delete AFTER DELETE ON submission BEGIN
    INSERT INTO submission_fts (submission_fts, rowid, author, subreddit, title, selftext)
    VALUES ('delete', old.id, old.author, old.subreddit, old.title, old.selftext);
END;";

/// Opens a transaction that takes its locks when they are first needed.
pub const BEGIN: &'static str = "BEGIN DEFERRED";

/// Commits the open transaction.
pub const COMMIT: &'static str = "COMMIT";

/// The way a database file is opened: for reading and writing, made if it
/// is not there, without a mutex of its own.
pub const OPEN_FLAGS: i32 = 0x8006;

/// The statements that set a database up, in the order in which they are
/// run: the settings, the two tables, the text indexes where they are asked
/// for, and the opening of the first transaction.
pub open spec fn setup_script(unsafe_pragma: bool, fts: bool) -> Seq<Seq<char>> {
    let settings = if unsafe_pragma {
        UNSAFE_PRAGMA@
    } else {
        PRAGMA@
    };
    let tables = seq![settings, SETUP_COMMENTS@, SETUP_SUBMISSIONS@];
    let indexes = if fts {
        seq![COMMENTS_FTS@, SUBMISSIONS_FTS@]
    } else {
        Seq::empty()
    };
    tables + indexes + seq![BEGIN@]
}

/// The texts of a run of statements.
pub open spec fn texts(statements: Seq<&'static str>) -> Seq<Seq<char>> {
    Seq::new(statements.len(), |i: int| statements[i]@)
}

/// Lists the statements that set a database up. The settings of the unsafe
/// mode are used only where it is asked for.
pub fn setup_statements(unsafe_pragma: bool, fts: bool) -> (statements: Vec<&'static str>)
    ensures
        texts(statements@) == setup_script(unsafe_pragma, fts),
{
    let mut statements: Vec<&'static str> = Vec::new();
    if unsafe_pragma {
        statements.push(UNSAFE_PRAGMA);
    } else {
        statements.push(PRAGMA);
    }
    statements.push(SETUP_COMMENTS);
    statements.push(SETUP_SUBMISSIONS);
    if fts {
        statements.push(COMMENTS_FTS);
        statements.push(SUBMISSIONS_FTS);
    }
    statements.push(BEGIN);
    assert(texts(statements@) =~= setup_script(unsafe_pragma, fts));
    statements
}

} // verus!
