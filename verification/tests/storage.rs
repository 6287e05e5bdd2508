use pushshift_importer::reddit_types::comment::Comment;
use pushshift_importer::reddit_types::submission::Submission;
use pushshift_importer::reddit_types::ParentId;
use pushshift_importer::sqlite::Sqlite;
use pushshift_importer::storage::{Storable, Storage, StoreError};
use rusqlite::Connection;

/// A store that keeps the identifiers it was handed and answers with how
/// many it holds, or refuses everything.
struct Recorder {
    comments: Vec<String>,
    submissions: Vec<String>,
    refuse: bool,
}

impl Storage for Recorder {
    fn insert_comment(&mut self, comment: Comment) -> Result<usize, StoreError> {
        if self.refuse {
            return Err(StoreError::Sql("refused".to_string()));
        }
        self.comments.push(comment.id);
        Ok(self.comments.len())
    }

    fn insert_submission(&mut self, submission: Submission) -> Result<usize, StoreError> {
        if self.refuse {
            return Err(StoreError::InvalidId);
        }
        self.submissions.push(submission.id);
        Ok(self.submissions.len() + 100)
    }
}

fn comment(id: &str) -> Comment {
    Comment {
        author: "alice".to_string(),
        body: "a body".to_string(),
        subreddit: "rust".to_string(),
        subreddit_id: ParentId::from_fullname("t5_2s7lj").unwrap(),
        subreddit_type: None,
        author_flair_text: None,
        author_flair_template_id: None,
        author_premium: None,
        author_flair_css_class: None,
        score: Some(1),
        ups: None,
        downs: None,
        created_utc: 1700000000,
        retrieved_on: None,
        link_id: ParentId::from_fullname("t3_zz").unwrap(),
        id: id.to_string(),
        permalink: None,
        parent_id: None,
        parent_is_post: false,
        stickied: false,
        is_submitter: false,
        distinguished: None,
        edited: None,
        archived: false,
        controversiality: None,
        locked: false,
        collapsed: false,
    }
}

fn submission(id: &str) -> Submission {
    Submission {
        author: None,
        author_premium: None,
        url: None,
        permalink: "/r/rust/zz".to_string(),
        score: None,
        title: "a title".to_string(),
        selftext: String::new(),
        domain: None,
        author_flair_text: None,
        author_flair_template_id: None,
        subreddit: None,
        subreddit_id: None,
        id: id.to_string(),
        num_comments: 0,
        over_18: false,
        is_self: true,
        link_flair_template_id: None,
        link_flair_text: None,
        spoiler: None,
        pinned: None,
        stickied: false,
        num_crossposts: None,
        ups: None,
        downs: None,
        created_utc: 1600000000,
        edited_utc: None,
        retrieved_on: None,
        is_created_from_ads_ui: false,
        is_gallery: false,
        is_video: false,
        is_original_content: None,
        is_reddit_media_domain: false,
        url_overridden_by_dest: None,
        quarantine: None,
        subreddit_subscribers: None,
        contest_mode: false,
        suggested_sort: None,
        crosspost_parent: None,
        post_hint: None,
        removed_by_category: None,
        subreddit_type: None,
        wls: None,
        whitelist_status: None,
    }
}

#[test]
fn store_hands_the_record_to_the_store_of_its_kind() {
    let mut recorder = Recorder { comments: vec![], submissions: vec![], refuse: false };
    assert_eq!(comment("1a").store(&mut recorder).unwrap(), 1);
    assert_eq!(comment("1b").store(&mut recorder).unwrap(), 2);
    assert_eq!(submission("zz").store(&mut recorder).unwrap(), 101);
    assert_eq!(recorder.comments, vec!["1a".to_string(), "1b".to_string()]);
    assert_eq!(recorder.submissions, vec!["zz".to_string()]);
}

#[test]
fn store_hands_back_what_the_store_answers() {
    let mut recorder = Recorder { comments: vec![], submissions: vec![], refuse: true };
    match comment("1a").store(&mut recorder) {
        Err(StoreError::Sql(said)) => assert_eq!(said, "refused"),
        other => panic!("unexpected {:?}", other),
    }
    assert!(matches!(submission("zz").store(&mut recorder), Err(StoreError::InvalidId)));
    assert!(recorder.comments.is_empty());
    assert!(recorder.submissions.is_empty());
}

#[test]
fn the_store_writes_over_the_connection_it_was_given() {
    let connection = Connection::open_in_memory().unwrap();
    connection.execute_batch("CREATE TABLE marker (value INTEGER); INSERT INTO marker VALUES (42)").unwrap();
    let mut store = Sqlite::with_connection(connection, false, false).unwrap();
    let value: i64 =
        store.connection().query_row("SELECT value FROM marker", [], |row| row.get(0)).unwrap();
    assert_eq!(value, 42);
    comment("1a").store(&mut store).unwrap();
    store.commit().unwrap();
    let rows: i64 =
        store.connection().query_row("SELECT COUNT(*) FROM comment", [], |row| row.get(0)).unwrap();
    assert_eq!(rows, 1);
}
