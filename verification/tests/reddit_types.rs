use pushshift_importer::deser::{
    deserialize_optional_time, deserialize_score, deserialize_time, RawValue,
};
use pushshift_importer::filter::{Filter, Filterable};
use pushshift_importer::reddit_types::comment::{Comment, Distinguished};
use pushshift_importer::reddit_types::submission::{
    PostHint, RemovedByCategory, Submission, SuggestedSort,
};
use pushshift_importer::reddit_types::{IdStringOrInt, ParentId, ParentIdError, SubredditType};
use serde_json::Value;

fn raw(value: Option<&Value>) -> RawValue {
    match value {
        None | Some(Value::Null) => RawValue::Null,
        Some(Value::Bool(flag)) => RawValue::Bool(*flag),
        Some(Value::Number(number)) => match (number.as_i64(), number.as_u64()) {
            (Some(number), _) => RawValue::Integer(number),
            (None, Some(number)) => RawValue::Unsigned(number),
            _ => RawValue::Other,
        },
        Some(Value::String(text)) => RawValue::Text(text.clone()),
        Some(_) => RawValue::Other,
    }
}

fn reference(value: Option<&Value>) -> Result<Option<ParentId>, ParentIdError> {
    let raw = match value {
        Some(Value::String(text)) => IdStringOrInt::Text(text.clone()),
        Some(Value::Number(number)) => IdStringOrInt::Int(number.as_i64().unwrap()),
        _ => return Ok(None),
    };
    ParentId::deserialize(raw).map(Some)
}

fn text(json: &Value, name: &str) -> Option<String> {
    json.get(name).and_then(|value| value.as_str()).map(|text| text.to_string())
}

fn flag(json: &Value, name: &str) -> bool {
    json.get(name).and_then(|value| value.as_bool()).unwrap_or_default()
}

/// Reads a comment out of one parsed line, field by field.
fn comment_from_json(json: &Value) -> Result<Comment, String> {
    let missing = |name: &str| format!("missing field `{}`", name);
    let invalid = |err: ParentIdError| err.expected().to_string();
    Ok(Comment {
        author: text(json, "author").ok_or(missing("author"))?,
        body: text(json, "body").ok_or(missing("body"))?,
        subreddit: text(json, "subreddit").ok_or(missing("subreddit"))?,
        subreddit_id: reference(json.get("subreddit_id"))
            .map_err(invalid)?
            .ok_or(missing("subreddit_id"))?,
        subreddit_type: match text(json, "subreddit_type").as_deref() {
            None => None,
            Some("public") => Some(SubredditType::Public),
            Some("restricted") => Some(SubredditType::Restricted),
            Some("user") => Some(SubredditType::User),
            Some("archived") => Some(SubredditType::Archived),
            Some("gold_restricted") => Some(SubredditType::GoldRestricted),
            Some("gold_only") => Some(SubredditType::GoldOnly),
            Some("private") => Some(SubredditType::Private),
            Some(other) => return Err(format!("unknown variant `{}`", other)),
        },
        author_flair_text: text(json, "author_flair_text"),
        author_flair_template_id: None,
        author_premium: json.get("author_premium").and_then(|value| value.as_bool()),
        author_flair_css_class: text(json, "author_flair_css_class"),
        score: deserialize_score(&raw(json.get("score"))).map_err(|err| err.message().to_string())?,
        ups: None,
        downs: None,
        created_utc: deserialize_time(&raw(json.get("created_utc")))
            .map_err(|err| err.message().to_string())?,
        retrieved_on: json.get("retrieved_on").and_then(|value| value.as_i64()),
        link_id: reference(json.get("link_id")).map_err(invalid)?.ok_or(missing("link_id"))?,
        id: text(json, "id").ok_or(missing("id"))?,
        permalink: text(json, "permalink"),
        parent_id: reference(json.get("parent_id")).map_err(invalid)?,
        parent_is_post: flag(json, "parent_is_post"),
        stickied: flag(json, "stickied"),
        is_submitter: flag(json, "is_submitter"),
        distinguished: None,
        edited: deserialize_optional_time(&raw(json.get("edited")))
            .map_err(|err| err.message().to_string())?,
        archived: flag(json, "archived"),
        controversiality: json
            .get("controversiality")
            .and_then(|value| value.as_i64())
            .map(|value| value as i32),
        locked: flag(json, "locked"),
        collapsed: flag(json, "collapsed"),
    })
}

#[test]
fn comment_test_parent_id() {
    let comment_str = r#"{"all_awardings": [], "archived": false, "associated_award": null, "author": "StrongRespect6974", "author_flair_background_color": null, "author_flair_css_class": null, "author_flair_richtext": [], "author_flair_template_id": null, "author_flair_text": null, "author_flair_text_color": null, "author_flair_type": "text", "author_fullname": "t2_jnfunod9c", "author_is_blocked": false, "author_patreon_flair": false, "author_premium": false, "body": "\\ud83d\\ude06\\ud83d\\ude02", "body_sha1": "d6ad3ad001eb24bacb4c9f93e8c46e92f5182f74", "can_gild": false, "collapsed": false, "collapsed_because_crowd_control": null, "collapsed_reason": null, "collapsed_reason_code": null, "comment_type": null, "controversiality": 0, "created_utc": 1712016498, "distinguished": null, "edited": false, "gilded": 0, "gildings": {}, "id": "kxmi7jz", "is_submitter": true, "link_id": "t3_1btio9w", "locked": false, "no_follow": true, "parent_id": 45568804275, "permalink": "/r/SammysMakeup/comments/1btio9w/can_you_say_idiot/kxmi7jz/", "retrieved_on": 1712016632, "score": 1, "score_hidden": false, "send_replies": true, "stickied": false, "subreddit": "SammysMakeup", "subreddit_id": "t5_ar9yc0", "subreddit_name_prefixed": "r/SammysMakeup", "subreddit_type": "restricted", "top_awarded_type": null, "total_awards_received": 0, "treatment_tags": [], "unrepliable_reason": null, "updated_on": 1712016633}"#;
    let json: Value = serde_json::from_str(comment_str).expect("deserialization");
    let comment: Comment = comment_from_json(&json).expect("deserialization");

    let parent = comment.parent_id.as_ref().unwrap();
    assert_eq!(parent.parent_type, None);
    assert_eq!(parent.parent_id, "kxmhmer");
    assert_eq!(parent.decoded_parent_id, 45568804275);
    assert_eq!(comment.link_id.parent_type, Some(3));
    assert_eq!(comment.link_id.parent_id, "1btio9w");
    assert_eq!(comment.link_id.decoded_parent_id, 2891490404);
    assert_eq!(comment.subreddit_id.parent_type, Some(5));
    assert_eq!(comment.subreddit_id.parent_id, "ar9yc0");
    assert_eq!(comment.subreddit_id.decoded_parent_id, 650475792);
    assert_eq!(comment.subreddit_type, Some(SubredditType::Restricted));
    assert_eq!(comment.author, "StrongRespect6974");
    assert_eq!(comment.id, "kxmi7jz");
    assert_eq!(comment.score, Some(1));
    assert_eq!(comment.created_utc, 1712016498);
    assert_eq!(comment.retrieved_on, Some(1712016632));
    assert_eq!(comment.edited, None);
    assert!(comment.is_submitter);
    assert!(!comment.stickied);
}

#[test]
fn a_comment_with_a_malformed_reference_is_refused() {
    let json: Value = serde_json::from_str(
        "{\"author\": \"a\", \"body\": \"b\", \"subreddit\": \"s\", \"subreddit_id\": \"t5_ar9yc0\", \"score\": 1, \"created_utc\": 5, \"link_id\": \"t3_1btio9w!\", \"id\": \"1\", \"edited\": false}",
    )
    .unwrap();
    assert_eq!(comment_from_json(&json).err(), Some("a valid base 36 number".to_string()));
    let json: Value = serde_json::from_str(
        "{\"author\": \"a\", \"body\": \"b\", \"subreddit\": \"s\", \"subreddit_id\": \"ar9yc0\", \"score\": 1, \"created_utc\": 5, \"link_id\": \"t3_1btio9w\", \"id\": \"1\", \"edited\": false}",
    )
    .unwrap();
    assert_eq!(comment_from_json(&json).err(), Some("a valid parent id".to_string()));
    let json: Value = serde_json::from_str(
        "{\"author\": \"a\", \"body\": \"b\", \"subreddit\": \"s\", \"subreddit_id\": \"t5_ar9yc0\", \"score\": [1], \"created_utc\": 5, \"link_id\": \"t3_1btio9w\", \"id\": \"1\", \"edited\": false}",
    )
    .unwrap();
    assert_eq!(comment_from_json(&json).err(), Some("invalid timestamp value".to_string()));
}

#[test]
fn fullname_decodes_to_type_text_and_number() {
    let parent = ParentId::from_fullname("t3_1a").unwrap();
    assert_eq!(parent.parent_type, Some(3));
    assert_eq!(parent.parent_id, "1a");
    assert_eq!(parent.decoded_parent_id, 46);
}

#[test]
fn bare_integer_decodes_to_itself() {
    let parent = ParentId::from_int(46);
    assert_eq!(parent.parent_type, None);
    assert_eq!(parent.parent_id, "1a");
    assert_eq!(parent.decoded_parent_id, 46);

    let parent = ParentId::deserialize(IdStringOrInt::Int(0)).unwrap();
    assert_eq!(parent.parent_type, None);
    assert_eq!(parent.parent_id, "0");
    assert_eq!(parent.decoded_parent_id, 0);

    let parent = ParentId::from_int(-1);
    assert_eq!(parent.parent_type, None);
    assert_eq!(parent.parent_id, "3w5e11264sgsf");
    assert_eq!(parent.decoded_parent_id, -1);
}

#[test]
fn fullname_round_trip() {
    for kind in 0u8..10 {
        for number in [0i64, 1, 46, 2963997488, i64::MAX] {
            let text = format!("t{}_{}", kind, ParentId::from_int(number).parent_id);
            let parent = ParentId::from_fullname(&text).unwrap();
            assert_eq!(parent.parent_type, Some(kind));
            assert_eq!(parent.decoded_parent_id, number);
            assert_eq!(parent.parent_id, ParentId::from_int(number).parent_id);
        }
    }
}

#[test]
fn fullname_is_parted_at_its_first_separator() {
    assert_eq!(
        ParentId::from_fullname("t3_1a_b").err(),
        Some(ParentIdError::InvalidBase36)
    );
    assert_eq!(
        ParentId::from_fullname("t_3_1a").err(),
        Some(ParentIdError::InvalidParentId)
    );
}

#[test]
fn fullname_kind_is_the_second_character() {
    let parent = ParentId::from_fullname("x7_zz").unwrap();
    assert_eq!(parent.parent_type, Some(7));
    assert_eq!(parent.decoded_parent_id, 35 * 36 + 35);
    let parent = ParentId::from_fullname("t1zzz_10").unwrap();
    assert_eq!(parent.parent_type, Some(1));
    assert_eq!(parent.parent_id, "10");
    assert_eq!(parent.decoded_parent_id, 36);
}

#[test]
fn fullname_errors() {
    let invalid = Some(ParentIdError::InvalidParentId);
    assert_eq!(ParentId::from_fullname("").err(), invalid);
    assert_eq!(ParentId::from_fullname("1a").err(), invalid);
    assert_eq!(ParentId::from_fullname("t31a").err(), invalid);
    assert_eq!(ParentId::from_fullname("_1a").err(), invalid);
    assert_eq!(ParentId::from_fullname("t_1a").err(), invalid);
    assert_eq!(ParentId::from_fullname("tx_1a").err(), invalid);
    assert_eq!(ParentId::from_fullname("t\u{663}_1a").err(), invalid);
    let payload = Some(ParentIdError::InvalidBase36);
    assert_eq!(ParentId::from_fullname("t3_").err(), payload);
    assert_eq!(ParentId::from_fullname("t3_1a!").err(), payload);
    assert_eq!(ParentId::from_fullname("t3_1y2p0ij32e8e8").err(), payload);
    assert_eq!(
        ParentId::deserialize(IdStringOrInt::Text("t3_ x".to_string())).err(),
        payload
    );
    // A malformed kind is reported before a malformed number.
    assert_eq!(ParentId::from_fullname("tx_!").err(), invalid);
}

#[test]
fn parent_id_error_texts() {
    assert_eq!(ParentIdError::InvalidParentId.expected(), "a valid parent id");
    assert_eq!(ParentIdError::InvalidBase36.expected(), "a valid base 36 number");
}

#[test]
fn stored_names() {
    assert_eq!(SubredditType::Public.as_str(), "public");
    assert_eq!(SubredditType::Restricted.as_str(), "restricted");
    assert_eq!(SubredditType::User.as_str(), "user");
    assert_eq!(SubredditType::Archived.as_str(), "archived");
    assert_eq!(SubredditType::GoldRestricted.as_str(), "gold_restricted");
    assert_eq!(SubredditType::GoldOnly.as_str(), "gold_only");
    assert_eq!(SubredditType::Private.as_str(), "private");
    assert_eq!(Distinguished::Admin.as_str(), "admin");
    assert_eq!(Distinguished::Moderator.as_str(), "moderator");
    assert_eq!(Distinguished::Special.as_str(), "special");
    assert_eq!(SuggestedSort::Confidence.as_str(), "confidence");
    assert_eq!(SuggestedSort::Controversial.as_str(), "controversial");
    assert_eq!(SuggestedSort::Live.as_str(), "live");
    assert_eq!(SuggestedSort::New.as_str(), "new");
    assert_eq!(SuggestedSort::Old.as_str(), "old");
    assert_eq!(SuggestedSort::Qa.as_str(), "qa");
    assert_eq!(SuggestedSort::Random.as_str(), "random");
    assert_eq!(SuggestedSort::Top.as_str(), "top");
    assert_eq!(PostHint::Gallery.as_str(), "gallery");
    assert_eq!(PostHint::HostedVideo.as_str(), "hosted_video");
    assert_eq!(PostHint::Image.as_str(), "image");
    assert_eq!(PostHint::Link.as_str(), "link");
    assert_eq!(PostHint::RichVideo.as_str(), "rich_video");
    assert_eq!(PostHint::Slf.as_str(), "slf");
    assert_eq!(PostHint::Video.as_str(), "video");
    assert_eq!(RemovedByCategory::Author.as_str(), "author");
    assert_eq!(RemovedByCategory::AutomodFiltered.as_str(), "automod_filtered");
    assert_eq!(RemovedByCategory::ContentTakedown.as_str(), "content_takedown");
    assert_eq!(RemovedByCategory::Deleted.as_str(), "deleted");
    assert_eq!(RemovedByCategory::Moderator.as_str(), "moderator");
    assert_eq!(RemovedByCategory::Reddit.as_str(), "reddit");
    assert_eq!(RemovedByCategory::AntiEvilOps.as_str(), "anti_evil_ops");
    assert_eq!(RemovedByCategory::CommunityOps.as_str(), "community_ops");
    assert_eq!(RemovedByCategory::CopyrightTakedown.as_str(), "copyright_takedown");
}

fn submission(author: Option<&str>, subreddit: Option<&str>) -> Submission {
    Submission {
        author: author.map(|name| name.to_string()),
        author_premium: None,
        url: None,
        permalink: "/r/rust/1".to_string(),
        score: Some(12),
        title: "title".to_string(),
        selftext: String::new(),
        domain: None,
        author_flair_text: None,
        author_flair_template_id: None,
        subreddit: subreddit.map(|name| name.to_string()),
        subreddit_id: None,
        id: "1a".to_string(),
        num_comments: 0,
        over_18: false,
        is_self: true,
        link_flair_template_id: None,
        link_flair_text: None,
        spoiler: None,
        pinned: None,
        stickied: false,
        num_crossposts: None,
        ups: None,
        downs: None,
        created_utc: 1500,
        edited_utc: None,
        retrieved_on: None,
        is_created_from_ads_ui: false,
        is_gallery: false,
        is_video: false,
        is_original_content: None,
        is_reddit_media_domain: false,
        url_overridden_by_dest: None,
        quarantine: None,
        subreddit_subscribers: None,
        contest_mode: false,
        suggested_sort: None,
        crosspost_parent: None,
        post_hint: None,
        removed_by_category: None,
        subreddit_type: None,
        wls: None,
        whitelist_status: None,
    }
}

#[test]
fn submission_reports_what_it_holds() {
    let record = submission(Some("alice"), None);
    assert_eq!(record.score(), Some(12));
    assert_eq!(record.author(), Some("alice"));
    assert_eq!(record.subreddit(), None);
    assert_eq!(record.created(), 1500);
}

#[test]
fn filter_reads_a_submission() {
    let users = vec!["alice".to_string()];
    let filter = Filter::new(&users, &vec![], Some(10), None, None, Some(1500)).unwrap();
    assert!(filter.filter(&submission(Some("alice"), Some("rust"))));
    assert!(!filter.filter(&submission(Some("bob"), Some("rust"))));
    assert!(!filter.filter(&submission(None, None)));
    let mut late = submission(Some("alice"), None);
    late.created_utc = 1501;
    assert!(!filter.filter(&late));
    let mut low = submission(Some("alice"), None);
    low.score = Some(9);
    assert!(!filter.filter(&low));
    low.score = None;
    assert!(filter.filter(&low));
}
