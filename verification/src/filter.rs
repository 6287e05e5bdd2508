//! The admission rule: which records a run keeps.

use crate::cli::Cli;
use crate::radix::{from_str_radix, parse_i64};
use ahash::RandomState;
use chrono::NaiveDateTime;
use std::collections::HashSet;
use vstd::prelude::*;
use vstd::string::StringExecFns;

verus! {

/// The format in which a creation-time bound is typed.
pub const DATE_FORMAT: &'static str = "%Y-%m-%d-%H:%M:%S";

/// What the admission rule reads of a record.
pub trait Filterable {
    fn score(&self) -> Option<i64>;

    fn author(&self) -> Option<&str>;

    fn subreddit(&self) -> Option<&str>;

    fn created(&self) -> i64;
}

/// `ahash::RandomState`, the hasher of the name sets: nothing is known of
/// what it holds.
#[verifier::external_type_specification]
#[verifier::external_body]
pub struct ExRandomState(RandomState);

/// The names that a set holds.
pub uninterp spec fn members(set: HashSet<String, RandomState>) -> Set<Seq<char>>;

/// The seconds since the epoch that `chrono` reads out of `text` under
/// `format`, taken as UTC; `None` where it refuses the text.
pub uninterp spec fn timestamp_of(text: Seq<char>, format: Seq<char>) -> Option<i64>;

/// Makes a `HashSet` with ahash's `RandomState::default()`: it holds nothing.
#[verifier::external_body]
fn set_new() -> (set: HashSet<String, RandomState>)
    ensures
        members(set) == Set::<Seq<char>>::empty(),
{
    HashSet::default()
}

/// Calls `HashSet::insert` on a set hashed by ahash: the set then holds the
/// name besides what it held.
#[verifier::external_body]
fn set_insert(set: &mut HashSet<String, RandomState>, name: String)
    ensures
        members(*final(set)) == members(*old(set)).insert(name@),
{
    set.insert(name);
}

/// Calls `HashSet::contains` on a set hashed by ahash: whether the set
/// holds the name.
#[verifier::external_body]
fn set_contains(set: &HashSet<String, RandomState>, name: &str) -> (found: bool)
    ensures
        found == members(*set).contains(name@),
{
    set.contains(name)
}

/// Calls `HashSet::is_empty` on a set hashed by ahash: whether the set
/// holds no name.
#[verifier::external_body]
fn set_is_empty(set: &HashSet<String, RandomState>) -> (empty: bool)
    ensures
        empty == (members(*set) == Set::<Seq<char>>::empty()),
{
    set.is_empty()
}

/// Calls `NaiveDateTime::parse_from_str` and turns the date into the UTC
/// timestamp of `and_utc().timestamp()`. The result depends on the two texts
/// alone.
#[verifier::external_body]
fn parse_timestamp(text: &str, format: &str) -> (seconds: Option<i64>)
    ensures
        seconds == timestamp_of(text@, format@),
{
    match NaiveDateTime::parse_from_str(text, format) {
        Ok(date) => Some(date.and_utc().timestamp()),
        Err(_) => None,
    }
}

/// The admission criteria of a run.
#[derive(Debug)]
pub struct Filter {
    pub users: HashSet<String, RandomState>,
    pub subreddits: HashSet<String, RandomState>,
    pub min_score: Option<i64>,
    pub max_score: Option<i64>,
    pub min_date: Option<i64>,
    pub max_date: Option<i64>,
}

/// The admission criteria as plain values.
pub struct FilterView {
    pub users: Set<Seq<char>>,
    pub subreddits: Set<Seq<char>>,
    pub min_score: Option<i64>,
    pub max_score: Option<i64>,
    pub min_date: Option<i64>,
    pub max_date: Option<i64>,
}

impl View for Filter {
    type V = FilterView;

    open spec fn view(&self) -> FilterView {
        FilterView {
            users: members(self.users),
            subreddits: members(self.subreddits),
            min_score: self.min_score,
            max_score: self.max_score,
            min_date: self.min_date,
            max_date: self.max_date,
        }
    }
}

/// Whether `value` is at least the lower bound, where there is one.
pub open spec fn at_least(value: i64, bound: Option<i64>) -> bool {
    bound matches Some(min) ==> min <= value
}

/// Whether `value` is at most the upper bound, where there is one.
pub open spec fn at_most(value: i64, bound: Option<i64>) -> bool {
    bound matches Some(max) ==> value <= max
}

/// The text of an optional name.
pub open spec fn text_of(name: Option<&str>) -> Option<Seq<char>> {
    match name {
        Some(text) => Some(text@),
        None => None,
    }
}

impl FilterView {
    /// The criteria that admit every record.
    pub open spec fn empty() -> FilterView {
        FilterView {
            users: Set::empty(),
            subreddits: Set::empty(),
            min_score: None,
            max_score: None,
            min_date: None,
            max_date: None,
        }
    }

    /// Whether a score passes the score bounds. An unknown score passes.
    pub open spec fn score_passes(self, score: Option<i64>) -> bool {
        score matches Some(known) ==> at_least(known, self.min_score) && at_most(
            known,
            self.max_score,
        )
    }

    /// Whether a creation time passes the time bounds.
    pub open spec fn time_passes(self, created: i64) -> bool {
        at_least(created, self.min_date) && at_most(created, self.max_date)
    }

    /// Whether a record passes every bound.
    pub open spec fn bounds_pass(self, score: Option<i64>, created: i64) -> bool {
        self.score_passes(score) && self.time_passes(created)
    }

    /// Whether no author and no subreddit is asked for.
    pub open spec fn unrestricted(self) -> bool {
        self.users == Set::<Seq<char>>::empty() && self.subreddits == Set::<Seq<char>>::empty()
    }

    /// Whether the author or the subreddit is one that is asked for.
    pub open spec fn names_match(
        self,
        author: Option<Seq<char>>,
        subreddit: Option<Seq<char>>,
    ) -> bool {
        ||| author matches Some(name) && self.users.contains(name)
        ||| subreddit matches Some(name) && self.subreddits.contains(name)
    }

    /// The admission rule: every bound passes, and either no name is asked
    /// for or the author or the subreddit is one that is.
    pub open spec fn admits(
        self,
        score: Option<i64>,
        author: Option<Seq<char>>,
        subreddit: Option<Seq<char>>,
        created: i64,
    ) -> bool {
        self.bounds_pass(score, created) && (self.unrestricted() || self.names_match(
            author,
            subreddit,
        ))
    }
}

/// The names of a list.
pub open spec fn names_of(list: Seq<String>) -> Set<Seq<char>> {
    Set::new(|name: Seq<char>| exists|i: int| 0 <= i < list.len() && #[trigger] list[i]@ == name)
}

/// The names of a list that may be absent.
pub open spec fn optional_names(list: Option<Vec<String>>) -> Set<Seq<char>> {
    match list {
        Some(names) => names_of(names@),
        None => Set::empty(),
    }
}

/// Whether an upper bound lies under the lower bound.
pub open spec fn inverted(min: Option<i64>, max: Option<i64>) -> bool {
    min matches Some(low) && max matches Some(high) && high < low
}

/// Why a filter cannot be made.
#[derive(Debug, Clone, Copy, PartialEq, Eq, Structural)]
pub enum FilterConfigError {
    /// The lowest score is no decimal integer of 64 bits.
    InvalidMinScore,
    /// The earliest creation time is not in the date format.
    InvalidMinDate,
    /// The latest creation time is not in the date format.
    InvalidMaxDate,
    /// The highest score lies under the lowest.
    ScoreBoundsInverted,
    /// The latest creation time lies before the earliest.
    DateBoundsInverted,
}

impl FilterConfigError {
    /// What to tell the user.
    pub open spec fn message_text(self) -> Seq<char> {
        match self {
            FilterConfigError::InvalidMinScore => "expected integer for min-score"@,
            FilterConfigError::InvalidMinDate => "expected valid date for min-datetime"@,
            FilterConfigError::InvalidMaxDate => "expected valid date for max-datetime"@,
            FilterConfigError::ScoreBoundsInverted => "max-score < min-score"@,
            FilterConfigError::DateBoundsInverted => "max-datetime < min-datetime"@,
        }
    }

    pub fn message(self) -> (text: &'static str)
        ensures
            text@ == self.message_text(),
    {
        match self {
            FilterConfigError::InvalidMinScore => "expected integer for min-score",
            FilterConfigError::InvalidMinDate => "expected valid date for min-datetime",
            FilterConfigError::InvalidMaxDate => "expected valid date for max-datetime",
            FilterConfigError::ScoreBoundsInverted => "max-score < min-score",
            FilterConfigError::DateBoundsInverted => "max-datetime < min-datetime",
        }
    }
}

/// What is wrong with the order of the bounds, if anything: the scores are
/// looked at first.
pub open spec fn bounds_error(
    min_score: Option<i64>,
    max_score: Option<i64>,
    min_date: Option<i64>,
    max_date: Option<i64>,
) -> Option<FilterConfigError> {
    if inverted(min_score, max_score) {
        Some(FilterConfigError::ScoreBoundsInverted)
    } else if inverted(min_date, max_date) {
        Some(FilterConfigError::DateBoundsInverted)
    } else {
        None
    }
}

/// The lowest score that the options ask for.
pub open spec fn min_score_of(cli: &Cli) -> Option<i64> {
    match cli.min_score {
        Some(text) => parse_i64(text@, 10),
        None => None,
    }
}

/// The creation time that a typed bound stands for.
pub open spec fn date_of(typed: Option<String>) -> Option<i64> {
    match typed {
        Some(text) => timestamp_of(text@, DATE_FORMAT@),
        None => None,
    }
}

/// What is wrong with the options, if anything. A bound that cannot be read
/// is reported before the order of the bounds, in the order lowest score,
/// earliest time, latest time.
pub open spec fn cli_error(cli: &Cli) -> Option<FilterConfigError> {
    if cli.min_score is Some && min_score_of(cli) is None {
        Some(FilterConfigError::InvalidMinScore)
    } else if cli.min_datetime is Some && date_of(cli.min_datetime) is None {
        Some(FilterConfigError::InvalidMinDate)
    } else if cli.max_datetime is Some && date_of(cli.max_datetime) is None {
        Some(FilterConfigError::InvalidMaxDate)
    } else {
        bounds_error(
            min_score_of(cli),
            cli.max_score,
            date_of(cli.min_datetime),
            date_of(cli.max_datetime),
        )
    }
}

/// The criteria that the options ask for.
pub open spec fn cli_filter(cli: &Cli) -> FilterView {
    FilterView {
        users: optional_names(cli.username),
        subreddits: optional_names(cli.subreddit),
        min_score: min_score_of(cli),
        max_score: cli.max_score,
        min_date: date_of(cli.min_datetime),
        max_date: date_of(cli.max_datetime),
    }
}

/// What the user is told of a date that is not in the date format.
pub open spec fn date_error_text(date: Seq<char>) -> Seq<char> {
    "unable to parse date "@ + date + ", expected string in format "@ + DATE_FORMAT@
        + ". eg 2015-09-05-23:56:04"@
}

/// The verdict on a typed date, given what the parser made of it: the date
/// itself where it was read, else the message for the user.
pub open spec fn date_verdict(date: Seq<char>, parsed: Option<i64>) -> Result<
    Seq<char>,
    Seq<char>,
> {
    if parsed is Some {
        Ok(date)
    } else {
        Err(date_error_text(date))
    }
}

/// The texts of a verdict.
pub open spec fn verdict_text(verdict: Result<String, String>) -> Result<Seq<char>, Seq<char>> {
    match verdict {
        Ok(text) => Ok(text@),
        Err(text) => Err(text@),
    }
}

fn collect_names(list: &Vec<String>) -> (set: HashSet<String, RandomState>)
    ensures
        members(set) == names_of(list@),
{
    let mut set = set_new();
    let mut i: usize = 0;
    while i < list.len()
        invariant
            i <= list.len(),
            members(set) == names_of(list@.subrange(0, i as int)),
        decreases list.len() - i,
    {
        let ghost before = list@.subrange(0, i as int);
        let ghost after = list@.subrange(0, i + 1);
        set_insert(&mut set, list[i].clone());
        assert(names_of(after) =~= names_of(before).insert(list@[i as int]@)) by {
            assert forall|name: Seq<char>| names_of(before).insert(list@[i as int]@).contains(
                name,
            ) implies names_of(after).contains(name) by {
                if name == list@[i as int]@ {
                    assert(after[i as int]@ == name);
                } else {
                    let j = choose|j: int| 0 <= j < before.len() && #[trigger] before[j]@ == name;
                    assert(after[j]@ == name);
                }
            }
            assert forall|name: Seq<char>| names_of(after).contains(name) implies names_of(
                before,
            ).insert(list@[i as int]@).contains(name) by {
                let j = choose|j: int| 0 <= j < after.len() && #[trigger] after[j]@ == name;
                if j < i {
                    assert(before[j]@ == name);
                }
            }
        }
        i += 1;
    }
    assert(list@.subrange(0, i as int) =~= list@);
    set
}

fn optional_set(list: &Option<Vec<String>>) -> (set: HashSet<String, RandomState>)
    ensures
        members(set) == optional_names(*list),
{
    match list {
        Some(names) => collect_names(names),
        None => set_new(),
    }
}

/// Whether the four values are ones that the record's methods may return.
pub open spec fn reports<T: Filterable>(
    content: &T,
    score: Option<i64>,
    author: Option<Seq<char>>,
    subreddit: Option<Seq<char>>,
    created: i64,
) -> bool {
    &&& call_ensures(T::score, (content,), score)
    &&& call_ensures(T::created, (content,), created)
    &&& exists|name: Option<&str>|
        call_ensures(T::author, (content,), name) && author == text_of(name)
    &&& exists|name: Option<&str>|
        call_ensures(T::subreddit, (content,), name) && subreddit == text_of(name)
}

impl Default for Filter {
    /// The filter that admits every record.
    fn default() -> (filter: Filter)
        ensures
            filter@ == FilterView::empty(),
    {
        Filter {
            users: set_new(),
            subreddits: set_new(),
            min_score: None,
            max_score: None,
            min_date: None,
            max_date: None,
        }
    }
}

impl Filter {
    /// Makes a filter of the given names and bounds. Bounds in the wrong
    /// order are refused.
    pub fn new(
        users: &Vec<String>,
        subreddits: &Vec<String>,
        min_score: Option<i64>,
        max_score: Option<i64>,
        min_date: Option<i64>,
        max_date: Option<i64>,
    ) -> (made: Result<Filter, FilterConfigError>)
        ensures
            match made {
                Ok(filter) => bounds_error(min_score, max_score, min_date, max_date) is None
                    && filter@ == (FilterView {
                    users: names_of(users@),
                    subreddits: names_of(subreddits@),
                    min_score,
                    max_score,
                    min_date,
                    max_date,
                }),
                Err(error) => bounds_error(min_score, max_score, min_date, max_date) == Some(
                    error,
                ),
            },
    {
        if let (Some(low), Some(high)) = (min_score, max_score) {
            if high < low {
                return Err(FilterConfigError::ScoreBoundsInverted);
            }
        }
        if let (Some(low), Some(high)) = (min_date, max_date) {
            if high < low {
                return Err(FilterConfigError::DateBoundsInverted);
            }
        }
        Ok(
            Filter {
                users: collect_names(users),
                subreddits: collect_names(subreddits),
                min_score,
                max_score,
                min_date,
                max_date,
            },
        )
    }

    /// Makes the filter that the options of a run ask for.
    pub fn from_cli(cli: &Cli) -> (made: Result<Filter, FilterConfigError>)
        ensures
            match made {
                Ok(filter) => cli_error(cli) is None && filter@ == cli_filter(cli),
                Err(error) => cli_error(cli) == Some(error),
            },
    {
        let min_score = match &cli.min_score {
            Some(text) => match from_str_radix(text.as_str(), 10) {
                Some(score) => Some(score),
                None => {
                    return Err(FilterConfigError::InvalidMinScore);
                },
            },
            None => None,
        };
        let min_date = match &cli.min_datetime {
            Some(text) => match parse_timestamp(text.as_str(), DATE_FORMAT) {
                Some(seconds) => Some(seconds),
                None => {
                    return Err(FilterConfigError::InvalidMinDate);
                },
            },
            None => None,
        };
        let max_date = match &cli.max_datetime {
            Some(text) => match parse_timestamp(text.as_str(), DATE_FORMAT) {
                Some(seconds) => Some(seconds),
                None => {
                    return Err(FilterConfigError::InvalidMaxDate);
                },
            },
            None => None,
        };
        if let (Some(low), Some(high)) = (min_score, cli.max_score) {
            if high < low {
                return Err(FilterConfigError::ScoreBoundsInverted);
            }
        }
        if let (Some(low), Some(high)) = (min_date, max_date) {
            if high < low {
                return Err(FilterConfigError::DateBoundsInverted);
            }
        }
        Ok(
            Filter {
                users: optional_set(&cli.username),
                subreddits: optional_set(&cli.subreddit),
                min_score,
                max_score: cli.max_score,
                min_date,
                max_date,
            },
        )
    }

    /// Decides admission from what a record reports.
    pub fn admits(
        &self,
        score: Option<i64>,
        author: Option<&str>,
        subreddit: Option<&str>,
        created: i64,
    ) -> (admitted: bool)
        ensures
            admitted == self@.admits(score, text_of(author), text_of(subreddit), created),
    {
        if let Some(known) = score {
            if let Some(min) = self.min_score {
                if known < min {
                    return false;
                }
            }
            if let Some(max) = self.max_score {
                if max < known {
                    return false;
                }
            }
        }
        if let Some(min) = self.min_date {
            if created < min {
                return false;
            }
        }
        if let Some(max) = self.max_date {
            if max < created {
                return false;
            }
        }
        if set_is_empty(&self.users) && set_is_empty(&self.subreddits) {
            return true;
        }
        if let Some(name) = author {
            if set_contains(&self.users, name) {
                return true;
            }
        }
        if let Some(name) = subreddit {
            if set_contains(&self.subreddits, name) {
                return true;
            }
        }
        false
    }

    /// Decides admission of a record: the rule applied to what the record's
    /// four methods return.
    pub fn filter<T: Filterable>(&self, content: &T) -> (admitted: bool)
        ensures
            exists|
                score: Option<i64>,
                author: Option<Seq<char>>,
                subreddit: Option<Seq<char>>,
                created: i64,
            |
                #[trigger] reports(content, score, author, subreddit, created) && admitted
                    == self@.admits(score, author, subreddit, created),
    {
        let score = content.score();
        let created = content.created();
        let author = content.author();
        let subreddit = content.subreddit();
        assert(reports(content, score, text_of(author), text_of(subreddit), created));
        self.admits(score, author, subreddit, created)
    }
}

/// Gives the verdict on a typed date from what the parser made of it.
pub fn judge_date(date: &str, parsed: Option<i64>) -> (verdict: Result<String, String>)
    ensures
        verdict_text(verdict) == date_verdict(date@, parsed),
{
    match parsed {
        Some(_) => Ok(date.to_owned()),
        None => {
            let mut message = "unable to parse date ".to_owned();
            message.append(date);
            message.append(", expected string in format ");
            message.append(DATE_FORMAT);
            message.append(". eg 2015-09-05-23:56:04");
            Err(message)
        },
    }
}

/// Checks that a typed date is in the date format: gives the date back, or
/// the message for the user.
pub fn date_format_validator(date: &str) -> (verdict: Result<String, String>)
    ensures
        verdict_text(verdict) == date_verdict(date@, timestamp_of(date@, DATE_FORMAT@)),
{
    judge_date(date, parse_timestamp(date, DATE_FORMAT))
}

/// A known score outside a score bound is never admitted, and an unknown
/// score is admitted or not as if there were no score bounds.
pub proof fn lemma_score_bounds(
    filter: FilterView,
    score: Option<i64>,
    author: Option<Seq<char>>,
    subreddit: Option<Seq<char>>,
    created: i64,
)
    ensures
        (score matches Some(known) && filter.min_score matches Some(min) && known < min)
            ==> !filter.admits(score, author, subreddit, created),
        (score matches Some(known) && filter.max_score matches Some(max) && max < known)
            ==> !filter.admits(score, author, subreddit, created),
        filter.admits(None, author, subreddit, created) == (FilterView {
            min_score: None,
            max_score: None,
            ..filter
        }).admits(None, author, subreddit, created),
{
}

/// A creation time outside a time bound is never admitted.
pub proof fn lemma_time_bounds(
    filter: FilterView,
    score: Option<i64>,
    author: Option<Seq<char>>,
    subreddit: Option<Seq<char>>,
    created: i64,
)
    ensures
        (filter.min_date matches Some(min) && created < min) ==> !filter.admits(
            score,
            author,
            subreddit,
            created,
        ),
        (filter.max_date matches Some(max) && max < created) ==> !filter.admits(
            score,
            author,
            subreddit,
            created,
        ),
{
}

/// Where no author and no subreddit is asked for, a record is admitted if
/// and only if it passes the bounds.
pub proof fn lemma_no_names(
    filter: FilterView,
    score: Option<i64>,
    author: Option<Seq<char>>,
    subreddit: Option<Seq<char>>,
    created: i64,
)
    requires
        filter.users == Set::<Seq<char>>::empty(),
        filter.subreddits == Set::<Seq<char>>::empty(),
    ensures
        filter.admits(score, author, subreddit, created) == filter.bounds_pass(score, created),
{
}

/// Where an author or a subreddit is asked for, a record is admitted if and
/// only if it passes the bounds and its author or its subreddit is one of
/// those asked for.
pub proof fn lemma_some_names(
    filter: FilterView,
    score: Option<i64>,
    author: Option<Seq<char>>,
    subreddit: Option<Seq<char>>,
    created: i64,
)
    requires
        filter.users != Set::<Seq<char>>::empty() || filter.subreddits != Set::<
            Seq<char>,
        >::empty(),
    ensures
        filter.admits(score, author, subreddit, created) == (filter.bounds_pass(score, created)
            && ((author matches Some(name) && filter.users.contains(name)) || (
        subreddit matches Some(name) && filter.subreddits.contains(name)))),
{
}

} // verus!
