//! Record types of the archive and the references between records.

pub mod comment;
pub mod submission;

use crate::radix::{
    base36_text, digit_char, encode_base36, from_str_radix, lemma_base36_text,
    lemma_digit_char_value, parse_i64, twos_complement,
};
use vstd::prelude::*;
use vstd::std_specs::iter::IteratorSpec;
use vstd::string::StrSliceExecFns;

verus! {

/// How a subreddit admits readers and posters.
#[derive(Debug, Clone, Copy, PartialEq, Eq, Structural)]
pub enum SubredditType {
    Public,
    Restricted,
    User,
    Archived,
    GoldRestricted,
    GoldOnly,
    Private,
}

impl SubredditType {
    /// The name under which the kind is stored.
    pub open spec fn name(self) -> Seq<char> {
        match self {
            SubredditType::Public => "public"@,
            SubredditType::Restricted => "restricted"@,
            SubredditType::User => "user"@,
            SubredditType::Archived => "archived"@,
            SubredditType::GoldRestricted => "gold_restricted"@,
            SubredditType::GoldOnly => "gold_only"@,
            SubredditType::Private => "private"@,
        }
    }

    pub fn as_str(self) -> (name: &'static str)
        ensures
            name@ == self.name(),
    {
        match self {
            SubredditType::Public => "public",
            SubredditType::Restricted => "restricted",
            SubredditType::User => "user",
            SubredditType::Archived => "archived",
            SubredditType::GoldRestricted => "gold_restricted",
            SubredditType::GoldOnly => "gold_only",
            SubredditType::Private => "private",
        }
    }
}

/// A reference to another record: the kind of the record it names, the
/// base-36 text of its number, and the number itself.
#[derive(Debug, Clone)]
pub struct ParentId {
    pub parent_type: Option<u8>,
    pub parent_id: String,
    pub decoded_parent_id: i64,
}

/// What a `ParentId` holds, as plain values.
pub struct ParentIdView {
    pub parent_type: Option<u8>,
    pub parent_id: Seq<char>,
    pub decoded_parent_id: i64,
}

impl View for ParentId {
    type V = ParentIdView;

    open spec fn view(&self) -> ParentIdView {
        ParentIdView {
            parent_type: self.parent_type,
            parent_id: self.parent_id@,
            decoded_parent_id: self.decoded_parent_id,
        }
    }
}

/// The two forms in which an archive writes a reference: a fullname such as
/// `t3_1a`, or a bare integer.
#[derive(Debug, Clone)]
pub enum IdStringOrInt {
    Text(String),
    Int(i64),
}

/// Why a fullname was refused.
#[derive(Debug, Clone, Copy, PartialEq, Eq, Structural)]
pub enum ParentIdError {
    /// No `_` parts kind from number, or no decimal digit names the kind.
    InvalidParentId,
    /// What follows the `_` is no base-36 number of 64 bits.
    InvalidBase36,
}

impl ParentIdError {
    /// What the refused text was expected to be.
    pub open spec fn expected_text(self) -> Seq<char> {
        match self {
            ParentIdError::InvalidParentId => "a valid parent id"@,
            ParentIdError::InvalidBase36 => "a valid base 36 number"@,
        }
    }

    pub fn expected(self) -> (text: &'static str)
        ensures
            text@ == self.expected_text(),
    {
        match self {
            ParentIdError::InvalidParentId => "a valid parent id",
            ParentIdError::InvalidBase36 => "a valid base 36 number",
        }
    }
}

/// Whether the first `_` of `text` stands at `k`.
pub open spec fn splits_at(text: Seq<char>, k: int) -> bool {
    &&& 0 <= k < text.len()
    &&& text[k] == '_'
    &&& forall|j: int| 0 <= j < k ==> text[j] != '_'
}

/// Whether `text` holds a `_`.
pub open spec fn has_separator(text: Seq<char>) -> bool {
    exists|k: int| splits_at(text, k)
}

/// Where the first `_` of `text` stands.
pub open spec fn separator(text: Seq<char>) -> int {
    choose|k: int| splits_at(text, k)
}

/// The kind that the part before the `_` names: its second character, which
/// has to be a decimal digit. The first character is not looked at.
pub open spec fn type_tag(prefix: Seq<char>) -> Option<u8> {
    if prefix.len() >= 2 && '0' <= prefix[1] && prefix[1] <= '9' {
        Some((prefix[1] as u8 - '0' as u8) as u8)
    } else {
        None
    }
}

/// What a fullname decodes to. The text is parted at its first `_`; the part
/// before it names the kind, the part after it is the number in base 36 and
/// has to decode.
pub open spec fn decode_fullname(text: Seq<char>) -> Result<ParentIdView, ParentIdError> {
    if !has_separator(text) {
        Err(ParentIdError::InvalidParentId)
    } else {
        let k = separator(text);
        let payload = text.subrange(k + 1, text.len() as int);
        match type_tag(text.subrange(0, k)) {
            None => Err(ParentIdError::InvalidParentId),
            Some(tag) => match parse_i64(payload, 36) {
                None => Err(ParentIdError::InvalidBase36),
                Some(number) => Ok(
                    ParentIdView {
                        parent_type: Some(tag),
                        parent_id: payload,
                        decoded_parent_id: number,
                    },
                ),
            },
        }
    }
}

/// What a bare integer decodes to: no kind, the integer's base-36 text and
/// the integer itself.
pub open spec fn decode_int(value: i64) -> ParentIdView {
    ParentIdView {
        parent_type: None,
        parent_id: base36_text(twos_complement(value)),
        decoded_parent_id: value,
    }
}

/// What either form of a reference decodes to.
pub open spec fn decode_reference(raw: IdStringOrInt) -> Result<ParentIdView, ParentIdError> {
    match raw {
        IdStringOrInt::Text(text) => decode_fullname(text@),
        IdStringOrInt::Int(value) => Ok(decode_int(value)),
    }
}

/// The first `_` of a text stands at one place only.
pub proof fn lemma_separator_unique(text: Seq<char>, k: int)
    requires
        splits_at(text, k),
    ensures
        has_separator(text),
        separator(text) == k,
{
    let c = separator(text);
    assert(splits_at(text, c));
    if c < k {
        assert(text[c] != '_');
    }
    if k < c {
        assert(text[k] != '_');
    }
}

/// The fullname of the record with the given number and kind: `t`, the
/// kind's digit, `_`, and the number in base 36.
pub open spec fn fullname(kind: u8, number: i64) -> Seq<char> {
    seq!['t', digit_char(kind as int), '_'] + base36_text(twos_complement(number))
}

/// Decoding the fullname of a record gives back its kind, the base-36 text
/// of its number, and the number.
pub proof fn lemma_fullname_round_trip(kind: u8, number: i64)
    requires
        kind <= 9,
        number >= 0,
    ensures
        decode_fullname(fullname(kind, number)) == Ok::<ParentIdView, ParentIdError>(
            ParentIdView {
                parent_type: Some(kind),
                parent_id: base36_text(twos_complement(number)),
                decoded_parent_id: number,
            },
        ),
{
    let text = fullname(kind, number);
    let payload = base36_text(twos_complement(number));
    lemma_base36_text(number as nat);
    lemma_digit_char_value(kind as int);
    assert(splits_at(text, 2));
    lemma_separator_unique(text, 2);
    assert(text.subrange(3, text.len() as int) =~= payload);
    assert(text.subrange(0, 2) =~= seq!['t', digit_char(kind as int)]);
}

/// The number that a fullname decodes to is the base-36 number of the text
/// it decodes to.
pub proof fn lemma_decoded_number_is_base36(text: Seq<char>)
    ensures
        decode_fullname(text) matches Ok(parent) ==> parse_i64(parent.parent_id, 36) == Some(
            parent.decoded_parent_id,
        ),
{
}

/// A bare integer decodes to no kind and to itself, and where it is not
/// negative its text reads back as the same integer.
pub proof fn lemma_int_round_trip(value: i64)
    ensures
        decode_int(value).parent_type is None,
        decode_int(value).decoded_parent_id == value,
        value >= 0 ==> parse_i64(decode_int(value).parent_id, 36) == Some(value),
{
    if value >= 0 {
        lemma_base36_text(value as nat);
    }
}

fn find_separator(text: &str) -> (found: Option<usize>)
    ensures
        match found {
            Some(k) => splits_at(text@, k as int),
            None => !has_separator(text@),
        },
{
    broadcast use vstd::string::group_string_axioms;

    let length = text.unicode_len();
    let mut position: usize = 0;
    let mut rest = text.chars();
    loop
        invariant
            length == text@.len(),
            position <= length,
            rest.remaining() == text@.subrange(position as int, length as int),
            rest.obeys_prophetic_iter_laws(),
            forall|j: int| 0 <= j < position ==> text@[j] != '_',
        ensures
            position == length,
        decreases length - position,
    {
        match rest.next() {
            Some(c) => {
                assert(c == text@[position as int]);
                if c == '_' {
                    return Some(position);
                }
                position += 1;
                assert(rest.remaining() =~= text@.subrange(position as int, length as int));
            },
            None => {
                break ;
            },
        }
    }
    assert forall|k: int| !splits_at(text@, k) by {}
    None
}

fn decimal_digit(c: char) -> (digit: Option<u8>)
    ensures
        digit == if '0' <= c && c <= '9' {
            Some((c as u8 - '0' as u8) as u8)
        } else {
            None::<u8>
        },
{
    if '0' <= c && c <= '9' {
        Some(c as u8 - '0' as u8)
    } else {
        None
    }
}

impl ParentId {
    /// Decodes a fullname such as `t3_1a`.
    pub fn from_fullname(text: &str) -> (decoded: Result<ParentId, ParentIdError>)
        ensures
            match decoded {
                Ok(parent) => decode_fullname(text@) == Ok::<ParentIdView, ParentIdError>(parent@),
                Err(error) => decode_fullname(text@) == Err::<ParentIdView, ParentIdError>(error),
            },
    {
        let k = match find_separator(text) {
            Some(k) => k,
            None => {
                return Err(ParentIdError::InvalidParentId);
            },
        };
        proof {
            lemma_separator_unique(text@, k as int);
        }
        let n = text.unicode_len();
        let prefix = text.substring_char(0, k);
        let payload = text.substring_char(k + 1, n);
        if k < 2 {
            return Err(ParentIdError::InvalidParentId);
        }
        let tag = match decimal_digit(prefix.get_char(1)) {
            Some(tag) => tag,
            None => {
                return Err(ParentIdError::InvalidParentId);
            },
        };
        match from_str_radix(payload, 36) {
            None => Err(ParentIdError::InvalidBase36),
            Some(number) => Ok(
                ParentId {
                    parent_type: Some(tag),
                    parent_id: payload.to_owned(),
                    decoded_parent_id: number,
                },
            ),
        }
    }

    /// Decodes a bare integer.
    pub fn from_int(value: i64) -> (parent: ParentId)
        ensures
            parent@ == decode_int(value),
    {
        ParentId { parent_type: None, parent_id: encode_base36(value), decoded_parent_id: value }
    }

    /// Decodes a reference in either form.
    pub fn deserialize(raw: IdStringOrInt) -> (decoded: Result<ParentId, ParentIdError>)
        ensures
            match decoded {
                Ok(parent) => decode_reference(raw) == Ok::<ParentIdView, ParentIdError>(parent@),
                Err(error) => decode_reference(raw) == Err::<ParentIdView, ParentIdError>(error),
            },
    {
        match raw {
            IdStringOrInt::Text(text) => ParentId::from_fullname(text.as_str()),
            IdStringOrInt::Int(value) => Ok(ParentId::from_int(value)),
        }
    }
}

} // verus!
