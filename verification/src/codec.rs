//! How a task's status and tags are written as text in a stored row.
//!
//! A status is stored as a lower-case word, and read leniently. A tag list is
//! stored as a JSON array, and a task without tags as the empty text; an empty
//! list is stored like no list at all. A stored text that is neither empty nor
//! JSON for a list of texts is malformed, and reading it is an error.

use crate::models::TaskStatus;
use crate::text::same_text;
use vstd::prelude::*;

verus! {

/// The stored word for a status: the variant's name in lower case.
pub open spec fn status_text(status: TaskStatus) -> Seq<char> {
    match status {
        TaskStatus::Pending => "pending"@,
        TaskStatus::Completed => "completed"@,
        TaskStatus::Cancelled => "cancelled"@,
    }
}

/// The status that a stored word stands for. Every word but `completed` and
/// `cancelled` stands for a pending task.
pub open spec fn status_of_text(text: Seq<char>) -> TaskStatus {
    if text == "completed"@ {
        TaskStatus::Completed
    } else if text == "cancelled"@ {
        TaskStatus::Cancelled
    } else {
        TaskStatus::Pending
    }
}

/// Decoding a written status gives the status back.
pub proof fn lemma_status_round_trip(status: TaskStatus)
    ensures
        status_of_text(status_text(status)) == status,
{
    reveal_strlit("pending");
    reveal_strlit("completed");
    reveal_strlit("cancelled");
    assert("pending"@.len() == 7);
    assert("completed"@.len() == 9);
    assert("cancelled"@[1] == 'a');
    assert("completed"@[1] == 'o');
}

/// The word under which a status is stored.
pub fn status_label(status: TaskStatus) -> (label: &'static str)
    ensures
        label@ == status_text(status),
{
    match status {
        TaskStatus::Pending => "pending",
        TaskStatus::Completed => "completed",
        TaskStatus::Cancelled => "cancelled",
    }
}

/// Reads a stored status word, leniently: an unknown word is a pending task.
pub fn status_from_label(label: &str) -> (status: TaskStatus)
    ensures
        status == status_of_text(label@),
{
    if same_text(label, "completed") {
        TaskStatus::Completed
    } else if same_text(label, "cancelled") {
        TaskStatus::Cancelled
    } else {
        TaskStatus::Pending
    }
}

/// The text that `serde_json` writes for a list of texts, or `None` where it
/// reports an error.
pub uninterp spec fn json_array_text(list: Seq<Seq<char>>) -> Option<Seq<char>>;

/// What `serde_json` reads from a text as an optional list of texts: `None`
/// where it reports an error, `Some(None)` for the JSON `null`.
pub uninterp spec fn json_array_parse(text: Seq<char>) -> Option<Option<Seq<Seq<char>>>>;

/// The text under which a task's tags are stored.
pub open spec fn tags_text(tags: Option<Seq<Seq<char>>>) -> Seq<char> {
    match tags {
        Some(list) => if list.len() == 0 {
            Seq::empty()
        } else {
            written_or_empty(json_array_text(list))
        },
        None => Seq::empty(),
    }
}

/// The error of reading tags from a stored text that is neither empty nor
/// JSON for a list of texts.
#[derive(Debug, Clone, Copy, PartialEq, Eq, Structural)]
pub struct MalformedTags;

/// The tags that a stored text stands for. The empty text stands for a task
/// without tags, and so does the JSON `null`; any other text stands for the
/// list that it holds as a JSON array of texts, and is malformed where it
/// holds none.
pub open spec fn tags_of_text(text: Seq<char>) -> Result<Option<Seq<Seq<char>>>, MalformedTags> {
    if text.len() == 0 {
        Ok(None)
    } else {
        parsed_tags(json_array_parse(text))
    }
}

/// What is stored when writing a tag list gave `written`.
pub open spec fn written_or_empty(written: Option<Seq<char>>) -> Seq<char> {
    match written {
        Some(text) => text,
        None => Seq::empty(),
    }
}

/// The tags of a task when reading its stored text gave `parsed`: what was
/// read, or an error where nothing could be read.
pub open spec fn parsed_tags(parsed: Option<Option<Seq<Seq<char>>>>) -> Result<
    Option<Seq<Seq<char>>>,
    MalformedTags,
> {
    match parsed {
        Some(tags) => Ok(tags),
        None => Err(MalformedTags),
    }
}

/// Calls `serde_json::to_string` on the list. The text depends on the list
/// alone; an error is handed on as `None`.
#[verifier::external_body]
fn write_json_array(list: &Vec<String>) -> (text: Option<String>)
    ensures
        text.deep_view() == json_array_text(list.deep_view()),
{
    serde_json::to_string(list).ok()
}

/// Calls `serde_json::from_str` for an optional list of texts. The outcome
/// depends on the text alone; an error is handed on as `None`.
#[verifier::external_body]
fn read_json_array(text: &str) -> (list: Option<Option<Vec<String>>>)
    ensures
        list.deep_view() == json_array_parse(text@),
{
    serde_json::from_str::<Option<Vec<String>>>(text).ok()
}

/// Settles what is stored once the serializer has answered: its text, or the
/// empty text where it failed.
pub fn stored_text(written: Option<String>) -> (text: String)
    ensures
        text@ == written_or_empty(written.deep_view()),
{
    match written {
        Some(text) => text,
        None => String::new(),
    }
}

/// Settles a task's tags once the parser has answered: what it read, with
/// `null` read as no tags, or an error where it failed.
pub fn stored_tags(parsed: Option<Option<Vec<String>>>) -> (tags: Result<
    Option<Vec<String>>,
    MalformedTags,
>)
    ensures
        match tags {
            Ok(read) => parsed_tags(parsed.deep_view()) == Ok::<
                Option<Seq<Seq<char>>>,
                MalformedTags,
            >(read.deep_view()),
            Err(_) => parsed_tags(parsed.deep_view()) is Err,
        },
{
    match parsed {
        Some(read) => Ok(read),
        None => Err(MalformedTags),
    }
}

/// Writes a task's tags for storage. No tags and an empty list both give the
/// empty text, so the two cannot be told apart once stored.
pub fn encode_tags(tags: &Option<Vec<String>>) -> (text: String)
    ensures
        text@ == tags_text(tags.deep_view()),
        tags is None ==> text@.len() == 0,
        tags matches Some(list) && list@.len() == 0 ==> text@.len() == 0,
{
    match tags {
        Some(list) => {
            if list.len() == 0 {
                String::new()
            } else {
                stored_text(write_json_array(list))
            }
        },
        None => String::new(),
    }
}

/// Reads a task's tags from their stored text. The empty text and the JSON
/// `null` are a task without tags; a text that is neither empty nor JSON for
/// a list of texts is refused.
pub fn decode_tags(text: &str) -> (tags: Result<Option<Vec<String>>, MalformedTags>)
    ensures
        match tags {
            Ok(read) => tags_of_text(text@) == Ok::<Option<Seq<Seq<char>>>, MalformedTags>(
                read.deep_view(),
            ),
            Err(_) => tags_of_text(text@) is Err,
        },
        text@.len() == 0 ==> tags == Ok::<Option<Vec<String>>, MalformedTags>(None),
{
    if text.is_empty() {
        Ok(None)
    } else {
        stored_tags(read_json_array(text))
    }
}

/// A task without tags, or with an empty tag list, is read back without tags.
pub proof fn lemma_no_tags_round_trip(tags: Option<Seq<Seq<char>>>)
    requires
        tags matches Some(list) ==> list.len() == 0,
    ensures
        tags_of_text(tags_text(tags)) == Ok::<Option<Seq<Seq<char>>>, MalformedTags>(None),
{
}

} // verus!
