use quadrant_tasks::codec::{
    decode_tags, encode_tags, status_from_label, status_label, stored_tags, stored_text,
    MalformedTags,
};
use quadrant_tasks::models::TaskStatus;

fn texts(items: &[&str]) -> Vec<String> {
    items.iter().map(|s| s.to_string()).collect()
}

#[test]
fn status_labels_are_lower_case_words() {
    assert_eq!(status_label(TaskStatus::Pending), "pending");
    assert_eq!(status_label(TaskStatus::Completed), "completed");
    assert_eq!(status_label(TaskStatus::Cancelled), "cancelled");
}

#[test]
fn status_round_trip() {
    for status in [TaskStatus::Pending, TaskStatus::Completed, TaskStatus::Cancelled] {
        assert_eq!(status_from_label(status_label(status)), status);
    }
}

#[test]
fn unknown_status_is_pending() {
    assert_eq!(status_from_label("bogus"), TaskStatus::Pending);
    assert_eq!(status_from_label(""), TaskStatus::Pending);
    assert_eq!(status_from_label("Completed"), TaskStatus::Pending);
    assert_eq!(status_from_label("completed "), TaskStatus::Pending);
    assert_eq!(status_from_label("canceled"), TaskStatus::Pending);
}

#[test]
fn tags_are_written_as_a_json_array() {
    assert_eq!(encode_tags(&Some(texts(&["a", "b"]))), "[\"a\",\"b\"]");
    assert_eq!(encode_tags(&Some(texts(&["one"]))), "[\"one\"]");
    assert_eq!(encode_tags(&Some(texts(&["say \"hi\"", "紧急"]))), "[\"say \\\"hi\\\"\",\"紧急\"]");
}

#[test]
fn no_tags_and_empty_tags_are_written_alike() {
    assert_eq!(encode_tags(&None), "");
    assert_eq!(encode_tags(&Some(Vec::new())), "");
}

#[test]
fn tags_are_read_from_a_json_array() {
    assert_eq!(decode_tags("[\"a\",\"b\"]"), Ok(Some(texts(&["a", "b"]))));
    assert_eq!(decode_tags(" [ \"x\" ] "), Ok(Some(texts(&["x"]))));
    assert_eq!(decode_tags("[]"), Ok(Some(Vec::new())));
}

#[test]
fn empty_text_and_null_are_no_tags() {
    assert_eq!(decode_tags(""), Ok(None));
    assert_eq!(decode_tags("null"), Ok(None));
    assert_eq!(decode_tags(" null "), Ok(None));
}

#[test]
fn malformed_tags_are_refused() {
    assert_eq!(decode_tags("not json"), Err(MalformedTags));
    assert_eq!(decode_tags("[1,2]"), Err(MalformedTags));
    assert_eq!(decode_tags("{\"a\":1}"), Err(MalformedTags));
    assert_eq!(decode_tags("[\"a\""), Err(MalformedTags));
    assert_eq!(decode_tags("\"a\""), Err(MalformedTags));
    assert_eq!(decode_tags(" "), Err(MalformedTags));
    assert_eq!(decode_tags("[\"a\"] trailing"), Err(MalformedTags));
}

#[test]
fn tag_round_trip() {
    let tags = Some(texts(&["a", "b"]));
    assert_eq!(decode_tags(&encode_tags(&tags)), Ok(tags));
    assert_eq!(decode_tags(&encode_tags(&None)), Ok(None));
    let odd = Some(texts(&["", "with,comma", "line\nbreak", "quote\"", "back\\slash", "重要"]));
    assert_eq!(decode_tags(&encode_tags(&odd)), Ok(odd));
}

#[test]
fn empty_tag_list_reloads_as_no_tags() {
    assert_eq!(decode_tags(&encode_tags(&Some(Vec::new()))), Ok(None));
}

#[test]
fn stored_text_of_a_failed_write_is_empty() {
    assert_eq!(stored_text(None), "");
    assert_eq!(stored_text(Some("[\"a\"]".to_string())), "[\"a\"]");
}

#[test]
fn stored_tags_of_each_parse() {
    assert_eq!(stored_tags(None), Err(MalformedTags));
    assert_eq!(stored_tags(Some(None)), Ok(None));
    assert_eq!(stored_tags(Some(Some(texts(&["a"])))), Ok(Some(texts(&["a"]))));
    assert_eq!(stored_tags(Some(Some(Vec::new()))), Ok(Some(Vec::new())));
}
