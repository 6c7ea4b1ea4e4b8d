use clipdown::naming::sanitized_prefix;
use clipdown::naming::tagged_name;

#[test]
fn sanitize_keeps_alphanumeric_space_underscore() {
    assert_eq!(sanitized_prefix("hello world"), "hello world");
    assert_eq!(sanitized_prefix("a_b 9"), "a_b 9");
}

#[test]
fn sanitize_drops_punctuation() {
    assert_eq!(sanitized_prefix("{\"a\":1}"), "a1");
    assert_eq!(sanitized_prefix("key = \"value\""), "key  value");
    assert_eq!(sanitized_prefix("!@#$%^&*()"), "");
}

#[test]
fn sanitize_truncates_to_twelve() {
    assert_eq!(sanitized_prefix("abcdefghijklmnop"), "abcdefghijkl");
    assert_eq!(sanitized_prefix("ab-cdefghijklmnop"), "abcdefghijkl");
}

#[test]
fn sanitize_handles_empty() {
    assert_eq!(sanitized_prefix(""), "");
}

#[test]
fn tagged_name_concatenates() {
    assert_eq!(tagged_name("Text_", "note", ".txt"), "Text_note.txt");
    assert_eq!(tagged_name("Json_", "", ".json"), "Json_.json");
}
