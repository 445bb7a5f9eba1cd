use minidialog::dialog::codec::{decode_list, encode_list};
use minidialog::dialog::error::EditorError;

fn codec_strings(items: &[&str]) -> Vec<String> {
    items.iter().map(|s| s.to_string()).collect()
}

#[test]
fn list_round_trip_plain() {
    let list = codec_strings(&["s1", "s2"]);
    let text = encode_list(&list);
    assert_eq!(text, "[\"s1\",\"s2\"]");
    assert_eq!(decode_list(&text), Ok(list));
}

#[test]
fn empty_list_is_an_empty_array() {
    let list: Vec<String> = Vec::new();
    let text = encode_list(&list);
    assert_eq!(text, "[]");
    assert_eq!(decode_list(&text), Ok(list));
}

#[test]
fn single_label_is_encoded_as_array() {
    let text = encode_list(&codec_strings(&["main"]));
    assert_eq!(text, "[\"main\"]");
}

#[test]
fn list_round_trip_awkward_strings() {
    let list = codec_strings(&[
        "",
        "with \"quotes\"",
        "back\\slash",
        "line\nbreak\tand tab",
        "control \u{1} \u{1f} \u{7f}",
        "umlaut \u{e4}\u{f6}\u{fc}",
        "cyrillic \u{43f}\u{440}\u{438}\u{432}\u{435}\u{442}",
        "emoji \u{1F600}",
        "[\"not\",\"a\",\"list\"]",
        ",",
        " ",
    ]);
    let text = encode_list(&list);
    assert_eq!(decode_list(&text), Ok(list));
}

#[test]
fn list_round_trip_keeps_order_and_duplicates() {
    let list = codec_strings(&["b", "a", "b", "c", "a"]);
    assert_eq!(decode_list(&encode_list(&list)), Ok(list));
}

#[test]
fn escapes_are_written_as_json() {
    let text = encode_list(&codec_strings(&["a\"b", "c\\d", "e\nf"]));
    assert_eq!(text, "[\"a\\\"b\",\"c\\\\d\",\"e\\nf\"]");
}

#[test]
fn decode_accepts_whitespace_and_escapes() {
    let text = " [ \"a\" ,\n\t\"\\u0041b\" ] ".to_string();
    assert_eq!(decode_list(&text), Ok(codec_strings(&["a", "Ab"])));
}

#[test]
fn decode_rejects_text_that_is_no_list() {
    for text in ["", "main", "[", "[\"a\"", "[\"a\",]", "\"a\"", "{\"a\":\"b\"}", "[\"a\"] x", "null"] {
        assert_eq!(decode_list(&text.to_string()), Err(EditorError::MalformedList), "{:?}", text);
    }
}

#[test]
fn decode_rejects_lists_of_other_things() {
    for text in ["[1,2]", "[\"a\",1]", "[null]", "[[\"a\"]]", "[true]"] {
        assert_eq!(decode_list(&text.to_string()), Err(EditorError::MalformedList), "{:?}", text);
    }
}

#[test]
fn list_round_trip_every_basic_character() {
    let mut list: Vec<String> = Vec::new();
    let mut chunk = String::new();
    for code in 0u32..0x11000 {
        if let Some(c) = char::from_u32(code) {
            chunk.push(c);
        }
        if chunk.chars().count() == 64 {
            list.push(chunk.clone());
            chunk.clear();
        }
    }
    list.push(chunk);
    list.push("\u{10FFFF}\u{E000}\u{D7FF}".to_string());
    let text = encode_list(&list);
    assert_eq!(decode_list(&text), Ok(list));
}
