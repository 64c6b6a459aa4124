use connection_hub::query::{is_whitespace, parse_topic_list, trim};
use connection_hub::{SubscriptionTopic, WsQuery};

fn by_the_standard_library(text: &str) -> Vec<SubscriptionTopic> {
    text.split(',').filter(|s| !s.is_empty()).map(|s| SubscriptionTopic::from(s.trim())).collect()
}

#[test]
fn white_space_is_what_the_standard_library_says() {
    for code in 0..=0x10ffffu32 {
        if let Some(c) = char::from_u32(code) {
            assert_eq!(is_whitespace(c), c.is_whitespace(), "code point {:x}", code);
        }
    }
}

#[test]
fn trim_removes_white_space_at_both_ends_only() {
    assert_eq!(trim("  navigation \t"), "navigation");
    assert_eq!(trim("data: a b "), "data: a b");
    assert_eq!(trim(""), "");
    assert_eq!(trim(" \n\t "), "");
    assert_eq!(trim("x"), "x");
    assert_eq!(trim("\u{3000}é\u{a0}"), "é");
}

#[test]
fn trim_agrees_with_the_standard_library() {
    let samples = ["", " ", "a", " a", "a ", " a b ", "\t\r\n x \u{2028}", "\u{85}y\u{1680}"];
    for sample in samples {
        assert_eq!(trim(sample), sample.trim());
    }
}

#[test]
fn topic_list_is_cut_at_commas() {
    assert_eq!(
        parse_topic_list("navigation,filesystem,data:metrics"),
        vec![
            SubscriptionTopic::Navigation,
            SubscriptionTopic::FileSystem,
            SubscriptionTopic::DataUpdates("metrics".to_string()),
        ]
    );
}

#[test]
fn empty_pieces_are_left_out_and_the_others_are_trimmed() {
    assert_eq!(
        parse_topic_list(",navigation ,, all,"),
        vec![SubscriptionTopic::Navigation, SubscriptionTopic::All]
    );
    assert!(parse_topic_list("").is_empty());
    assert!(parse_topic_list(",,,").is_empty());
}

#[test]
fn a_piece_of_white_space_only_stands_for_the_catch_all_topic() {
    assert_eq!(parse_topic_list(" "), vec![SubscriptionTopic::All]);
    assert_eq!(
        parse_topic_list("filesystem, ,unknown"),
        vec![SubscriptionTopic::FileSystem, SubscriptionTopic::All, SubscriptionTopic::All]
    );
}

#[test]
fn topic_list_agrees_with_the_standard_library() {
    let samples = [
        "",
        ",",
        "a",
        "navigation",
        " navigation , filesystem ",
        "data:x,,data:,direct:a1a2a3a4-b1b2-c1c2-d1d2-d3d4d5d6d7d8",
        "direct:nope, all ,",
        ",,é , \u{3000}",
    ];
    for sample in samples {
        assert_eq!(parse_topic_list(sample), by_the_standard_library(sample), "{:?}", sample);
    }
}

#[test]
fn requested_topics_of_a_query() {
    let query = WsQuery { topics: Some("navigation, all".to_string()), client_id: None };
    assert_eq!(
        query.requested_topics(),
        vec![SubscriptionTopic::Navigation, SubscriptionTopic::All]
    );
    let none = WsQuery { topics: None, client_id: Some("browser".to_string()) };
    assert!(none.requested_topics().is_empty());
}
