use memosy_bot::extract::extract_urls;
use memosy_bot::extract::Entity;
use memosy_bot::extract::EntityKind;
use memosy_bot::extract::MessageModel;

fn message(text: Option<&str>, entities: Vec<Entity>) -> MessageModel {
    MessageModel {
        chat_is_private: false,
        sender_name: String::from("Ana"),
        sender_url: None,
        text: text.map(String::from),
        entities,
    }
}

fn url_entity(text: &str) -> Entity {
    Entity { kind: EntityKind::Url, text: String::from(text) }
}

fn other_entity(text: &str) -> Entity {
    Entity { kind: EntityKind::Other, text: String::from(text) }
}

#[test]
fn no_entities_yields_nothing() {
    let m = message(Some("hello there"), vec![]);
    assert_eq!(extract_urls(&m), Vec::<String>::new());
}

#[test]
fn no_text_and_no_entities_yields_nothing() {
    let m = message(None, vec![]);
    assert_eq!(extract_urls(&m), Vec::<String>::new());
}

#[test]
fn non_url_entities_yield_nothing() {
    let m = message(Some("bold and mention"), vec![other_entity("bold"), other_entity("@you")]);
    assert_eq!(extract_urls(&m), Vec::<String>::new());
}

#[test]
fn single_url_is_extracted() {
    let m = message(Some("see https://site/x"), vec![url_entity("https://site/x")]);
    assert_eq!(extract_urls(&m), vec![String::from("https://site/x")]);
}

#[test]
fn urls_come_in_original_order() {
    let m = message(
        Some("https://a then some bold then https://b"),
        vec![url_entity("https://a"), other_entity("bold"), url_entity("https://b")],
    );
    assert_eq!(extract_urls(&m), vec![String::from("https://a"), String::from("https://b")]);
}

#[test]
fn opt_out_marker_suppresses_extraction() {
    let m = message(
        Some("check this out bot-ignore https://site/x"),
        vec![url_entity("https://site/x")],
    );
    assert_eq!(extract_urls(&m), Vec::<String>::new());
}

#[test]
fn opt_out_marker_counts_anywhere_in_text() {
    let m = message(Some("prefix bot-ignore suffix"), vec![url_entity("https://a")]);
    assert_eq!(extract_urls(&m), Vec::<String>::new());
}

#[test]
fn marker_absent_from_missing_text_extracts_entities() {
    let m = message(None, vec![url_entity("https://site/x")]);
    assert_eq!(extract_urls(&m), vec![String::from("https://site/x")]);
}

#[test]
fn contains_str_finds_inner_substring() {
    assert!(memosy_bot::text::contains_str("prefix bot-ignore suffix", "bot-ignore"));
}

#[test]
fn contains_str_rejects_absent_substring() {
    assert!(!memosy_bot::text::contains_str("nothing to see", "bot-ignore"));
}

#[test]
fn contains_str_accepts_empty_needle() {
    assert!(memosy_bot::text::contains_str("anything", ""));
}

#[test]
fn contains_str_needle_longer_than_haystack() {
    assert!(!memosy_bot::text::contains_str("bot", "bot-ignore"));
}
