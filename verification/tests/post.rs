use tgbot_mastodon_sync::handler::post::format_text_for_mastodon;
use tgbot_mastodon_sync::link::link_target;
use tgbot_mastodon_sync::text::{MessageEntity, MessageEntityKind, MessageText};

fn example() -> String {
    link_target("https://example.com").unwrap()
}

#[test]
fn test_format_text_for_mastodon() {
    let mut msg_text = MessageText::new("", vec![]);

    msg_text.append_text_link("link", example());
    msg_text.append_text("def\n");

    msg_text.append_text("abc");
    msg_text.append_text_link("link", example());
    msg_text.append_text("def\n");

    msg_text.append_text("abc ");
    msg_text.append_text_link("link", example());
    msg_text.append_text("def\n");

    msg_text.append_text("abc ");
    msg_text.append_text_link("link", example());
    msg_text.append_text(" def\n");

    msg_text.append_text("abc");
    msg_text.append_text_link("link", example());
    msg_text.append_text(" def\n");

    msg_text.append_text("abc");
    msg_text.append_text_link("link", example());

    let (formatted, is_formatted) = format_text_for_mastodon(&msg_text);
    assert_eq!(
        (formatted.as_str(), is_formatted),
        (
            r#"[link](https://example.com/) def
abc [link](https://example.com/) def
abc [link](https://example.com/) def
abc [link](https://example.com/) def
abc [link](https://example.com/) def
abc [link](https://example.com/)"#,
            true
        )
    );
}

#[test]
fn format_without_entities_returns_the_text() {
    let msg_text = MessageText::new("plain [text] (as it is)", vec![]);
    assert_eq!(
        format_text_for_mastodon(&msg_text),
        ("plain [text] (as it is)".to_string(), false)
    );
}

#[test]
fn format_single_link_followed_by_text() {
    let mut msg_text = MessageText::new("", vec![]);
    msg_text.append_text_link("link", example());
    msg_text.append_text("def\n");
    assert_eq!(
        format_text_for_mastodon(&msg_text),
        ("[link](https://example.com/) def\n".to_string(), true)
    );
}

#[test]
fn format_drops_entities_that_are_no_links() {
    let mut msg_text = MessageText::new("", vec![]);
    msg_text.append_text_with_entity("bold", MessageEntityKind::Bold);
    msg_text.append_text(" and ");
    msg_text.append_text_with_entity("#tag", MessageEntityKind::Hashtag);
    assert_eq!(
        format_text_for_mastodon(&msg_text),
        ("bold and #tag".to_string(), false)
    );
}

#[test]
fn format_puts_a_space_before_one_following_character() {
    let mut msg_text = MessageText::new("", vec![]);
    msg_text.append_text_link("link", example());
    msg_text.append_text("d");
    assert_eq!(
        format_text_for_mastodon(&msg_text),
        ("[link](https://example.com/) d".to_string(), true)
    );
}

#[test]
fn format_counts_offsets_in_code_units() {
    let mut msg_text = MessageText::new("", vec![]);
    msg_text.append_text("🐱🐱");
    msg_text.append_text_link("喵", example());
    msg_text.append_text("🥰");
    assert_eq!(
        msg_text.entities(),
        &vec![MessageEntity {
            kind: MessageEntityKind::TextLink { url: example() },
            offset: 4,
            length: 1,
        }]
    );
    assert_eq!(
        format_text_for_mastodon(&msg_text),
        ("🐱🐱 [喵](https://example.com/) 🥰".to_string(), true)
    );
}

#[test]
fn format_walks_the_entities_from_the_last_to_the_first() {
    // The footer's link comes later in the list and later in the text; the
    // link that is prepended comes first in both.
    let mut msg_text = MessageText::new("", vec![]);
    msg_text.append_text("body ");
    msg_text.append_text_link("two", example());
    msg_text.prepend_text_link("one", example());
    assert_eq!(msg_text.text(), "onebody two");
    assert_eq!(
        format_text_for_mastodon(&msg_text),
        (
            "[one](https://example.com/) body [two](https://example.com/)".to_string(),
            true
        )
    );
}
