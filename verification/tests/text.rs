use tgbot_mastodon_sync::link::link_target;
use tgbot_mastodon_sync::text::{mtb, MessageEntity, MessageEntityKind, MessageText};

fn url(input: &str) -> String {
    link_target(input).unwrap()
}

#[test]
fn appender_text_link() {
    let text = String::new();
    let entities = Vec::new();
    let mut msg_text = MessageText::new(&text, entities);

    msg_text.append_text_link("link", url("https://example.com"));
    assert_eq!(msg_text.text(), "link");
    assert_eq!(
        msg_text.entities(),
        &vec![MessageEntity {
            kind: MessageEntityKind::TextLink {
                url: url("https://example.com")
            },
            offset: 0,
            length: 4,
        }]
    );

    msg_text.append_text("\n\n");
    msg_text.append_text_link("喵呜🐱🥰", url("https://http.cat"));
    assert_eq!(msg_text.text(), "link\n\n喵呜🐱🥰");
    assert_eq!(
        msg_text.entities(),
        &vec![
            MessageEntity {
                kind: MessageEntityKind::TextLink {
                    url: url("https://example.com")
                },
                offset: 0,
                length: 4,
            },
            MessageEntity {
                kind: MessageEntityKind::TextLink {
                    url: url("https://http.cat")
                },
                offset: 6,
                length: 6,
            }
        ]
    );

    msg_text.append_text("\n");
    msg_text.append_text_link_fallback("Meow", link_target("https:://http.cat/200"));
    assert_eq!(msg_text.text(), "link\n\n喵呜🐱🥰\nMeow");
    assert_eq!(
        msg_text.entities(),
        &vec![
            MessageEntity {
                kind: MessageEntityKind::TextLink {
                    url: url("https://example.com")
                },
                offset: 0,
                length: 4,
            },
            MessageEntity {
                kind: MessageEntityKind::TextLink {
                    url: url("https://http.cat")
                },
                offset: 6,
                length: 6,
            }
        ]
    );

    msg_text.prepend_text("Nya!\n");
    assert_eq!(msg_text.text(), "Nya!\nlink\n\n喵呜🐱🥰\nMeow");
    assert_eq!(
        msg_text.entities(),
        &vec![
            MessageEntity {
                kind: MessageEntityKind::TextLink {
                    url: url("https://example.com")
                },
                offset: 5,
                length: 4,
            },
            MessageEntity {
                kind: MessageEntityKind::TextLink {
                    url: url("https://http.cat")
                },
                offset: 11,
                length: 6,
            }
        ]
    );

    msg_text.prepend_text_link("Teapot!\n", url("https://http.cat/418"));
    assert_eq!(msg_text.text(), "Teapot!\nNya!\nlink\n\n喵呜🐱🥰\nMeow");
    assert_eq!(
        msg_text.entities(),
        &vec![
            MessageEntity {
                kind: MessageEntityKind::TextLink {
                    url: url("https://http.cat/418")
                },
                offset: 0,
                length: 8,
            },
            MessageEntity {
                kind: MessageEntityKind::TextLink {
                    url: url("https://example.com")
                },
                offset: 13,
                length: 4,
            },
            MessageEntity {
                kind: MessageEntityKind::TextLink {
                    url: url("https://http.cat")
                },
                offset: 19,
                length: 6,
            }
        ]
    );

    msg_text.append_text("\n");
    msg_text.append(mtb().bold("Fat Cat").build());
    assert_eq!(
        msg_text.text(),
        "Teapot!\nNya!\nlink\n\n喵呜🐱🥰\nMeow\nFat Cat"
    );
    assert_eq!(
        msg_text.entities(),
        &vec![
            MessageEntity {
                kind: MessageEntityKind::TextLink {
                    url: url("https://http.cat/418")
                },
                offset: 0,
                length: 8,
            },
            MessageEntity {
                kind: MessageEntityKind::TextLink {
                    url: url("https://example.com")
                },
                offset: 13,
                length: 4,
            },
            MessageEntity {
                kind: MessageEntityKind::TextLink {
                    url: url("https://http.cat")
                },
                offset: 19,
                length: 6,
            },
            MessageEntity {
                kind: MessageEntityKind::Bold,
                offset: 31,
                length: 7,
            }
        ]
    );

    msg_text.prepend(mtb().italic("I'm a ").build());
    assert_eq!(
        msg_text.text(),
        "I'm a Teapot!\nNya!\nlink\n\n喵呜🐱🥰\nMeow\nFat Cat"
    );
    assert_eq!(
        msg_text.entities(),
        &vec![
            MessageEntity {
                kind: MessageEntityKind::Italic,
                offset: 0,
                length: 6,
            },
            MessageEntity {
                kind: MessageEntityKind::TextLink {
                    url: url("https://http.cat/418")
                },
                offset: 6,
                length: 8,
            },
            MessageEntity {
                kind: MessageEntityKind::TextLink {
                    url: url("https://example.com")
                },
                offset: 19,
                length: 4,
            },
            MessageEntity {
                kind: MessageEntityKind::TextLink {
                    url: url("https://http.cat")
                },
                offset: 25,
                length: 6,
            },
            MessageEntity {
                kind: MessageEntityKind::Bold,
                offset: 37,
                length: 7,
            }
        ]
    );
}

#[test]
fn link_target_is_written_out_in_full() {
    assert_eq!(
        link_target("https://example.com"),
        Some("https://example.com/".to_string())
    );
    assert_eq!(link_target("https:://http.cat/200"), None);
    assert_eq!(link_target("not a url"), None);
}

#[test]
fn extract_semantics() {
    let text = String::new();
    let entities = Vec::new();
    let mut msg_text = MessageText::new(&text, entities);

    msg_text.append_text("meow ğŸ“ ");
    msg_text.append_text_link("link", url("https://example.com"));
    msg_text.append_text(" ğŸŸ cute ");
    msg_text.append_text_with_entity("https://example.com", MessageEntityKind::Url);
    msg_text.append_text(" ğŸ± å–µå‘œ");

    assert_eq!(
        msg_text.text(),
        "meow ğŸ“ link ğŸŸ cute https://example.com ğŸ± å–µå‘œ"
    );
    assert_eq!(
        msg_text.extract_semantics(),
        "meow ğŸ“ link ğŸŸ cute  ğŸ± å–µå‘œ"
    );
}

fn bytes_of(text: &str, index: usize) -> usize {
    text.char_indices()
        .map(|(at, _)| at)
        .chain([text.len()])
        .nth(index)
        .unwrap()
}

#[test]
fn ranges_agree_with_teloxide() {
    let text = "🐱a喵🥰 b\u{10000}c";
    let spans = [(0, 2), (2, 1), (3, 3), (0, 11), (6, 0), (7, 3), (11, 0), (10, 1)];
    let ours = MessageText::new(
        text,
        spans
            .iter()
            .map(|&(offset, length)| MessageEntity {
                kind: MessageEntityKind::Bold,
                offset,
                length,
            })
            .collect(),
    );
    assert!(ours.is_aligned());
    let theirs: Vec<teloxide::types::MessageEntity> = spans
        .iter()
        .map(|&(offset, length)| teloxide::types::MessageEntity {
            kind: teloxide::types::MessageEntityKind::Bold,
            offset,
            length,
        })
        .collect();
    let expected = teloxide::types::MessageEntityRef::parse(text, &theirs);
    let ranges = ours.parse_entities();
    assert_eq!(ranges.len(), expected.len());
    for (range, entity) in ranges.iter().zip(&expected) {
        assert_eq!(bytes_of(text, range.start), entity.start());
        assert_eq!(bytes_of(text, range.end), entity.end());
    }
}

#[test]
fn text_from_a_string() {
    let text = MessageText::from("喵");
    assert_eq!((text.text(), text.entities().len()), ("喵", 0));
    let text = MessageText::from("呜".to_string());
    assert_eq!((text.text(), text.disable_preview()), ("呜", false));
}
