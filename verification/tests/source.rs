use tgbot_mastodon_sync::cmd::arg::{ArgError, PostArgs};
use tgbot_mastodon_sync::handler::post::{
    append_source, begin, build_status, finished, help_reply, needs_linked_chat, progress, render,
    transferred, Begin, Failure, Progress, Rendered, Transfer,
};
use tgbot_mastodon_sync::link::link_target;
use tgbot_mastodon_sync::mastodon::{Language, Visibility};
use tgbot_mastodon_sync::text::{MessageEntity, MessageEntityKind, MessageText};
use tgbot_mastodon_sync::util::chat::{chat_display_name, Chat, ChatKind, User};
use tgbot_mastodon_sync::util::handle::ResponseKind;
use tgbot_mastodon_sync::util::media::MediaKind;
use tgbot_mastodon_sync::util::msg::{is_from_linked_channel, ForwardedFrom, Message};

fn user(id: u64, first: &str, last: Option<&str>, username: Option<&str>) -> User {
    User {
        id,
        first_name: first.to_string(),
        last_name: last.map(str::to_string),
        username: username.map(str::to_string),
    }
}

fn channel(id: i64, title: &str, username: Option<&str>) -> Chat {
    Chat {
        id,
        kind: ChatKind::Public {
            title: Some(title.to_string()),
            is_channel: true,
            username: username.map(str::to_string),
        },
    }
}

fn group(id: i64, title: &str) -> Chat {
    Chat {
        id,
        kind: ChatKind::Public {
            title: Some(title.to_string()),
            is_channel: false,
            username: None,
        },
    }
}

fn message(from: Option<User>, sender_chat: Option<Chat>, forward: Option<ForwardedFrom>) -> Message {
    Message {
        id: 7,
        chat: group(-100, "a group"),
        from,
        sender_chat,
        forward,
        media_group_id: None,
        media: Some(MediaKind::Poll),
    }
}

fn footer(enable: Option<bool>, msg: &Message, trigger: Option<&User>, linked: bool) -> (bool, String) {
    let mut text = MessageText::new("body", vec![]);
    let with_src = append_source(&mut text, enable, msg, trigger, linked);
    assert!(text.entities().is_empty());
    (with_src, text.text().to_string())
}

fn reply_text(kind: &ResponseKind) -> &str {
    match kind {
        ResponseKind::ReplyTo(text) => text.text(),
        _ => panic!("no reply"),
    }
}

#[test]
fn source_of_a_forwarded_message() {
    let alice = user(1, "Alice", Some("Liddell"), Some("alice"));
    let bob = user(2, "Bob", None, None);
    let msg = message(Some(bob.clone()), None, Some(ForwardedFrom::User(alice)));
    assert_eq!(
        footer(None, &msg, Some(&bob), false),
        (true, "body\n\n-----\nFrom \"Alice Liddell\" (@alice)".to_string())
    );
    let msg = message(
        Some(bob.clone()),
        None,
        Some(ForwardedFrom::Chat(channel(-5, "News", Some("news")))),
    );
    assert_eq!(
        footer(Some(true), &msg, Some(&bob), false),
        (true, "body\n\n-----\nFrom \"News\" (@news)".to_string())
    );
    let msg = message(
        Some(bob.clone()),
        None,
        Some(ForwardedFrom::SenderName("Hidden One".to_string())),
    );
    assert_eq!(
        footer(None, &msg, Some(&bob), false),
        (true, "body\n\n-----\nFrom \"Hidden One\"".to_string())
    );
}

#[test]
fn source_is_left_out_on_request() {
    let alice = user(1, "Alice", None, None);
    let msg = message(Some(alice.clone()), None, Some(ForwardedFrom::User(alice)));
    assert_eq!(footer(Some(false), &msg, None, false), (false, "body".to_string()));
}

#[test]
fn own_message_has_no_source_unless_asked_for() {
    let bob = user(2, "Bob", None, Some("bob"));
    let msg = message(Some(bob.clone()), None, None);
    assert_eq!(footer(None, &msg, Some(&bob), false), (false, "body".to_string()));
    assert_eq!(
        footer(Some(true), &msg, Some(&bob), false),
        (true, "body\n\n-----\nFrom \"Bob\" (@bob)".to_string())
    );
    let carol = user(3, "Carol", None, None);
    assert_eq!(
        footer(None, &msg, Some(&carol), false),
        (true, "body\n\n-----\nFrom \"Bob\" (@bob)".to_string())
    );
    assert_eq!(
        footer(None, &msg, None, false),
        (true, "body\n\n-----\nFrom \"Bob\" (@bob)".to_string())
    );
}

#[test]
fn stand_in_users_are_no_senders() {
    let anonymous = user(1087968824, "Group", None, Some("GroupAnonymousBot"));
    assert!(anonymous.is_anonymous());
    assert!(!anonymous.is_channel());
    let msg = message(Some(anonymous), None, None);
    assert_eq!(footer(Some(true), &msg, None, false), (false, "body".to_string()));
    let stand_in = user(136817688, "Channel", None, Some("Channel_Bot"));
    assert!(stand_in.is_channel());
    assert!(!stand_in.is_anonymous());
    let msg = message(Some(stand_in), None, None);
    assert_eq!(footer(Some(true), &msg, None, false), (false, "body".to_string()));
    assert!(!user(42, "A", None, None).is_anonymous());
    assert!(!user(42, "A", None, None).is_channel());
}

#[test]
fn sender_chat_comes_before_the_user() {
    let bob = user(2, "Bob", None, None);
    let msg = message(Some(bob.clone()), Some(group(-9, "The Group")), None);
    assert_eq!(
        footer(None, &msg, Some(&bob), false),
        (true, "body\n\n-----\nFrom \"The Group\"".to_string())
    );
    // A channel is left out unless the source is asked for.
    let msg = message(Some(bob.clone()), Some(channel(-5, "News", Some("news"))), None);
    assert_eq!(footer(None, &msg, Some(&bob), false), (false, "body".to_string()));
    assert_eq!(
        footer(Some(true), &msg, Some(&bob), false),
        (true, "body\n\n-----\nFrom \"News\" (@news)".to_string())
    );
}

#[test]
fn forward_from_the_linked_channel_names_the_sender_instead() {
    let bob = user(2, "Bob", None, None);
    let news = channel(-5, "News", Some("news"));
    let msg = message(
        Some(bob.clone()),
        Some(news.clone()),
        Some(ForwardedFrom::Chat(news)),
    );
    assert!(needs_linked_chat(&msg, None));
    assert!(needs_linked_chat(&msg, Some(true)));
    assert!(!needs_linked_chat(&msg, Some(false)));
    assert_eq!(is_from_linked_channel(&msg, Some(-5)), Some(true));
    assert_eq!(is_from_linked_channel(&msg, Some(-6)), Some(false));
    assert_eq!(is_from_linked_channel(&msg, None), Some(false));
    // Linked: the forward is passed over, and the channel that sent is left out.
    assert_eq!(footer(None, &msg, Some(&bob), true), (false, "body".to_string()));
    assert_eq!(
        footer(Some(true), &msg, Some(&bob), true),
        (true, "body\n\n-----\nFrom \"News\" (@news)".to_string())
    );
    let plain = message(Some(bob), None, None);
    assert!(!needs_linked_chat(&plain, None));
    assert_eq!(is_from_linked_channel(&plain, Some(-5)), None);
}

#[test]
fn names_of_chats() {
    assert_eq!(chat_display_name(&group(1, "Title")), "Title");
    let private = |first: Option<&str>, last: Option<&str>| Chat {
        id: 1,
        kind: ChatKind::Private {
            first_name: first.map(str::to_string),
            last_name: last.map(str::to_string),
            username: Some("name".to_string()),
        },
    };
    assert_eq!(chat_display_name(&private(Some("A"), Some("B"))), "A B");
    assert_eq!(chat_display_name(&private(Some("A"), None)), "A");
    assert_eq!(chat_display_name(&private(None, Some("B"))), "B");
    assert_eq!(chat_display_name(&private(None, None)), "Untitled Chat");
    assert_eq!(private(None, None).username(), Some(&"name".to_string()));
    assert!(!private(None, None).is_channel());
    assert!(channel(1, "c", None).is_channel());
    let untitled = Chat {
        id: 1,
        kind: ChatKind::Public {
            title: None,
            is_channel: false,
            username: None,
        },
    };
    assert_eq!(chat_display_name(&untitled), "Untitled Chat");
    assert_eq!(user(1, "A", Some("B"), None).full_name(), "A B");
    assert_eq!(user(1, "A", None, None).full_name(), "A");
}

#[test]
fn render_detects_names_the_source_and_writes_links() {
    let url = link_target("https://example.com").unwrap();
    let mut text = MessageText::new("", vec![]);
    text.append_text("Read ");
    text.append_text_link("this", url);
    text.append_text(" now");
    let bob = user(2, "Bob", None, None);
    let alice = user(1, "Alice", None, Some("alice"));
    let msg = message(Some(alice), None, None);
    let body = text.text().to_string();
    let rendered = render(&body, text.into_entities(), None, &msg, Some(&bob), false);
    assert_eq!(
        rendered.status,
        "Read [this](https://example.com/) now\n\n-----\nFrom \"Alice\" (@alice)"
    );
    assert!(rendered.is_formatted);
    assert!(rendered.with_src);
    assert_eq!(rendered.language.unwrap().to_name(), "English");
}

#[test]
fn render_of_a_blank_text_has_no_language() {
    let msg = message(None, None, None);
    let rendered = render(" \n", vec![], None, &msg, None, false);
    assert_eq!(
        rendered,
        Rendered {
            status: " \n".to_string(),
            is_formatted: false,
            language: None,
            with_src: false,
        }
    );
    let tag = MessageEntity {
        kind: MessageEntityKind::Hashtag,
        offset: 0,
        length: 4,
    };
    let rendered = render("#tag", vec![tag], None, &msg, None, false);
    assert_eq!(rendered.language, None);
    assert_eq!(rendered.status, "#tag");
}

#[test]
fn status_is_public_and_marks_markup() {
    let rendered = Rendered {
        status: "[a](https://b.example/)".to_string(),
        is_formatted: true,
        language: Some(Language::eng()),
        with_src: false,
    };
    let status = build_status(rendered, true, vec!["1".to_string(), "2".to_string()], true);
    assert_eq!(status.status, "[a](https://b.example/)");
    assert_eq!(status.visibility, Visibility::Public);
    assert_eq!(status.language, Some(Language::eng()));
    assert_eq!(status.media_ids, Some(vec!["1".to_string(), "2".to_string()]));
    assert_eq!(status.sensitive, Some(true));
    assert_eq!(status.content_type, Some("text/markdown".to_string()));

    let rendered = Rendered {
        status: "plain".to_string(),
        is_formatted: false,
        language: None,
        with_src: false,
    };
    let status = build_status(rendered, false, vec![], false);
    assert_eq!(status.media_ids, None);
    assert_eq!(status.sensitive, None);
    assert_eq!(status.content_type, None);
    assert_eq!(status.language, None);
}

#[test]
fn what_a_transfer_gave() {
    assert_eq!(
        transferred(Transfer::NoFile("gone".to_string())),
        Err(Failure::FileMeta("gone".to_string()))
    );
    assert_eq!(
        transferred(Transfer::Moved {
            download: Some("cut".to_string()),
            attach: Err("refused".to_string())
        }),
        Err(Failure::Download("cut".to_string()))
    );
    assert_eq!(
        transferred(Transfer::Moved {
            download: None,
            attach: Err("refused".to_string())
        }),
        Err(Failure::Attach("refused".to_string()))
    );
    assert_eq!(
        transferred(Transfer::Moved {
            download: None,
            attach: Ok("id-1".to_string())
        }),
        Ok("id-1".to_string())
    );
}

#[test]
fn texts_of_the_failures() {
    let text = |f: Failure| reply_text(&f.reply().kind).to_string();
    assert_eq!(
        text(Failure::Arguments(ArgError::SignWithValue)),
        "Failed to parse arguments.\n\n+/-option with =value is not supported yet"
    );
    assert_eq!(text(Failure::NoUser), "No user.");
    assert_eq!(
        text(Failure::NoLogin),
        "Please use /auth to link your mastodon account first."
    );
    assert_eq!(
        text(Failure::MediaQuery("db".to_string())),
        "Failed to query media.\n\ndb"
    );
    assert_eq!(text(Failure::UnsupportedMedia), "Contains unsupported media.");
    assert_eq!(
        text(Failure::FileMeta("e".to_string())),
        "Failed to get file meta.\n\ne"
    );
    assert_eq!(
        text(Failure::Download("e".to_string())),
        "Failed to download file.\n\ne"
    );
    assert_eq!(
        text(Failure::Attach("e".to_string())),
        "Failed to attach media.\n\ne"
    );
    assert_eq!(
        text(Failure::BuildStatus("e".to_string())),
        "Failed to build status.\n\ne"
    );
    assert_eq!(
        text(Failure::PostStatus("timeout waiting for server processing media".to_string())),
        "Failed to post status on mastodon.\n\ntimeout waiting for server processing media"
    );
}

#[test]
fn how_the_command_begins() {
    assert!(matches!(
        begin("", true, true),
        Begin::Proceed(PostArgs { help: false, src: None })
    ));
    assert!(matches!(
        begin("  +src ", true, true),
        Begin::Proceed(PostArgs { help: false, src: Some(true) })
    ));
    assert!(matches!(
        begin("-src", true, true),
        Begin::Proceed(PostArgs { help: false, src: Some(false) })
    ));
    assert!(matches!(begin("help", false, false), Begin::Help));
    assert!(matches!(begin("+src help", true, true), Begin::Help));
    assert!(matches!(begin("", false, true), Begin::Fail(Failure::NoUser)));
    assert!(matches!(begin("", true, false), Begin::Help));
    assert!(matches!(
        begin("+src=1", true, true),
        Begin::Fail(Failure::Arguments(ArgError::SignWithValue))
    ));
    match begin("src", true, true) {
        Begin::Fail(failure) => assert_eq!(
            reply_text(&failure.reply().kind),
            "Failed to parse arguments.\n\nunrecognized or ill-formed argument: src"
        ),
        _ => panic!("accepted"),
    }
    match begin("+help", true, true) {
        Begin::Fail(failure) => assert_eq!(
            reply_text(&failure.reply().kind),
            "Failed to parse arguments.\n\nunrecognized or ill-formed argument: truehelp"
        ),
        _ => panic!("accepted"),
    }
    assert!(reply_text(&help_reply().kind).starts_with("Usage: reply /post [option]* to a message\n\nOptions:\n  help   : show this help message\n  +/-src : force enable / disable"));
}

#[test]
fn texts_of_the_progress() {
    assert_eq!(
        progress(Progress::Processing { index: 0, total: 3 }),
        ("Processing media... (1/3)".to_string(), false)
    );
    assert_eq!(
        progress(Progress::Processing { index: 11, total: 12 }),
        ("Processing media... (12/12)".to_string(), false)
    );
    assert_eq!(
        progress(Progress::Detecting),
        ("Detecting content language...".to_string(), true)
    );
    assert_eq!(progress(Progress::Posting), ("Posting status...".to_string(), true));
}

#[test]
fn text_of_the_success() {
    let zho = Language::from_639_3("zho").unwrap();
    let reply = finished("https://m.example/@a/1", Some(&zho), true);
    match &reply.kind {
        ResponseKind::ReplyTo(text) => {
            assert_eq!(
                text.text(),
                "Synchronized successfully. \n\n(zh, w/ src)\nhttps://m.example/@a/1"
            );
            assert!(text.disable_preview());
            assert!(text.entities().is_empty());
        }
        _ => panic!("no reply"),
    }
    let gha = Language::from_639_3("gha").unwrap();
    assert_eq!(
        reply_text(&finished("*invisible*", Some(&gha), false).kind),
        "Synchronized successfully. \n\n(??, w/o src)\n*invisible*"
    );
    assert_eq!(
        reply_text(&finished("u", None, false).kind),
        "Synchronized successfully. \n\n(w/o src)\nu"
    );
}
