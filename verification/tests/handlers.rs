use tgbot_mastodon_sync::cmd::arg::{parse_words, Arg, ArgError, ArgValue, Args, PostArgs};
use tgbot_mastodon_sync::cmd::Command;
use tgbot_mastodon_sync::config::{package, BOT_TOKEN_ENV_VAR, DB_URL_ENV_VAR};
use tgbot_mastodon_sync::chars::{chars_of, find_char, is_space_char, same_text, split_words, write_decimal};
use tgbot_mastodon_sync::handler::auth::{auth, revoke, status_reply, AuthReply, AuthStep};
use tgbot_mastodon_sync::handler::{
    broadcast, handle, handle_command, handle_kind, require_admin, require_private, Origin, Route,
    BROADCAST_TITLE, POST_TITLE,
};
use tgbot_mastodon_sync::text::{mtb, MessageEntity, MessageEntityKind, MessageText};
use tgbot_mastodon_sync::utf16::{units_of, utf16_count};
use tgbot_mastodon_sync::util::handle::{RequestKind, Response, ResponseKind};
use tgbot_mastodon_sync::util::progmsg::{Cleanup, ProgMsg, Show};

fn text_of(resp: &Response) -> String {
    match &resp.kind {
        ResponseKind::ReplyTo(text) | ResponseKind::NewMsg(text) => text.text().to_string(),
        ResponseKind::Nothing => panic!("no text"),
    }
}

fn origin(private: bool, from: Option<u64>, admin: Option<u64>) -> Origin {
    Origin { private, from, admin }
}

#[test]
fn single_arguments() {
    assert_eq!(
        Arg::parse("name"),
        Ok(Arg { name: "name".to_string(), value: None })
    );
    assert_eq!(
        Arg::parse("+on"),
        Ok(Arg { name: "on".to_string(), value: Some(ArgValue::Bool(true)) })
    );
    assert_eq!(
        Arg::parse("-off"),
        Ok(Arg { name: "off".to_string(), value: Some(ArgValue::Bool(false)) })
    );
    assert_eq!(
        Arg::parse("k=v=w"),
        Ok(Arg { name: "k".to_string(), value: Some(ArgValue::KV("v=w".to_string())) })
    );
    assert_eq!(
        Arg::parse("=v"),
        Ok(Arg { name: "".to_string(), value: Some(ArgValue::KV("v".to_string())) })
    );
    assert_eq!(
        Arg::parse("+"),
        Ok(Arg { name: "".to_string(), value: Some(ArgValue::Bool(true)) })
    );
    assert_eq!(Arg::parse(""), Ok(Arg { name: "".to_string(), value: None }));
    assert_eq!(Arg::parse("+a=b"), Err(ArgError::SignWithValue));
    assert_eq!(Arg::parse("-="), Err(ArgError::SignWithValue));
}

#[test]
fn arguments_as_they_are_shown() {
    assert_eq!(Arg::parse("name").unwrap().to_text(), "name");
    assert_eq!(Arg::parse("+on").unwrap().to_text(), "trueon");
    assert_eq!(Arg::parse("-off").unwrap().to_text(), "falseoff");
    assert_eq!(Arg::parse("k=v").unwrap().to_text(), "k=v");
    assert_eq!(
        ArgError::SignWithValue.message(),
        "+/-option with =value is not supported yet"
    );
    assert_eq!(
        ArgError::Unrecognized(Arg::parse("k=v").unwrap()).message(),
        "unrecognized or ill-formed argument: k=v"
    );
}

#[test]
fn lines_of_arguments() {
    let args = parse_words(" a  +b\tc=d\n").unwrap();
    assert_eq!(args.len(), 3);
    assert_eq!(args[2].name, "c");
    assert_eq!(parse_words("a +b=c d"), Err(ArgError::SignWithValue));
    assert_eq!(parse_words("").unwrap().len(), 0);
    assert_eq!(
        PostArgs::parse("-src help"),
        Ok(PostArgs { help: true, src: Some(false) })
    );
    assert_eq!(
        PostArgs::parse("+src -src"),
        Ok(PostArgs { help: false, src: Some(false) })
    );
    assert_eq!(
        PostArgs::parse("src=1"),
        Err(ArgError::Unrecognized(Arg {
            name: "src".to_string(),
            value: Some(ArgValue::KV("1".to_string()))
        }))
    );
    // A word that is no argument is reported before one that is refused.
    assert_eq!(PostArgs::parse("bogus +a=b"), Err(ArgError::SignWithValue));
    assert_eq!(PostArgs::fresh(), PostArgs { help: false, src: None });
}

#[test]
fn words_and_numbers() {
    assert_eq!(split_words("  a\u{3000}bc \n d\u{a0}"), vec!["a", "bc", "d"]);
    assert!(split_words(" \t ").is_empty());
    assert!(is_space_char('\u{2028}'));
    assert!(!is_space_char('\u{200b}'));
    assert_eq!(chars_of("a🐱"), vec!['a', '🐱']);
    assert_eq!(find_char(&chars_of("ab=c="), '='), 2);
    assert_eq!(find_char(&chars_of("abc"), '='), 3);
    assert!(same_text("喵", "喵"));
    assert!(!same_text("a", "ab"));
    assert!(!same_text("ab", "ac"));
    assert_eq!(write_decimal(0), "0");
    assert_eq!(write_decimal(7), "7");
    assert_eq!(write_decimal(10), "10");
    assert_eq!(write_decimal(1087968824), "1087968824");
    assert_eq!(write_decimal(usize::MAX), usize::MAX.to_string());
}

#[test]
fn lengths_in_code_units() {
    assert_eq!(units_of('a'), 1);
    assert_eq!(units_of('喵'), 1);
    assert_eq!(units_of('\u{ffff}'), 1);
    assert_eq!(units_of('\u{10000}'), 2);
    assert_eq!(units_of('🐱'), 2);
    assert_eq!(utf16_count(""), 0);
    assert_eq!(utf16_count("喵呜🐱🥰"), 6);
    assert_eq!(utf16_count("a🐱b"), "a🐱b".encode_utf16().count());
}

#[test]
fn entities_stay_in_bounds_under_any_composition() {
    let mut text = MessageText::new("", vec![]);
    text.append_text_with_entity("🐱🥰", MessageEntityKind::Bold);
    text.prepend_text("喵🐱");
    text.append(mtb().plain("x").italic("🥰y").build());
    text.prepend(mtb().code("🐱").plain("🐱").build());
    text.prepend_text_with_entity("🥰", MessageEntityKind::Spoiler);
    let len = utf16_count(text.text());
    assert_eq!(text.text(), "🥰🐱🐱喵🐱🐱🥰x🥰y");
    assert_eq!(
        text.entities(),
        &vec![
            MessageEntity { kind: MessageEntityKind::Spoiler, offset: 0, length: 2 },
            MessageEntity { kind: MessageEntityKind::Code, offset: 2, length: 2 },
            MessageEntity { kind: MessageEntityKind::Bold, offset: 9, length: 4 },
            MessageEntity { kind: MessageEntityKind::Italic, offset: 14, length: 3 },
        ]
    );
    for e in text.entities() {
        assert!(e.offset + e.length <= len);
    }
    assert!(MessageText::fits(text.text(), text.entities()));
    assert!(text.is_aligned());
    let ranges = text.parse_entities();
    assert_eq!((ranges[2].start, ranges[2].end), (5, 7));
    assert_eq!((ranges[3].start, ranges[3].end), (8, 10));
}

#[test]
fn entities_that_do_not_fit_or_cut_a_character() {
    let bold = |offset, length| MessageEntity { kind: MessageEntityKind::Bold, offset, length };
    assert!(MessageText::fits("🐱a", &vec![bold(0, 3)]));
    assert!(!MessageText::fits("🐱a", &vec![bold(0, 4)]));
    assert!(!MessageText::fits("🐱a", &vec![bold(4, 0)]));
    assert!(!MessageText::fits("🐱a", &vec![bold(1, usize::MAX)]));
    assert!(MessageText::new("🐱a", vec![bold(0, 2), bold(2, 1), bold(3, 0)]).is_aligned());
    // In bounds, but inside the pair of code units of the first character.
    assert!(!MessageText::new("🐱a", vec![bold(1, 1)]).is_aligned());
    assert!(!MessageText::new("🐱a", vec![bold(0, 1)]).is_aligned());
}

#[test]
fn extraction_removes_what_non_semantic_entities_cover() {
    let mut text = MessageText::new("", vec![]);
    text.append_text_with_entity("@someone", MessageEntityKind::Mention);
    text.append_text(" says ");
    text.append_text_with_entity("hello", MessageEntityKind::Bold);
    text.append_text(" ");
    text.append_text_with_entity("fn main() {}", MessageEntityKind::Pre { language: None });
    text.append_text_with_entity("🐱", MessageEntityKind::CustomEmoji {
        custom_emoji_id: "1".to_string(),
    });
    text.append_text_with_entity("code", MessageEntityKind::Code);
    assert_eq!(text.extract_semantics(), " says hello code");
    assert!(MessageEntityKind::Cashtag.non_semantic());
    assert!(MessageEntityKind::BotCommand.non_semantic());
    assert!(MessageEntityKind::Email.non_semantic());
    assert!(MessageEntityKind::PhoneNumber.non_semantic());
    assert!(!MessageEntityKind::TextMention { user_id: 1 }.non_semantic());
    assert!(!MessageEntityKind::Underline.non_semantic());
}

#[test]
fn extraction_of_overlapping_and_unordered_entities() {
    let e = |kind, offset, length| MessageEntity { kind, offset, length };
    // The entities come later-in-text first, and two of them overlap.
    let text = MessageText::new(
        "0123456789ab",
        vec![
            e(MessageEntityKind::Url, 5, 5),
            e(MessageEntityKind::Hashtag, 2, 6),
            e(MessageEntityKind::Italic, 0, 12),
        ],
    );
    assert_eq!(text.extract_semantics(), "01ab");
    assert_eq!(MessageText::new("abc", vec![]).extract_semantics(), "abc");
}

#[test]
fn progress_message_lists_the_steps() {
    let mut prog = ProgMsg::new("Synchronizing...");
    assert_eq!(prog.format(None), "Synchronizing...\n\n");
    assert_eq!(prog.on_drop(), Cleanup::Nothing);
    assert_eq!(
        prog.update("Processing media... (1/2)", false),
        ("Synchronizing...\n\n- Processing media... (1/2)".to_string(), Show::Send)
    );
    prog.sent(99);
    // A step that does not stay is replaced by the next that does not stay.
    assert_eq!(
        prog.update("Processing media... (2/2)", false),
        ("Synchronizing...\n\n- Processing media... (2/2)".to_string(), Show::Edit(99))
    );
    // It joins the list when a step begins that stays.
    assert_eq!(
        prog.update("Detecting content language...", true),
        (
            "Synchronizing...\n\n- Processing media... (2/2) done\n- Detecting content language..."
                .to_string(),
            Show::Edit(99)
        )
    );
    assert_eq!(
        prog.update("Posting status...", true).0,
        "Synchronizing...\n\n- Processing media... (2/2) done\n- Detecting content language... done\n- Posting status..."
    );
    assert_eq!(prog.on_drop(), Cleanup::Delete(99));
    prog.set_delete_on_drop(false);
    assert_eq!(
        prog.on_drop(),
        Cleanup::Edit(
            99,
            "Synchronizing...\n\n- Processing media... (2/2) done\n- Detecting content language... done\n- Posting status... done\n".to_string()
        )
    );
}

#[test]
fn progress_message_takes_the_reply() {
    let mut prog = ProgMsg::new("t");
    // Not sent yet: the answer is passed on.
    let (left, edit) = prog.map(Response::reply_to_text("done"));
    assert_eq!(text_of(&left), "done");
    assert!(edit.is_none());
    prog.update("step", true);
    prog.sent(5);
    let (left, edit) = prog.map_res(Err(Response::reply_to_text("failed")));
    assert!(matches!(left, Err(Response { kind: ResponseKind::Nothing })));
    let (id, text) = edit.unwrap();
    assert_eq!((id, text.text()), (5, "failed"));
    assert_eq!(prog.on_drop(), Cleanup::Nothing);
    let (left, edit) = prog.map_res(Ok(Response::new_msg(MessageText::new("new", vec![]))));
    assert_eq!(text_of(&left.unwrap()), "new");
    assert!(edit.is_none());
    let (left, edit) = prog.map(Response::nothing());
    assert!(matches!(left.kind, ResponseKind::Nothing));
    assert!(edit.is_none());
}

#[test]
fn failures_are_sent_behind_a_warning_sign() {
    let out = handle(Ok(Response::reply_to_text("fine"))).unwrap();
    assert_eq!((out.text.text(), out.reply), ("fine", true));
    let mut text = MessageText::new("", vec![]);
    text.append_text_with_entity("bad", MessageEntityKind::Bold);
    let out = handle(Err(Response::new_msg(text))).unwrap();
    assert_eq!((out.text.text(), out.reply), ("⚠️ bad", false));
    assert_eq!(
        out.text.entities(),
        &vec![MessageEntity { kind: MessageEntityKind::Bold, offset: 3, length: 3 }]
    );
    assert!(handle(Ok(Response::nothing())).is_none());
    assert!(handle(Err(Response::nothing())).is_none());
}

#[test]
fn commands_are_routed() {
    let anyone = origin(false, Some(1), Some(2));
    match handle_command(Command::Ping, anyone) {
        Route::Respond(Err(resp)) => assert_eq!(text_of(&resp), "Pong!"),
        _ => panic!("ping"),
    }
    match handle_command(Command::Debug("echo".to_string()), anyone) {
        Route::Respond(Err(resp)) => assert_eq!(text_of(&resp), "echo"),
        _ => panic!("debug"),
    }
    match handle_command(Command::Start, anyone) {
        Route::Respond(Ok(resp)) => {
            assert_eq!(
                text_of(&resp),
                "Synchronizes Telegram messages to Mastodon.\n\nSend me /auth in direct message to start.\n\n(Open sourced on GitHub, so you can self-host it)"
            );
            match resp.kind {
                ResponseKind::ReplyTo(text) => {
                    assert!(text.disable_preview());
                    assert_eq!(text.entities().len(), 4);
                    assert_eq!(
                        text.entities()[2],
                        MessageEntity {
                            kind: MessageEntityKind::TextLink {
                                url: "https://github.com/SpriteOvO/tgbot-mastodon-sync".to_string()
                            },
                            offset: 105,
                            length: 6,
                        }
                    );
                }
                _ => panic!("start"),
            }
        }
        _ => panic!("start"),
    }
    match handle_command(Command::Auth("m.example".to_string()), anyone) {
        Route::Respond(Err(resp)) => assert_eq!(
            text_of(&resp),
            "This command is only available in direct messages."
        ),
        _ => panic!("auth in public"),
    }
    assert!(matches!(
        handle_command(Command::Auth("m.example".to_string()), origin(true, Some(1), None)),
        Route::Auth(arg) if arg == "m.example"
    ));
    assert!(matches!(
        handle_command(Command::Revoke, origin(true, Some(1), None)),
        Route::Revoke
    ));
    assert!(matches!(
        handle_command(Command::Revoke, anyone),
        Route::Respond(Err(_))
    ));
    assert!(matches!(
        handle_command(Command::Post("+src".to_string()), anyone),
        Route::Post(arg) if arg == "+src"
    ));
    assert!(matches!(
        handle_command(Command::Broadcast("hi".to_string()), origin(false, Some(2), Some(2))),
        Route::Broadcast(arg) if arg == "hi"
    ));
    assert!(matches!(
        handle_command(Command::Broadcast("hi".to_string()), anyone),
        Route::Respond(Err(_))
    ));
    assert!(matches!(handle_kind(RequestKind::NewMessage, anyone), Route::CacheMedia));
    assert!(matches!(handle_kind(RequestKind::EditedMessage, anyone), Route::CacheMedia));
    assert!(matches!(
        handle_kind(RequestKind::Command(Command::Ping), anyone),
        Route::Respond(Err(_))
    ));
    assert_eq!(POST_TITLE, "Synchronizing...");
    assert_eq!(BROADCAST_TITLE, "Broadcasting...");
}

#[test]
fn who_may_give_a_command() {
    assert!(require_private(origin(true, None, None)).is_ok());
    assert!(require_private(origin(false, None, None)).is_err());
    assert!(require_admin(origin(false, Some(2), Some(2))).is_ok());
    assert_eq!(
        text_of(&require_admin(origin(false, Some(1), Some(2))).unwrap_err()),
        "🎶 Never Gonna Give You Up 🎶"
    );
    assert_eq!(
        text_of(&require_admin(origin(false, None, Some(2))).unwrap_err()),
        "🎶 Never Gonna Give You Up 🎶"
    );
    assert_eq!(
        text_of(&require_admin(origin(false, Some(2), None)).unwrap_err()),
        "Admin user id is not set or invalid.\nPlease set env var `TGBOT_MASTODON_SYNC_ADMIN_TG_USER_ID` on your server."
    );
}

#[test]
fn broadcast_needs_a_text() {
    assert!(broadcast::handle("hello").is_ok());
    assert_eq!(
        text_of(&broadcast::handle("").unwrap_err()),
        "Content cannot be empty."
    );
    assert_eq!(broadcast::report(42, None), "Boardcast to user '42' succeeded.");
    assert_eq!(
        broadcast::report(42, Some("blocked")),
        "Boardcast to user '42' failed (blocked)."
    );
}

#[test]
fn linking_an_account() {
    assert_eq!(auth(String::new(), None), AuthStep::Status);
    assert_eq!(auth(String::new(), Some("m.example".to_string())), AuthStep::Status);
    assert_eq!(
        auth("m.example".to_string(), None),
        AuthStep::AskUrl { domain: "m.example".to_string() }
    );
    assert_eq!(
        auth("c0de".to_string(), Some("m.example".to_string())),
        AuthStep::Authorize { domain: "m.example".to_string(), auth_code: "c0de".to_string() }
    );
    let status = status_reply(None);
    assert_eq!(
        text_of(&status),
        "You have not linked your mastodon account yet.\n\nformat: /auth <domain or auth-code>"
    );
    match status.kind {
        ResponseKind::ReplyTo(text) => assert_eq!(
            text.entities(),
            &vec![MessageEntity { kind: MessageEntityKind::Code, offset: 56, length: 27 }]
        ),
        _ => panic!("status"),
    }
    assert_eq!(
        text_of(&status_reply(Some("m.example"))),
        "You have already linked your mastodon account for domain 'm.example'.\n\nformat: /auth <domain or auth-code>"
    );
    let said = |reply: AuthReply| match reply.response() {
        Ok(resp) => (true, text_of(&resp)),
        Err(resp) => (false, text_of(&resp)),
    };
    assert_eq!(
        said(AuthReply::Url { url: "https://m.example/oauth".to_string() }),
        (
            true,
            "Please click this link to authorize:\n\nhttps://m.example/oauth\n\nThen send back the auth code with command /auth."
                .to_string()
        )
    );
    assert_eq!(
        said(AuthReply::UrlFailed { domain: "d".to_string(), error: "e".to_string() }),
        (false, "Failed to obtain authorization url for domain 'd'\n\ne".to_string())
    );
    assert_eq!(said(AuthReply::Authorized), (true, "Authorized successfully.".to_string()));
    assert_eq!(
        said(AuthReply::AuthorizeFailed {
            domain: "d".to_string(),
            auth_code: "c".to_string(),
            error: "e".to_string()
        }),
        (
            false,
            "Failed to authorize for domain 'd' with auth code 'c'.\n\ne\n\nPlease send /auth <domain> to restart authorization."
                .to_string()
        )
    );
    assert_eq!(
        said(AuthReply::NotLinked),
        (
            false,
            "You have not linked your mastodon account yet.\n\nUsing /auth command to link one."
                .to_string()
        )
    );
    assert_eq!(said(AuthReply::Revoked), (true, "Revoked successfully.".to_string()));
    assert_eq!(
        said(AuthReply::RevokeFailed { domain: "d".to_string(), error: "e".to_string() }),
        (false, "Failed to revoke mastodon auth for domain 'd'.\n\ne".to_string())
    );
    assert_eq!(revoke(Some("d".to_string())), Ok("d".to_string()));
    assert_eq!(revoke(None), Err(AuthReply::NotLinked));
}

#[test]
fn what_is_fixed() {
    assert_eq!(BOT_TOKEN_ENV_VAR, "TGBOT_MASTODON_SYNC_BOT_TOKEN");
    assert_eq!(DB_URL_ENV_VAR, "TGBOT_MASTODON_SYNC_DATABASE_URL");
    assert_eq!(package().name, "tgbot-mastodon-sync");
    assert_eq!(PostArgs::help().lines().next(), Some("Usage: reply /post [option]* to a message"));
}

#[test]
fn options_of_a_post_by_default() {
    assert_eq!(PostArgs::default(), PostArgs { help: false, src: None });
}
