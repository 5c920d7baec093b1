use tgbot_mastodon_sync::handler::post::{choose_language, detect_lang, detect_lang_inner};
use tgbot_mastodon_sync::mastodon::Language;
use tgbot_mastodon_sync::text::{MessageEntityKind, MessageText};

#[test]
fn language_detection() {
    let english = Some("eng".to_string());
    let zho = Language::from_639_3("zho").unwrap();
    let eng = Language::from_639_3("eng").unwrap();
    let jpn = Language::from_639_3("jpn").unwrap();

    {
        let mut msg_text = MessageText::new("", vec![]);
        msg_text.append_text("喵呜 ");
        msg_text.append_text_with_entity("#English ", MessageEntityKind::Hashtag);
        msg_text.append_text_with_entity("#Tags ", MessageEntityKind::Hashtag);
        msg_text.append_text_with_entity("#Hello ", MessageEntityKind::Hashtag);
        msg_text.append_text_with_entity("#World ", MessageEntityKind::Hashtag);
        msg_text.append_text_with_entity("#Example", MessageEntityKind::Hashtag);

        // without `.extract_semantics()`, false positive
        assert_eq!(detect_lang_inner(msg_text.text()), english);

        // with `.extract_semantics()`
        let result = detect_lang(&msg_text).unwrap();
        assert_eq!(result, zho);
        assert_eq!(result.to_name(), "Chinese");
    }
    {
        let mut msg_text = MessageText::new("", vec![]);
        msg_text.append_text("  \t  \n ");
        msg_text.append_text_with_entity("#English ", MessageEntityKind::Hashtag);
        msg_text.append_text_with_entity("#Tags ", MessageEntityKind::Hashtag);
        msg_text.append_text_with_entity("#Hello ", MessageEntityKind::Hashtag);
        msg_text.append_text_with_entity("#World ", MessageEntityKind::Hashtag);
        msg_text.append_text_with_entity("#Example", MessageEntityKind::Hashtag);
        msg_text.append_text("  \t  \n \n\n");

        assert!(detect_lang(&msg_text).is_none());
    }
    {
        let mut msg_text = MessageText::new("", vec![]);
        msg_text.append_text("喵呜w");

        let result = detect_lang(&msg_text).unwrap();
        assert_eq!(result, zho);
        assert_eq!(result.to_name(), "Chinese");
    }
    {
        let mut msg_text = MessageText::new("", vec![]);
        msg_text.append_text("Meow~");

        let result = detect_lang(&msg_text).unwrap();
        assert_eq!(result, eng);
        assert_eq!(result.to_name(), "English");
    }
    {
        let mut msg_text = MessageText::new("", vec![]);
        msg_text.append_text("这是一个 test");

        let result = detect_lang(&msg_text).unwrap();
        assert_eq!(result, zho);
        assert_eq!(result.to_name(), "Chinese");
    }
    {
        let mut msg_text = MessageText::new("", vec![]);
        msg_text.append_text("The word test in Chinese is 测试");

        let result = detect_lang(&msg_text).unwrap();
        assert_eq!(result, eng);
        assert_eq!(result.to_name(), "English");
    }
    {
        let mut msg_text = MessageText::new("", vec![]);
        msg_text.append_text("こんにちは 😊");

        let result = detect_lang(&msg_text).unwrap();
        assert_eq!(result, jpn);
        assert_eq!(result.to_name(), "Japanese");
    }
}

#[test]
fn language_is_looked_up_by_its_code() {
    let zho = Language::from_639_3("zho").unwrap();
    assert_eq!(zho.to_639_3(), "zho");
    assert_eq!(zho.to_639_1(), Some(&"zh".to_string()));
    assert_eq!(zho.to_name(), "Chinese");

    // A language without a two-letter code.
    let gha = Language::from_639_3("gha").unwrap();
    assert_eq!(gha.to_639_1(), None);

    assert_eq!(Language::from_639_3("zz"), None);
    assert_eq!(Language::from_639_3("xxxx"), None);
}

#[test]
fn the_fixed_english_is_the_english_of_the_table() {
    assert_eq!(Language::eng(), Language::from_639_3("eng").unwrap());
}

#[test]
fn undetected_language_falls_back_to_english() {
    assert_eq!(choose_language(None), Language::eng());
    assert_eq!(choose_language(Some("no such code".to_string())), Language::eng());
    assert_eq!(
        choose_language(Some("ukr".to_string())).to_name(),
        "Ukrainian"
    );
}
