use tg_irc_relay::{
    accept_tg_message, compose_tg_line, content_body, file_id_size, format_relay_line,
    format_tg_nick, generate_name, get_username, media_relay_enabled, plan_download,
    replace_filename, reply_attribution, route_irc_message, FileRef, IrcRoute, MessageContent,
    RelayState, ReplyInfo, TGFile, TgChat, TgRoute, TgUser, NAME_LEN,
};

fn s(x: &str) -> String {
    x.to_string()
}

fn state_with(maps: &[(&str, &str)], ids: &[(&str, i64)]) -> RelayState {
    let maps = maps.iter().map(|(g, c)| (s(g), s(c))).collect();
    let ids = ids.iter().map(|(g, i)| (s(g), *i)).collect();
    RelayState::new(maps, ids).expect("one-to-one mapping")
}

fn user(id: i64, first: &str, last: Option<&str>, handle: Option<&str>) -> TgUser {
    TgUser {
        id,
        first_name: s(first),
        last_name: last.map(s),
        username: handle.map(s),
    }
}

fn bob() -> TgUser {
    user(7, "Bob", Some("Jones"), Some("bobj"))
}

fn bot() -> TgUser {
    user(1, "Relay", None, Some("relaybot"))
}

#[test]
fn mapping_resolves_both_ways() {
    let st = state_with(&[("FooGroup", "#foo"), ("BarGroup", "#bar")], &[]);
    assert_eq!(st.tg_group_of(&s("#foo")), Some(s("FooGroup")));
    assert_eq!(st.irc_channel_of(&s("FooGroup")), Some(s("#foo")));
    assert_eq!(st.tg_group_of(&s("#bar")), Some(s("BarGroup")));
    assert_eq!(st.irc_channel_of(&s("BarGroup")), Some(s("#bar")));
    assert_eq!(st.tg_group_of(&s("#baz")), None);
    assert_eq!(st.irc_channel_of(&s("BazGroup")), None);
    assert_eq!(st.tg_group_of(&s("FooGroup")), None);
}

#[test]
fn new_rejects_mappings_that_are_not_one_to_one() {
    let dup_channel = vec![(s("A"), s("#x")), (s("B"), s("#x"))];
    assert!(RelayState::new(dup_channel, vec![]).is_none());
    let dup_group = vec![(s("A"), s("#x")), (s("A"), s("#y"))];
    assert!(RelayState::new(dup_group, vec![]).is_none());
    let dup_id = vec![(s("A"), 1), (s("A"), 2)];
    assert!(RelayState::new(vec![(s("A"), s("#x"))], dup_id).is_none());
    let empty = RelayState::new(vec![], vec![]).expect("empty mapping");
    assert_eq!(empty.tg_group_of(&s("#x")), None);
    assert!(empty.irc_queue().is_empty());
}

#[test]
fn record_chat_id_is_idempotent() {
    let mut st = state_with(&[("FooGroup", "#foo")], &[]);
    assert!(st.record_chat_id(&s("FooGroup"), 555));
    assert!(!st.record_chat_id(&s("FooGroup"), 555));
    assert_eq!(st.chat_id_entries().len(), 1);
    assert_eq!(st.chat_id_entries()[0], (s("FooGroup"), 555));
}

#[test]
fn known_chat_id_is_kept() {
    let mut st = state_with(&[("FooGroup", "#foo")], &[("FooGroup", 555)]);
    assert!(!st.record_chat_id(&s("FooGroup"), 999));
    assert_eq!(st.lookup_chat_id(&s("FooGroup")), Some(555));
    assert_eq!(st.chat_id_entries().len(), 1);
}

#[test]
fn recorded_chat_id_is_found_at_once() {
    let mut st = state_with(&[("FooGroup", "#foo")], &[("Other", 3)]);
    assert_eq!(st.lookup_chat_id(&s("FooGroup")), None);
    assert!(st.record_chat_id(&s("FooGroup"), -1001));
    assert_eq!(st.lookup_chat_id(&s("FooGroup")), Some(-1001));
    assert_eq!(st.lookup_chat_id(&s("Other")), Some(3));
    assert_eq!(st.chat_id_entries().len(), 2);
}

#[test]
fn irc_queue_keeps_order() {
    let mut st = state_with(&[], &[]);
    st.send_message_irc(s("one"));
    st.send_message_irc(s("two"));
    assert_eq!(st.irc_queue(), &vec![s("one"), s("two")]);
}

#[test]
fn filename_keeps_extension() {
    assert_eq!(replace_filename("cat.jpg", "abc123"), "abc123.jpg");
    assert_eq!(replace_filename("catfile", "abc123"), "abc123");
    assert_eq!(replace_filename("archive.tar.gz", "abc123"), "abc123.gz");
    assert_eq!(replace_filename("", "abc123"), "abc123");
}

#[test]
fn generated_name_is_six_alphanumerics() {
    let name = generate_name();
    assert_eq!(name.chars().count(), NAME_LEN);
    assert_eq!(NAME_LEN, 6);
    assert!(name.chars().all(|c| c.is_ascii_alphanumeric()));
}

#[test]
fn download_target_per_user() {
    let t = plan_download(&bob(), "photos/file_12.jpg", "abc123");
    assert_eq!(t.user_dir, "bobj");
    assert_eq!(t.file_name, "abc123.jpg");
    let anon = user(9, "Ann", None, None);
    let t = plan_download(&anon, "voice/file_3", "zz9ZZ0");
    assert_eq!(t.user_dir, "anonymous");
    assert_eq!(t.file_name, "zz9ZZ0");
    assert_eq!(get_username(&anon), "anonymous");
}

#[test]
fn irc_line_is_relayed_to_known_group() {
    let st = state_with(&[("FooGroup", "#foo")], &[("FooGroup", 555)]);
    match route_irc_message(&st, &s("#foo"), &Some(s("alice")), "hello") {
        IrcRoute::Relay { chat_id, text } => {
            assert_eq!(chat_id, 555);
            assert_eq!(text, "<alice> hello");
        }
        _ => panic!("expected a relay"),
    }
}

#[test]
fn irc_line_dropped_when_unroutable() {
    let st = state_with(&[("FooGroup", "#foo")], &[]);
    match route_irc_message(&st, &s("#foo"), &Some(s("alice")), "hello") {
        IrcRoute::UnknownChatId { group } => assert_eq!(group, "FooGroup"),
        _ => panic!("expected an unknown chat id"),
    }
    assert!(matches!(
        route_irc_message(&st, &s("#other"), &Some(s("alice")), "hello"),
        IrcRoute::Unmapped
    ));
    assert!(matches!(
        route_irc_message(&st, &s("#foo"), &None, "hello"),
        IrcRoute::NoSender
    ));
}

#[test]
fn tg_text_line() {
    let line = compose_tg_line(&bob(), &MessageContent::Text(s("hi")), None, &None, &Some(bot()));
    assert_eq!(line, "<Bob Jones> hi");
    assert_eq!(format_tg_nick(&user(2, "Ann", None, None)), "Ann");
}

#[test]
fn tg_reply_to_relayed_line() {
    let reply = Some(ReplyInfo {
        from: bot(),
        content: MessageContent::Text(s("<alice> hello")),
    });
    let line = compose_tg_line(&bob(), &MessageContent::Text(s("world")), None, &reply, &Some(bot()));
    assert_eq!(line, "<Bob Jones> alice: world");
}

#[test]
fn tg_reply_to_other_user() {
    let reply = Some(ReplyInfo {
        from: user(3, "Carol", None, None),
        content: MessageContent::Text(s("<alice> hello")),
    });
    let line = compose_tg_line(&bob(), &MessageContent::Text(s("world")), None, &reply, &Some(bot()));
    assert_eq!(line, "<Bob Jones> Carol: world");
    let line = compose_tg_line(&bob(), &MessageContent::Text(s("world")), None, &reply, &None);
    assert_eq!(line, "<Bob Jones> Carol: world");
}

#[test]
fn reply_without_leading_nick() {
    let me = Some(bot());
    let plain = Some(ReplyInfo { from: bot(), content: MessageContent::Text(s("no nick here")) });
    assert_eq!(reply_attribution(&plain, &me), None);
    let empty_nick = Some(ReplyInfo { from: bot(), content: MessageContent::Text(s("<> x")) });
    assert_eq!(reply_attribution(&empty_nick, &me), None);
    let late = Some(ReplyInfo { from: bot(), content: MessageContent::Text(s(" <bob> x")) });
    assert_eq!(reply_attribution(&late, &me), None);
    let nested = Some(ReplyInfo { from: bot(), content: MessageContent::Text(s("<a<b> c> d")) });
    assert_eq!(reply_attribution(&nested, &me), Some(s("a<b")));
    let sticker = Some(ReplyInfo { from: bot(), content: MessageContent::Sticker(None) });
    assert_eq!(reply_attribution(&sticker, &me), None);
    assert_eq!(reply_attribution(&None, &me), None);
}

#[test]
fn sticker_and_other_bodies() {
    assert_eq!(content_body(&MessageContent::Sticker(Some(s("😀")))), "(Sticker) 😀");
    assert_eq!(content_body(&MessageContent::Sticker(None)), "(Sticker)");
    assert_eq!(content_body(&MessageContent::Other), "");
    let line = compose_tg_line(&bob(), &MessageContent::Sticker(None), None, &None, &None);
    assert_eq!(line, "<Bob Jones> (Sticker)");
    assert_eq!(format_relay_line("n", ""), "<n> ");
}

#[test]
fn media_link_in_body() {
    let photo = MessageContent::Photo(vec![]);
    let line = compose_tg_line(
        &bob(),
        &photo,
        Some(s("https://example.org/bobj/abc123.jpg")),
        &None,
        &None,
    );
    assert_eq!(line, "<Bob Jones> https://example.org/bobj/abc123.jpg");
}

#[test]
fn relayable_file_of_message() {
    let small = FileRef { file_id: s("small"), file_size: Some(10) };
    let large = FileRef { file_id: s("large"), file_size: Some(99) };
    let photo = MessageContent::Photo(vec![small, large]);
    assert_eq!(file_id_size(&photo), Some((s("large"), Some(99))));
    let f = TGFile::from_message(&photo).expect("photo");
    assert_eq!(f.file_id(), "large");
    assert_eq!(f.file_size(), Some(99));
    assert_eq!(file_id_size(&MessageContent::Photo(vec![])), None);
    let doc = MessageContent::Document(FileRef { file_id: s("d"), file_size: None });
    assert_eq!(file_id_size(&doc), Some((s("d"), None)));
    let f = TGFile::from_message(&doc).expect("document without a size");
    assert_eq!(f.file_id(), "d");
    assert_eq!(f.file_size(), None);
    let voice = MessageContent::Voice(FileRef { file_id: s("v"), file_size: None });
    assert_eq!(TGFile::from_message(&voice).expect("voice").file_id(), "v");
    assert!(TGFile::from_message(&MessageContent::Sticker(None)).is_none());
    assert!(TGFile::from_message(&MessageContent::Text(s("x"))).is_none());
}

#[test]
fn media_switch() {
    assert!(media_relay_enabled(Some(true), true, true));
    assert!(!media_relay_enabled(Some(true), false, true));
    assert!(!media_relay_enabled(Some(true), true, false));
    assert!(!media_relay_enabled(Some(false), true, true));
    assert!(!media_relay_enabled(None, true, true));
}

#[test]
fn tg_message_from_unmapped_group() {
    let mut st = state_with(&[("BarGroup", "#bar")], &[]);
    let chat = TgChat::Group { id: 42, title: s("Elsewhere") };
    match accept_tg_message(&mut st, &chat, &MessageContent::Text(s("hi")), false) {
        TgRoute::Unmapped { title, discovered } => {
            assert_eq!(title, "Elsewhere");
            assert!(discovered);
        }
        _ => panic!("expected an unmapped group"),
    }
    assert_eq!(st.lookup_chat_id(&s("Elsewhere")), Some(42));
    assert!(st.irc_queue().is_empty());
}

#[test]
fn tg_message_from_mapped_group() {
    let mut st = state_with(&[("BarGroup", "#bar")], &[]);
    let chat = TgChat::Group { id: 5, title: s("BarGroup") };
    let doc = MessageContent::Document(FileRef { file_id: s("doc1"), file_size: Some(3) });
    match accept_tg_message(&mut st, &chat, &doc, true) {
        TgRoute::Relay { channel, media, discovered } => {
            assert_eq!(channel, "#bar");
            assert!(discovered);
            assert_eq!(media.expect("document").file_id(), "doc1");
        }
        _ => panic!("expected a relay"),
    }
    match accept_tg_message(&mut st, &chat, &doc, false) {
        TgRoute::Relay { media, discovered, .. } => {
            assert!(media.is_none());
            assert!(!discovered);
        }
        _ => panic!("expected a relay"),
    }
    assert!(matches!(
        accept_tg_message(&mut st, &TgChat::Other, &doc, true),
        TgRoute::NotGroup
    ));
    assert_eq!(st.chat_id_entries().len(), 1);
}

#[test]
fn unsized_document_is_relayed() {
    let mut st = state_with(&[("BarGroup", "#bar")], &[("BarGroup", 5)]);
    let chat = TgChat::Group { id: 5, title: s("BarGroup") };
    let doc = MessageContent::Document(FileRef { file_id: s("nosize"), file_size: None });
    match accept_tg_message(&mut st, &chat, &doc, true) {
        TgRoute::Relay { channel, media, discovered } => {
            assert_eq!(channel, "#bar");
            assert!(!discovered);
            let f = media.expect("document without a size is relayed");
            assert_eq!(f.file_id(), "nosize");
            assert_eq!(f.file_size(), None);
        }
        _ => panic!("expected a relay"),
    }
}
