use nostaro::names::{resolve_display, DisplayInfo, ProfileDisplayCache, ProfileMetadata};
use nostaro::session::{WatchAction, WatchInput, WatchSession};
use nostaro::text::clip;
use nostaro::watch::{
    classify, compose, find_event_ref, has_root_ref, own_echo, webhook_payload, Class, Marker,
    Tag, WatchEvent, WatchTarget, CHANNEL_MESSAGE, REACTION, TEXT_NOTE,
};

fn event(author: &str, kind: u16, content: &str, tags: Vec<Tag>) -> WatchEvent {
    WatchEvent {
        author: author.to_string(),
        author_npub: format!("npub1{}", author),
        note_id: "note1this".to_string(),
        kind,
        content: content.to_string(),
        tags,
    }
}

fn event_ref(id: &str, marker: Option<Marker>) -> Tag {
    Tag::Event {
        event_id: id.to_string(),
        note_id: Some(format!("note1{}", id)),
        marker,
    }
}

fn metadata(name: Option<&str>, display_name: Option<&str>, picture: Option<&str>) -> ProfileMetadata {
    ProfileMetadata {
        name: name.map(|s| s.to_string()),
        display_name: display_name.map(|s| s.to_string()),
        picture: picture.map(|s| s.to_string()),
    }
}

fn is_next(action: &WatchAction) -> bool {
    matches!(action, WatchAction::Next)
}

#[test]
fn clip_leaves_short_text_alone() {
    assert_eq!(clip("hello", 3, 5), "hello");
    assert_eq!(clip("", 0, 0), "");
    let exact: String = "x".repeat(2000);
    assert_eq!(clip(&exact, 1997, 2000), exact);
}

#[test]
fn clip_cuts_long_text_by_characters() {
    assert_eq!(clip("hello!", 3, 5), "hel...");
    let long: String = "é".repeat(2001);
    let cut = clip(&long, 1997, 2000);
    assert_eq!(cut.chars().count(), 2000);
    assert_eq!(cut, format!("{}...", "é".repeat(1997)));
}

#[test]
fn display_name_comes_first() {
    let info = resolve_display("npub1x", &Some(metadata(Some("al"), Some("Alice"), Some("http://pic"))));
    assert_eq!(info.name, "Alice");
    assert_eq!(info.avatar.unwrap(), "http://pic");
}

#[test]
fn name_stands_in_for_a_missing_or_empty_display_name() {
    let info = resolve_display("npub1x", &Some(metadata(Some("al"), None, None)));
    assert_eq!(info.name, "al");
    assert!(info.avatar.is_none());
    let info = resolve_display("npub1x", &Some(metadata(Some("al"), Some(""), Some(""))));
    assert_eq!(info.name, "al");
    assert!(info.avatar.is_none());
    let info = resolve_display("npub1x", &Some(metadata(Some(""), Some(""), None)));
    assert_eq!(info.name, "");
}

#[test]
fn identifier_stands_in_when_nothing_is_known() {
    assert_eq!(resolve_display("npub1x", &None).name, "npub1x");
    assert!(resolve_display("npub1x", &None).avatar.is_none());
    assert_eq!(resolve_display("npub1x", &Some(metadata(None, None, None))).name, "npub1x");
    assert_eq!(resolve_display("npub1x", &Some(metadata(Some(""), None, None))).name, "npub1x");
    assert_eq!(resolve_display("npub1x", &Some(metadata(None, Some(""), None))).name, "npub1x");
}

#[test]
fn display_cache_keeps_the_first_entry() {
    let mut names = ProfileDisplayCache::new();
    assert!(names.get("pk1").is_none());
    names.remember("pk1", DisplayInfo { name: "first".to_string(), avatar: None });
    names.remember("pk1", DisplayInfo { name: "second".to_string(), avatar: Some("a".to_string()) });
    names.remember("pk2", DisplayInfo { name: "other".to_string(), avatar: Some("b".to_string()) });
    let one = names.get("pk1").unwrap();
    assert_eq!(one.name, "first");
    assert!(one.avatar.is_none());
    let two = names.get("pk2").unwrap();
    assert_eq!(two.name, "other");
    assert_eq!(two.avatar.unwrap(), "b");
    assert!(names.get("pk3").is_none());
}

#[test]
fn classification_by_kind_and_tags() {
    let channel = Some("abc".to_string());
    let hit = event("a", CHANNEL_MESSAGE, "hi", vec![Tag::Custom, event_ref("abc", Some(Marker::Root))]);
    assert_eq!(classify(&hit, &channel), Class::Channel);
    assert_eq!(classify(&hit, &None), Class::Skip);
    let other_root = event("a", CHANNEL_MESSAGE, "hi", vec![event_ref("xyz", Some(Marker::Root))]);
    assert_eq!(classify(&other_root, &channel), Class::Skip);
    let not_root = event("a", CHANNEL_MESSAGE, "hi", vec![event_ref("abc", Some(Marker::Reply)), event_ref("abc", None)]);
    assert_eq!(classify(&not_root, &channel), Class::Skip);
    let reply = event("a", TEXT_NOTE, "hi", vec![Tag::PublicKey { public_key: "p".to_string() }, event_ref("e", None)]);
    assert_eq!(classify(&reply, &channel), Class::Reply);
    let mention = event("a", TEXT_NOTE, "hi", vec![Tag::PublicKey { public_key: "p".to_string() }]);
    assert_eq!(classify(&mention, &None), Class::Mention);
    assert_eq!(classify(&event("a", REACTION, "", vec![]), &None), Class::Reaction);
    assert_eq!(classify(&event("a", 0, "", vec![]), &channel), Class::Skip);
    assert_eq!(classify(&event("a", 6, "", vec![]), &None), Class::Skip);
}

#[test]
fn tag_searches() {
    let tags = vec![Tag::Custom, event_ref("e1", None), event_ref("e2", Some(Marker::Root))];
    assert_eq!(find_event_ref(&tags), Some(1));
    assert_eq!(find_event_ref(&vec![Tag::Custom]), None);
    assert_eq!(find_event_ref(&Vec::new()), None);
    assert!(has_root_ref(&tags, &"e2".to_string()));
    assert!(!has_root_ref(&tags, &"e1".to_string()));
    assert!(!has_root_ref(&Vec::new(), &"e1".to_string()));
}

#[test]
fn own_events_are_echoes_except_channel_messages() {
    let own = "me".to_string();
    assert!(own_echo(&event("me", TEXT_NOTE, "", vec![]), &own));
    assert!(own_echo(&event("me", REACTION, "", vec![]), &own));
    assert!(!own_echo(&event("me", CHANNEL_MESSAGE, "", vec![]), &own));
    assert!(!own_echo(&event("you", TEXT_NOTE, "", vec![]), &own));
}

#[test]
fn message_texts() {
    let ch = event("a", CHANNEL_MESSAGE, "hello all", vec![]);
    assert_eq!(
        compose(&ch, Class::Channel, "Alice", None),
        "**Alice**\nnpub: npub1a\nnote: note1this\n\nhello all"
    );
    let note = event("a", TEXT_NOTE, "hi there", vec![]);
    assert_eq!(
        compose(&note, Class::Reply, "Alice", None),
        "📩 **リプライ** from Alice\n> hi there\n🔗 note1this"
    );
    assert_eq!(
        compose(&note, Class::Mention, "Alice", None),
        "📩 **メンション** from Alice\n> hi there\n🔗 note1this"
    );
    assert_eq!(compose(&note, Class::Skip, "Alice", None), "");
}

#[test]
fn reaction_texts() {
    let bare = event("a", REACTION, "", vec![]);
    assert_eq!(
        compose(&bare, Class::Reaction, "Alice", None),
        "**Alice** reacted 👍\nnpub: npub1a\nnote: unknown"
    );
    let plus = event("a", REACTION, "+", vec![Tag::Custom, event_ref("e1", None), event_ref("e2", None)]);
    assert_eq!(
        compose(&plus, Class::Reaction, "Alice", Some("the original")),
        "**Alice** reacted +\nnpub: npub1a\n\n> the original\nnote: note1e1"
    );
    let long: String = "y".repeat(201);
    assert_eq!(
        compose(&plus, Class::Reaction, "Alice", Some(&long)),
        format!("**Alice** reacted +\nnpub: npub1a\n\n> {}...\nnote: note1e1", "y".repeat(200))
    );
    let exact: String = "y".repeat(200);
    assert_eq!(
        compose(&plus, Class::Reaction, "Alice", Some(&exact)),
        format!("**Alice** reacted +\nnpub: npub1a\n\n> {}\nnote: note1e1", exact)
    );
    let nameless = event(
        "a",
        REACTION,
        "+",
        vec![Tag::Event { event_id: "e1".to_string(), note_id: None, marker: None }],
    );
    assert_eq!(
        compose(&nameless, Class::Reaction, "Alice", None),
        "**Alice** reacted +\nnpub: npub1a\nnote: unknown"
    );
}

#[test]
fn webhook_payload_counts_characters_not_bytes() {
    let sender = DisplayInfo { name: "B".to_string(), avatar: None };
    let exact: String = "é".repeat(2000);
    assert_eq!(webhook_payload(&exact, &sender).content, exact);
    let over: String = "é".repeat(2001);
    let cut = webhook_payload(&over, &sender).content;
    assert_eq!(cut.chars().count(), 2000);
    assert_eq!(cut, format!("{}...", "é".repeat(1997)));
}

#[test]
fn webhook_payload_is_cut_to_the_limit() {
    let sender = DisplayInfo { name: "Alice".to_string(), avatar: Some("http://a".to_string()) };
    let payload = webhook_payload("short", &sender);
    assert_eq!(payload.content, "short");
    assert_eq!(payload.username, "Alice");
    assert_eq!(payload.avatar_url.unwrap(), "http://a");
    let long: String = "z".repeat(2001);
    let payload = webhook_payload(&long, &DisplayInfo { name: "B".to_string(), avatar: None });
    assert_eq!(payload.content, format!("{}...", "z".repeat(1997)));
    assert!(payload.avatar_url.is_none());
}

#[test]
fn watch_target_subscriptions() {
    let own = WatchTarget { npub: None, channel_id: None, webhook_url: "u".to_string() };
    assert!(own.watches_mentions());
    assert!(!own.watches_channel());
    let channel = WatchTarget { npub: None, channel_id: Some("c".to_string()), webhook_url: "u".to_string() };
    assert!(!channel.watches_mentions());
    assert!(channel.watches_channel());
    let both = WatchTarget { npub: Some("n".to_string()), channel_id: Some("c".to_string()), webhook_url: "u".to_string() };
    assert!(both.watches_mentions());
    assert!(both.watches_channel());
}

#[test]
fn channel_message_of_another_channel_is_not_delivered() {
    let mut session = WatchSession::new("me".to_string(), Some("abc".to_string()));
    let incoming = event("you", CHANNEL_MESSAGE, "hi", vec![event_ref("xyz", Some(Marker::Root))]);
    let mut deliveries = 0;
    let mut fetches = 0;
    let first = session.step(WatchInput::Notification(incoming));
    if matches!(first, WatchAction::Deliver { .. }) {
        deliveries += 1;
    }
    if matches!(first, WatchAction::FetchProfile { .. } | WatchAction::FetchOriginal { .. }) {
        fetches += 1;
    }
    assert!(is_next(&first));
    assert!(session.is_idle());
    assert_eq!(deliveries, 0);
    assert_eq!(fetches, 0);
}

#[test]
fn channel_message_without_a_watched_channel_is_not_delivered() {
    let mut session = WatchSession::new("me".to_string(), None);
    let incoming = event("you", CHANNEL_MESSAGE, "hi", vec![event_ref("abc", Some(Marker::Root))]);
    assert!(is_next(&session.step(WatchInput::Notification(incoming))));
    assert!(session.is_idle());
}

#[test]
fn skipped_event_costs_no_fetch_and_leaves_no_memory() {
    let mut session = WatchSession::new("me".to_string(), Some("abc".to_string()));
    assert!(is_next(&session.step(WatchInput::Notification(event("them", 6, "", vec![])))));
    assert!(is_next(&session.step(WatchInput::Notification(event("them", 0, "x", vec![])))));
    let other = event("them", CHANNEL_MESSAGE, "hi", vec![event_ref("abc", Some(Marker::Reply))]);
    assert!(is_next(&session.step(WatchInput::Notification(other))));
    assert!(session.is_idle());
    // The author was not resolved on the way: the first relayed event asks for the profile.
    match session.step(WatchInput::Notification(event("them", TEXT_NOTE, "x", vec![]))) {
        WatchAction::FetchProfile { pubkey } => assert_eq!(pubkey, "them"),
        _ => panic!("a profile fetch comes first"),
    }
}

#[test]
fn bare_reaction_is_delivered_when_the_original_cannot_be_had() {
    let mut session = WatchSession::new("me".to_string(), None);
    let incoming = event("you", REACTION, "", vec![event_ref("e1", None)]);
    assert!(matches!(session.step(WatchInput::Notification(incoming)), WatchAction::FetchProfile { .. }));
    match session.step(WatchInput::Profile(Some(metadata(Some("you"), Some("You"), Some("http://pic"))))) {
        WatchAction::FetchOriginal { event_id } => assert_eq!(event_id, "e1"),
        _ => panic!("the original is asked for"),
    }
    match session.step(WatchInput::Original(None)) {
        WatchAction::Deliver { message, payload } => {
            assert_eq!(message, "**You** reacted 👍\nnpub: npub1you\nnote: note1e1");
            assert_eq!(payload.content, message);
            assert_eq!(payload.username, "You");
            assert_eq!(payload.avatar_url.unwrap(), "http://pic");
        }
        _ => panic!("the reaction is delivered"),
    }
    assert!(!session.is_idle());
    assert!(is_next(&session.step(WatchInput::Delivered(None))));
    assert!(session.is_idle());
}

#[test]
fn reaction_quotes_the_original() {
    let mut session = WatchSession::new("me".to_string(), None);
    let incoming = event("you", REACTION, "🔥", vec![event_ref("e1", None)]);
    session.step(WatchInput::Notification(incoming));
    session.step(WatchInput::Profile(None));
    match session.step(WatchInput::Original(Some("what was said".to_string()))) {
        WatchAction::Deliver { message, payload } => {
            assert_eq!(message, "**npub1you** reacted 🔥\nnpub: npub1you\n\n> what was said\nnote: note1e1");
            assert_eq!(payload.username, "npub1you");
            assert!(payload.avatar_url.is_none());
        }
        _ => panic!("the reaction is delivered"),
    }
}

#[test]
fn reaction_without_a_reference_is_delivered_at_once() {
    let mut session = WatchSession::new("me".to_string(), None);
    session.step(WatchInput::Notification(event("you", REACTION, "", vec![])));
    match session.step(WatchInput::Profile(None)) {
        WatchAction::Deliver { message, .. } => {
            assert_eq!(message, "**npub1you** reacted 👍\nnpub: npub1you\nnote: unknown");
        }
        _ => panic!("the reaction is delivered"),
    }
}

#[test]
fn own_note_is_passed_over_and_own_channel_message_is_delivered() {
    let mut session = WatchSession::new("me".to_string(), Some("abc".to_string()));
    assert!(is_next(&session.step(WatchInput::Notification(event("me", TEXT_NOTE, "mine", vec![])))));
    assert!(session.is_idle());
    assert!(is_next(&session.step(WatchInput::Notification(event("me", REACTION, "+", vec![])))));
    let own = event("me", CHANNEL_MESSAGE, "to all", vec![event_ref("abc", Some(Marker::Root))]);
    match session.step(WatchInput::Notification(own)) {
        WatchAction::FetchProfile { pubkey } => assert_eq!(pubkey, "me"),
        _ => panic!("a profile fetch comes first"),
    }
    match session.step(WatchInput::Profile(Some(metadata(Some("myself"), None, None)))) {
        WatchAction::Deliver { message, payload } => {
            assert_eq!(message, "**myself**\nnpub: npub1me\nnote: note1this\n\nto all");
            assert_eq!(payload.content, message);
            assert_eq!(payload.username, "myself");
        }
        _ => panic!("the channel message is delivered"),
    }
}

#[test]
fn failed_delivery_is_reported_and_the_next_notification_is_processed() {
    let mut session = WatchSession::new("me".to_string(), None);
    session.step(WatchInput::Notification(event("you", TEXT_NOTE, "one", vec![])));
    assert!(matches!(session.step(WatchInput::Profile(None)), WatchAction::Deliver { .. }));
    match session.step(WatchInput::Delivered(Some("Discord webhook failed (500): oops".to_string()))) {
        WatchAction::Report { line } => {
            assert_eq!(line, "Webhook error: Discord webhook failed (500): oops");
        }
        _ => panic!("the failure is reported"),
    }
    assert!(session.is_idle());
    match session.step(WatchInput::Notification(event("you", TEXT_NOTE, "two", vec![event_ref("e", None)]))) {
        WatchAction::Deliver { message, .. } => {
            assert_eq!(message, "📩 **リプライ** from npub1you\n> two\n🔗 note1this");
        }
        _ => panic!("the next note is delivered"),
    }
}

#[test]
fn an_author_is_fetched_once_per_session() {
    let mut session = WatchSession::new("me".to_string(), None);
    session.step(WatchInput::Notification(event("you", TEXT_NOTE, "one", vec![])));
    session.step(WatchInput::Profile(Some(metadata(Some("first"), None, None))));
    session.step(WatchInput::Delivered(None));
    match session.step(WatchInput::Notification(event("you", TEXT_NOTE, "two", vec![]))) {
        WatchAction::Deliver { message, payload } => {
            assert_eq!(message, "📩 **メンション** from first\n> two\n🔗 note1this");
            assert_eq!(payload.username, "first");
        }
        _ => panic!("the remembered name is used"),
    }
    // The memory is kept by author: another author is fetched in turn.
    session.step(WatchInput::Delivered(None));
    assert!(matches!(
        session.step(WatchInput::Notification(event("them", TEXT_NOTE, "x", vec![]))),
        WatchAction::FetchProfile { .. }
    ));
}

#[test]
fn answers_that_were_not_asked_for_return_the_session_to_idle() {
    let mut session = WatchSession::new("me".to_string(), None);
    assert!(is_next(&session.step(WatchInput::Profile(None))));
    assert!(is_next(&session.step(WatchInput::Original(Some("x".to_string())))));
    assert!(is_next(&session.step(WatchInput::Delivered(Some("late".to_string())))));
    assert!(session.is_idle());
    session.step(WatchInput::Notification(event("you", TEXT_NOTE, "one", vec![])));
    assert!(is_next(&session.step(WatchInput::Original(None))));
    assert!(session.is_idle());
}

#[test]
fn long_note_goes_out_cut_but_is_shown_in_full() {
    let mut session = WatchSession::new("me".to_string(), None);
    let long: String = "w".repeat(3000);
    session.step(WatchInput::Notification(event("you", TEXT_NOTE, &long, vec![])));
    match session.step(WatchInput::Profile(None)) {
        WatchAction::Deliver { message, payload } => {
            assert!(message.chars().count() > 3000);
            assert_eq!(payload.content.chars().count(), 2000);
            assert!(payload.content.ends_with("..."));
            let head: String = message.chars().take(1997).collect();
            assert_eq!(payload.content, format!("{}...", head));
        }
        _ => panic!("the note is delivered"),
    }
}
