use icy_matrix::channel::Channel;
use icy_matrix::client::{Client, ProfileUpdate};
use icy_matrix::event::{guild_data_event, profile_event, Event, EventSource, PostProcessEvent};
use icy_matrix::message::{IncomingMessage, Message, MessageId, Override};
use icy_matrix::send::retry_after_failure;

fn pending(tx: u64, content: &str) -> Message {
    Message {
        id: MessageId::Unack(tx),
        sender: 5,
        content: content.to_string(),
        attachments: vec![],
        overrides: None,
    }
}

fn incoming(id: u64, sender: u64, content: &str) -> IncomingMessage {
    IncomingMessage {
        message_id: id,
        sender,
        content: content.to_string(),
        attachments: vec![],
        overrides: None,
    }
}

/// A store for user 5 with guild 1 and its channel 2.
fn store() -> Client {
    let mut c = Client::new(Some(5));
    let f = c.process_event(Event::GuildAddedToList { guild_id: 1, homeserver: "hs".to_string() });
    assert_eq!(f, vec![PostProcessEvent::FetchGuildData(1)]);
    c.process_event(Event::CreatedChannel {
        guild_id: 1,
        channel_id: 2,
        name: "chat".to_string(),
        is_category: false,
    });
    c
}

fn ids(c: &Client) -> Vec<MessageId> {
    c.get_channel(1, 2).unwrap().messages.iter().map(|m| m.id).collect()
}

#[test]
fn send_then_confirm_leaves_one_confirmed_message() {
    let mut c = store();
    let req = c.send_message(1, 2, pending(42, "hi"), 0).unwrap();
    assert_eq!(req.retry_after, 0);
    assert_eq!(req.message.id, MessageId::Unack(42));
    assert_eq!(req.message.content, "hi");
    assert_eq!(ids(&c), vec![MessageId::Unack(42)]);
    assert!(c.on_message_sent(1, 2, 42, 999));
    let ch = c.get_channel(1, 2).unwrap();
    assert_eq!(ch.messages.len(), 1);
    assert_eq!(ch.messages[0].id, MessageId::Ack(999));
    assert_eq!(ch.messages[0].content, "hi");
}

#[test]
fn delete_after_confirm_empties_channel() {
    let mut c = store();
    c.send_message(1, 2, pending(42, "hi"), 0).unwrap();
    c.on_message_sent(1, 2, 42, 999);
    let f = c.process_event(Event::DeletedMessage { guild_id: 1, channel_id: 2, message_id: 999 });
    assert!(f.is_empty());
    assert!(c.get_channel(1, 2).unwrap().messages.is_empty());
}

#[test]
fn channel_edit_without_flag_keeps_name() {
    let mut c = store();
    c.process_event(Event::EditedChannel {
        guild_id: 1,
        channel_id: 2,
        name: "general".to_string(),
        update_name: false,
    });
    assert_eq!(c.get_channel(1, 2).unwrap().name, "chat");
    c.process_event(Event::EditedChannel {
        guild_id: 1,
        channel_id: 2,
        name: "general".to_string(),
        update_name: true,
    });
    assert_eq!(c.get_channel(1, 2).unwrap().name, "general");
}

#[test]
fn two_failures_raise_backoff_without_second_insert() {
    let mut c = store();
    let first = c.send_message(1, 2, pending(7, "x"), 0).unwrap();
    assert_eq!(first.retry_after, 0);
    let again = retry_after_failure(first);
    assert_eq!(again.retry_after, 1);
    let second = c.send_message(1, 2, again.message, again.retry_after).unwrap();
    assert_eq!(second.retry_after, 1);
    let third = retry_after_failure(second);
    assert_eq!(third.retry_after, 2);
    let last = c.send_message(1, 2, third.message, third.retry_after).unwrap();
    assert_eq!(last.retry_after, 2);
    assert_eq!(last.message.id, MessageId::Unack(7));
    assert_eq!(ids(&c), vec![MessageId::Unack(7)]);
}

#[test]
fn backoff_saturates_at_the_largest_delay() {
    let mut c = store();
    let req = c.send_message(1, 2, pending(7, "x"), u64::MAX).unwrap();
    assert_eq!(retry_after_failure(req).retry_after, u64::MAX);
    assert!(c.get_channel(1, 2).unwrap().messages.is_empty());
}

#[test]
fn send_to_missing_channel_does_nothing() {
    let mut c = store();
    assert!(c.send_message(1, 3, pending(1, "x"), 0).is_none());
    assert!(c.send_message(9, 2, pending(1, "x"), 0).is_none());
    assert!(ids(&c).is_empty());
}

#[test]
fn repeated_optimistic_insert_keeps_one_placeholder() {
    let mut ch = Channel::new("c".to_string(), false);
    ch.insert_unconfirmed(pending(3, "a"));
    ch.insert_unconfirmed(pending(4, "b"));
    ch.insert_unconfirmed(pending(3, "a2"));
    let got: Vec<MessageId> = ch.messages.iter().map(|m| m.id).collect();
    assert_eq!(got, vec![MessageId::Unack(3), MessageId::Unack(4)]);
    assert_eq!(ch.messages[0].content, "a2");
}

#[test]
fn confirmation_without_placeholder_changes_nothing() {
    let mut c = store();
    c.send_message(1, 2, pending(1, "a"), 0).unwrap();
    assert!(c.on_message_sent(1, 2, 77, 500));
    assert_eq!(ids(&c), vec![MessageId::Unack(1)]);
    let mut ch = Channel::new("c".to_string(), false);
    assert!(!ch.apply_send_echo(77, 500));
    assert!(ch.messages.is_empty());
}

#[test]
fn confirmation_keeps_position() {
    let mut ch = Channel::new("c".to_string(), false);
    ch.insert_unconfirmed(pending(1, "a"));
    ch.insert_unconfirmed(pending(2, "b"));
    ch.insert_unconfirmed(pending(3, "c"));
    assert!(ch.apply_send_echo(2, 20));
    let got: Vec<MessageId> = ch.messages.iter().map(|m| m.id).collect();
    assert_eq!(got, vec![MessageId::Unack(1), MessageId::Ack(20), MessageId::Unack(3)]);
    assert_eq!(ch.messages[1].content, "b");
}

#[test]
fn server_echo_replaces_placeholder_or_appends() {
    let mut c = store();
    c.send_message(1, 2, pending(42, "hi"), 0).unwrap();
    let f = c.process_event(Event::SentMessage {
        echo_id: 42,
        guild_id: 1,
        channel_id: 2,
        message: incoming(999, 5, "hi"),
    });
    assert_eq!(f, vec![PostProcessEvent::GoToFirstMsgOnChannel(2)]);
    assert_eq!(ids(&c), vec![MessageId::Ack(999)]);
    let mut m = incoming(1000, 8, "yo");
    m.attachments = vec!["f1".to_string(), "f2".to_string()];
    let f = c.process_event(Event::SentMessage { echo_id: 3, guild_id: 1, channel_id: 2, message: m });
    assert_eq!(
        f,
        vec![
            PostProcessEvent::FetchThumbnail("f1".to_string()),
            PostProcessEvent::FetchThumbnail("f2".to_string())
        ]
    );
    assert_eq!(ids(&c), vec![MessageId::Ack(999), MessageId::Ack(1000)]);
    assert_eq!(c.get_channel(1, 2).unwrap().messages[1].attachments.len(), 2);
}

#[test]
fn echo_then_own_confirmation_does_not_duplicate() {
    let mut c = store();
    c.send_message(1, 2, pending(42, "hi"), 0).unwrap();
    c.process_event(Event::SentMessage {
        echo_id: 42,
        guild_id: 1,
        channel_id: 2,
        message: incoming(999, 5, "hi"),
    });
    assert!(c.on_message_sent(1, 2, 42, 999));
    assert_eq!(ids(&c), vec![MessageId::Ack(999)]);
}

#[test]
fn event_for_missing_channel_is_ignored() {
    let mut c = store();
    let f = c.process_event(Event::SentMessage {
        echo_id: 1,
        guild_id: 1,
        channel_id: 3,
        message: incoming(5, 5, "x"),
    });
    assert!(f.is_empty());
    assert!(c.get_channel(1, 3).is_none());
    c.process_event(Event::DeletedMessage { guild_id: 4, channel_id: 2, message_id: 5 });
    assert!(c.get_guild(4).is_none());
}

#[test]
fn delete_targets_confirmed_identity_only() {
    let mut ch = Channel::new("c".to_string(), false);
    ch.insert_unconfirmed(pending(9, "p"));
    ch.prepend_history(vec![incoming(9, 1, "old")], false);
    ch.apply_delete(9);
    let got: Vec<MessageId> = ch.messages.iter().map(|m| m.id).collect();
    assert_eq!(got, vec![MessageId::Unack(9)]);
}

#[test]
fn edit_without_content_flag_keeps_content() {
    let mut c = store();
    c.process_event(Event::SentMessage {
        echo_id: 0,
        guild_id: 1,
        channel_id: 2,
        message: incoming(10, 8, "first"),
    });
    c.process_event(Event::EditedMessage {
        guild_id: 1,
        channel_id: 2,
        message_id: 10,
        content: String::new(),
        update_content: false,
    });
    assert_eq!(c.get_channel(1, 2).unwrap().messages[0].content, "first");
    c.process_event(Event::EditedMessage {
        guild_id: 1,
        channel_id: 2,
        message_id: 10,
        content: "second".to_string(),
        update_content: true,
    });
    assert_eq!(c.get_channel(1, 2).unwrap().messages[0].content, "second");
}

#[test]
fn history_pages_prepend_in_order() {
    let mut a = store();
    a.process_event(Event::SentMessage {
        echo_id: 0,
        guild_id: 1,
        channel_id: 2,
        message: incoming(50, 8, "now"),
    });
    assert!(a.set_loading_history(1, 2, true));
    assert!(a.get_channel(1, 2).unwrap().loading_messages_history);
    assert!(a.process_get_message_history_response(
        1,
        2,
        vec![incoming(30, 8, "c"), incoming(40, 8, "d")],
        false
    ));
    assert!(!a.get_channel(1, 2).unwrap().loading_messages_history);
    assert!(!a.get_channel(1, 2).unwrap().reached_top);
    a.process_get_message_history_response(1, 2, vec![incoming(10, 8, "a"), incoming(20, 8, "b")], true);
    let mut b = store();
    b.process_event(Event::SentMessage {
        echo_id: 0,
        guild_id: 1,
        channel_id: 2,
        message: incoming(50, 8, "now"),
    });
    b.process_get_message_history_response(
        1,
        2,
        vec![incoming(10, 8, "a"), incoming(20, 8, "b"), incoming(30, 8, "c"), incoming(40, 8, "d")],
        true,
    );
    let expected: Vec<MessageId> = [10, 20, 30, 40, 50].iter().map(|i| MessageId::Ack(*i)).collect();
    assert_eq!(ids(&a), expected);
    assert_eq!(ids(&b), expected);
    assert!(a.get_channel(1, 2).unwrap().reached_top);
    assert!(!a.process_get_message_history_response(1, 9, vec![], true));
}

#[test]
fn channel_creation_keeps_existing_messages() {
    let mut c = store();
    c.send_message(1, 2, pending(1, "a"), 0).unwrap();
    c.process_event(Event::CreatedChannel {
        guild_id: 1,
        channel_id: 2,
        name: "renamed".to_string(),
        is_category: true,
    });
    let ch = c.get_channel(1, 2).unwrap();
    assert_eq!(ch.name, "renamed");
    assert!(ch.is_category);
    assert_eq!(ch.messages.len(), 1);
    c.process_event(Event::DeletedChannel { guild_id: 1, channel_id: 2 });
    assert!(c.get_channel(1, 2).is_none());
}

#[test]
fn typing_creates_member_and_asks_profile() {
    let mut c = store();
    let f = c.process_event(Event::Typing { guild_id: 1, channel_id: 2, user_id: 8 });
    assert_eq!(f, vec![PostProcessEvent::FetchProfile(8)]);
    assert_eq!(c.get_member(1, 8).unwrap().typing_in_channel, Some(2));
    assert!(c.get_member(1, 8).unwrap().username.is_none());
    let f = c.process_event(Event::Typing { guild_id: 1, channel_id: 3, user_id: 8 });
    assert!(f.is_empty());
    assert_eq!(c.get_member(1, 8).unwrap().typing_in_channel, Some(3));
    let f = c.process_event(Event::Typing { guild_id: 7, channel_id: 3, user_id: 8 });
    assert!(f.is_empty());
}

#[test]
fn profile_update_sets_flagged_fields_in_every_guild() {
    let mut c = store();
    c.process_event(Event::GuildAddedToList { guild_id: 4, homeserver: "hs".to_string() });
    c.process_event(Event::Typing { guild_id: 1, channel_id: 2, user_id: 8 });
    c.process_event(Event::Typing { guild_id: 4, channel_id: 6, user_id: 8 });
    c.process_event(Event::ProfileUpdated(ProfileUpdate {
        user_id: 8,
        new_username: "ann".to_string(),
        update_username: true,
        new_avatar: "pic".to_string(),
        update_avatar: false,
        new_status: 2,
        update_status: true,
        is_bot: true,
        update_is_bot: false,
    }));
    for g in [1u64, 4] {
        let m = c.get_member(g, 8).unwrap();
        assert_eq!(m.username.as_deref(), Some("ann"));
        assert!(m.avatar_url.is_none());
        assert_eq!(m.status, 2);
        assert!(!m.is_bot);
    }
    assert_eq!(c.get_member(4, 8).unwrap().typing_in_channel, Some(6));
}

#[test]
fn guild_metadata_sets_flagged_fields() {
    let mut c = store();
    c.send_message(1, 2, pending(1, "a"), 0).unwrap();
    let f = c.process_event(Event::GuildAddedToList { guild_id: 1, homeserver: "other".to_string() });
    assert!(f.is_empty());
    assert_eq!(c.get_guild(1).unwrap().homeserver, "other");
    assert_eq!(ids(&c), vec![MessageId::Unack(1)]);
    assert_eq!(c.get_channel(1, 2).unwrap().name, "chat");
    c.process_event(Event::EditedGuild {
        guild_id: 1,
        name: "home".to_string(),
        update_name: true,
        picture: "p".to_string(),
        update_picture: false,
    });
    let g = c.get_guild(1).unwrap();
    assert_eq!(g.name.as_deref(), Some("home"));
    assert!(g.picture.is_none());
}

#[test]
fn batch_applies_in_order_and_collects_follow_ups() {
    let mut c = Client::new(None);
    let f = c.process_events(vec![
        Event::GuildAddedToList { guild_id: 3, homeserver: "a".to_string() },
        Event::CreatedChannel { guild_id: 3, channel_id: 1, name: "x".to_string(), is_category: false },
        Event::Typing { guild_id: 3, channel_id: 1, user_id: 2 },
        Event::GuildAddedToList { guild_id: 5, homeserver: "b".to_string() },
    ]);
    assert_eq!(
        f,
        vec![
            PostProcessEvent::FetchGuildData(3),
            PostProcessEvent::FetchProfile(2),
            PostProcessEvent::FetchGuildData(5)
        ]
    );
    assert!(c.get_channel(3, 1).is_some());
    assert_eq!(c.subscribe_to(), vec![EventSource::Guild(3), EventSource::Guild(5)]);
}

#[test]
fn duplicate_copies_every_field() {
    let m = Message {
        id: MessageId::Unack(1),
        sender: 2,
        content: "c".to_string(),
        attachments: vec!["a".to_string()],
        overrides: Some(Override {
            name: "bot".to_string(),
            avatar_url: Some("u".to_string()),
            reason: "r".to_string(),
        }),
    };
    let d = m.duplicate();
    assert_eq!(d.id, m.id);
    assert_eq!(d.content, "c");
    assert_eq!(d.attachments, vec!["a".to_string()]);
    let o = d.overrides.unwrap();
    assert_eq!(o.name, "bot");
    assert_eq!(o.avatar_url.as_deref(), Some("u"));
    assert_eq!(MessageId::Unack(4).transaction_id(), Some(4));
    assert_eq!(MessageId::Ack(4).transaction_id(), None);
    assert_eq!(MessageId::Ack(4).message_id(), Some(4));
}

#[test]
fn confirmation_then_echo_does_not_duplicate() {
    let mut c = store();
    c.send_message(1, 2, pending(1, "before"), 0).unwrap();
    c.send_message(1, 2, pending(42, "hi"), 0).unwrap();
    c.send_message(1, 2, pending(2, "after"), 0).unwrap();
    assert!(c.on_message_sent(1, 2, 42, 999));
    c.process_event(Event::SentMessage {
        echo_id: 42,
        guild_id: 1,
        channel_id: 2,
        message: incoming(999, 5, "hi (edited)"),
    });
    assert_eq!(ids(&c), vec![MessageId::Unack(1), MessageId::Ack(999), MessageId::Unack(2)]);
    assert_eq!(c.get_channel(1, 2).unwrap().messages[1].content, "hi (edited)");
}

#[test]
fn fetched_profile_and_guild_become_full_updates() {
    let mut c = store();
    c.process_event(Event::Typing { guild_id: 1, channel_id: 2, user_id: 8 });
    let e = profile_event(8, "ann".to_string(), "pic".to_string(), 3, true);
    match &e {
        Event::ProfileUpdated(p) => {
            assert!(p.update_username && p.update_avatar && p.update_status && p.update_is_bot);
            assert_eq!((p.user_id, p.new_status, p.is_bot), (8, 3, true));
        }
        other => panic!("unexpected event {:?}", other),
    }
    c.process_event(e);
    let m = c.get_member(1, 8).unwrap();
    assert_eq!(m.username.as_deref(), Some("ann"));
    assert_eq!(m.avatar_url.as_deref(), Some("pic"));
    assert_eq!((m.status, m.is_bot), (3, true));
    c.process_event(guild_data_event(1, "home".to_string(), "p".to_string()));
    let g = c.get_guild(1).unwrap();
    assert_eq!(g.name.as_deref(), Some("home"));
    assert_eq!(g.picture.as_deref(), Some("p"));
}
