use icy_matrix::create_channel::{ChannelCreationModal, ChannelState, Message as ModalMessage};
use icy_matrix::event::{Event, EventSource, PostProcessEvent};
use icy_matrix::manager::{contains_bytes, is_invalid_session, ClientError, Command, Message as ManagerMessage, ScreenManager};
use icy_matrix::message::{Message, MessageId};
use icy_matrix::screen::{Screen, ScreenStack};
use icy_matrix::session::Session;
use icy_matrix::supervisor::Supervisor;
use icy_matrix::thumbnail::ThumbnailCache;

fn signed_in() -> ScreenManager {
    let mut m = ScreenManager::new();
    let cmds = m.update(ManagerMessage::LoginComplete { user_id: 5 });
    assert!(matches!(cmds.as_slice(), [Command::FetchGuildList]));
    let cmds = m.update(ManagerMessage::EventsReceived(vec![Event::GuildAddedToList {
        guild_id: 1,
        homeserver: "hs".to_string(),
    }]));
    match cmds.as_slice() {
        [Command::Subscribe { generation, sources }, Command::FollowUp(PostProcessEvent::FetchGuildData(1))] => {
            assert_eq!(*generation, 1);
            assert_eq!(sources, &vec![EventSource::Guild(1)]);
        }
        other => panic!("unexpected commands {:?}", other),
    }
    m
}

#[test]
fn stale_generation_event_is_dropped() {
    let mut m = signed_in();
    assert_eq!(m.current_generation(), 1);
    let cmds = m.update(ManagerMessage::SocketEvent {
        generation: 0,
        event: Some(Event::CreatedChannel {
            guild_id: 1,
            channel_id: 2,
            name: "x".to_string(),
            is_category: false,
        }),
    });
    assert!(cmds.is_empty());
    assert!(m.client().unwrap().get_channel(1, 2).is_none());
    assert_eq!(m.current_generation(), 1);
}

#[test]
fn current_generation_event_is_applied_and_polling_continues() {
    let mut m = signed_in();
    let cmds = m.update(ManagerMessage::SocketEvent {
        generation: 1,
        event: Some(Event::CreatedChannel {
            guild_id: 1,
            channel_id: 2,
            name: "x".to_string(),
            is_category: false,
        }),
    });
    assert!(matches!(cmds.as_slice(), [Command::Receive { generation: 1 }]));
    assert!(m.client().unwrap().get_channel(1, 2).is_some());
    let cmds = m.update(ManagerMessage::SocketEvent { generation: 1, event: None });
    assert!(matches!(cmds.as_slice(), [Command::Receive { generation: 1 }]));
}

#[test]
fn events_before_sign_in_are_ignored() {
    let mut m = ScreenManager::new();
    let cmds = m.update(ManagerMessage::EventsReceived(vec![Event::GuildAddedToList {
        guild_id: 1,
        homeserver: "hs".to_string(),
    }]));
    assert!(cmds.is_empty());
    assert!(m.client().is_none());
}

#[test]
fn send_pipeline_through_manager() {
    let mut m = signed_in();
    m.update(ManagerMessage::EventsReceived(vec![Event::CreatedChannel {
        guild_id: 1,
        channel_id: 2,
        name: "x".to_string(),
        is_category: false,
    }]));
    let msg = Message {
        id: MessageId::Unack(42),
        sender: 5,
        content: "hi".to_string(),
        attachments: vec![],
        overrides: None,
    };
    let cmds = m.update(ManagerMessage::SendMessage { message: msg, retry_after: 0, guild_id: 1, channel_id: 2 });
    match cmds.as_slice() {
        [Command::Send(q)] => {
            assert_eq!(q.message.id, MessageId::Unack(42));
            assert_eq!(q.retry_after, 0);
        }
        other => panic!("unexpected commands {:?}", other),
    }
    m.update(ManagerMessage::MessageSent { message_id: 999, transaction_id: 42, guild_id: 1, channel_id: 2 });
    let ch = m.client().unwrap().get_channel(1, 2).unwrap();
    assert_eq!(ch.messages.len(), 1);
    assert_eq!(ch.messages[0].id, MessageId::Ack(999));
}

#[test]
fn socket_error_steps_generation_back_only_for_live_connection() {
    let mut m = signed_in();
    m.update(ManagerMessage::Error(ClientError::SocketError { generation: 0 }));
    assert_eq!(m.current_generation(), 1);
    m.update(ManagerMessage::Error(ClientError::SocketError { generation: 1 }));
    assert_eq!(m.current_generation(), 0);
}

#[test]
fn invalid_session_resets_to_login() {
    let mut m = signed_in();
    assert_eq!(m.screen_stack().current(), &Screen::Main);
    m.update(ManagerMessage::Error(ClientError::EndpointError { raw_error: b"other".to_vec() }));
    assert!(m.client().is_some());
    m.update(ManagerMessage::Error(ClientError::EndpointError {
        raw_error: b"error: invalid-session.".to_vec(),
    }));
    assert!(m.client().is_none());
    assert_eq!(m.screen_stack().current(), &Screen::Login { waiting: false });
}

#[test]
fn restore_marks_login_waiting_and_error_clears_it() {
    let mut m = ScreenManager::new();
    m.begin_restore();
    assert_eq!(m.screen_stack().current(), &Screen::Login { waiting: true });
    m.update(ManagerMessage::Error(ClientError::MissingLoginInfo));
    assert_eq!(m.screen_stack().current(), &Screen::Login { waiting: false });
}

#[test]
fn byte_search() {
    assert!(contains_bytes(&b"abcinvalid-session".to_vec(), &b"invalid-session".to_vec()));
    assert!(!contains_bytes(&b"invalid-sessio".to_vec(), &b"invalid-session".to_vec()));
    assert!(contains_bytes(&b"x".to_vec(), &vec![]));
    assert!(is_invalid_session(&ClientError::EndpointError { raw_error: b"invalid-session".to_vec() }));
    assert!(!is_invalid_session(&ClientError::Other("invalid-session".to_string())));
}

#[test]
fn screen_stack_never_empties() {
    let mut s = ScreenStack::new(Screen::Login { waiting: false });
    assert_eq!(s.pop(), None);
    s.push(Screen::Main);
    s.push(Screen::GuildDiscovery);
    assert_eq!(s.current(), &Screen::GuildDiscovery);
    *s.current_mut() = Screen::Logout;
    assert_eq!(s.pop(), Some(Screen::Logout));
    assert_eq!(s.current(), &Screen::Main);
    let old = s.clear(Screen::Login { waiting: true });
    assert_eq!(old, vec![Screen::Login { waiting: false }, Screen::Main]);
    assert_eq!(s.current(), &Screen::Login { waiting: true });
    assert_eq!(s.pop(), None);
}

#[test]
fn manager_pops_and_pushes_screens() {
    let mut m = ScreenManager::new();
    m.update(ManagerMessage::PushScreen(Screen::GuildDiscovery));
    assert_eq!(m.screen_stack().current(), &Screen::GuildDiscovery);
    m.update(ManagerMessage::PopScreen);
    m.update(ManagerMessage::PopScreen);
    assert_eq!(m.screen_stack().current(), &Screen::Login { waiting: false });
    assert!(m.update(ManagerMessage::Nothing).is_empty());
}

#[test]
fn supervisor_generations() {
    let mut s = Supervisor::new();
    assert_eq!(s.current(), 0);
    assert_eq!(s.resubscribe(), 1);
    assert!(s.is_current(1));
    assert!(!s.is_current(0));
    s.on_socket_error();
    s.on_socket_error();
    assert_eq!(s.current(), 0);
}

#[test]
fn channel_creation_dialog_flow() {
    let mut d = ChannelCreationModal::new();
    assert!(d.can_go_back());
    assert!(!d.can_create());
    let (req, back) = d.update(ModalMessage::ChannelNameChanged("news".to_string()), 3);
    assert!(req.is_none() && !back);
    assert!(d.can_create());
    let (req, back) = d.update(ModalMessage::CreateChannel, 3);
    let req = req.unwrap();
    assert_eq!((req.guild_id, req.name.as_str()), (3, "news"));
    assert!(!back);
    assert!(!d.can_go_back() && !d.can_create());
    d.update(ModalMessage::CreatedChannel { guild_id: 3, channel_id: 11 }, 3);
    match &d.channel_creation_state {
        ChannelState::Created { guild_id, channel_id, name } => {
            assert_eq!((*guild_id, *channel_id, name.as_str()), (3, 11, "news"));
        }
        other => panic!("unexpected state {:?}", other),
    }
    assert!(d.channel_name_field.is_empty());
    d.on_error("failed".to_string());
    assert_eq!(d.error_text, "failed");
    assert!(matches!(d.channel_creation_state, ChannelState::Idle));
    let (_, back) = d.update(ModalMessage::GoBack, 3);
    assert!(back);
    assert!(d.error_text.is_empty());
    assert!(matches!(ChannelState::default(), ChannelState::Idle));
}

#[test]
fn session_fields() {
    let s = Session::new("SECRET-REDACTED".to_string(), 7, "https://chat.example".to_string());
    assert_eq!(s.user_id, 7);
    assert_eq!(s.homeserver, "https://chat.example");
}

#[test]
fn thumbnail_cache_writes_once() {
    let mut c: ThumbnailCache<Vec<u8>> = ThumbnailCache::new();
    let id = "file-1".to_string();
    assert!(!c.has_thumbnail(&id));
    assert!(c.get_thumbnail(&id).is_none());
    c.put_thumbnail(id.clone(), vec![1, 2]);
    c.put_thumbnail(id.clone(), vec![3]);
    c.put_thumbnail("file-2".to_string(), vec![4]);
    assert!(c.has_thumbnail(&id));
    assert_eq!(c.get_thumbnail(&id), Some(&vec![1, 2]));
    assert_eq!(c.get_thumbnail(&"file-2".to_string()), Some(&vec![4]));
}

#[test]
fn confirmation_without_placeholder_leaves_manager_store() {
    let mut m = signed_in();
    let cmds = m.update(ManagerMessage::MessageSent { message_id: 9, transaction_id: 4, guild_id: 1, channel_id: 2 });
    assert!(cmds.is_empty());
    assert!(m.client().unwrap().get_channel(1, 2).is_none());
    assert_eq!(m.current_generation(), 1);
}
