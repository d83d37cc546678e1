use vstd::prelude::*;
use crate::client::{has_channel, ChannelOp, Client, GuildView};
use crate::event::{
    channel_event, lemma_confirm_without_placeholder, follow_ups_all, reconcile_all, Event, EventSource, PostProcessEvent,
};
use crate::channel::has_id;
use crate::message::{IncomingMessage, MessageId};
use crate::screen::{Screen, ScreenStack};
use crate::send::SendRequest;
use crate::supervisor::Supervisor;

verus! {

/// A failure reported by the network layer.
#[derive(Debug)]
pub enum ClientError {
    /// The transport of the event stream tagged `generation` failed.
    SocketError { generation: u64 },
    /// The server answered a request with an error whose body is `raw_error`.
    EndpointError { raw_error: Vec<u8> },
    /// The saved session could not be read.
    MissingLoginInfo,
    /// Any other failure, described in words.
    Other(String),
}

/// The text by which the server says that the session is no longer valid.
pub open spec fn invalid_session_marker() -> Seq<u8> {
    seq![105u8, 110, 118, 97, 108, 105, 100, 45, 115, 101, 115, 115, 105, 111, 110]
}

/// `needle` occurs in `hay` at position `i`.
pub open spec fn occurs_at(hay: Seq<u8>, needle: Seq<u8>, i: int) -> bool {
    0 <= i && i + needle.len() <= hay.len() && hay.subrange(i, i + needle.len()) == needle
}

/// `needle` occurs somewhere in `hay`.
pub open spec fn occurs(hay: Seq<u8>, needle: Seq<u8>) -> bool {
    exists|i: int| occurs_at(hay, needle, i)
}

/// The error says that the session is no longer valid.
pub open spec fn session_invalid(e: ClientError) -> bool {
    match e {
        ClientError::EndpointError { raw_error } => occurs(raw_error@, invalid_session_marker()),
        _ => false,
    }
}

/// Whether `needle` occurs in `hay` at position `i`.
fn occurs_here(hay: &Vec<u8>, needle: &Vec<u8>, i: usize) -> (r: bool)
    requires
        i + needle@.len() <= hay@.len(),
    ensures
        r == occurs_at(hay@, needle@, i as int),
{
    let hl: usize = hay.len();
    let mut j: usize = 0;
    while j < needle.len()
        invariant
            hay@.len() == hl,
            i + needle@.len() <= hay@.len(),
            j <= needle.len(),
            forall|m: int| 0 <= m < j ==> hay@[i + m] == needle@[m],
        decreases needle.len() - j,
    {
        if hay[i + j] != needle[j] {
            assert(hay@.subrange(i as int, i + needle.len())[j as int] != needle@[j as int]);
            return false;
        }
        j = j + 1;
    }
    assert(hay@.subrange(i as int, i + needle.len()) =~= needle@);
    true
}

/// Whether `needle` occurs in `hay`.
pub fn contains_bytes(hay: &Vec<u8>, needle: &Vec<u8>) -> (r: bool)
    ensures
        r == occurs(hay@, needle@),
{
    if needle.len() > hay.len() {
        return false;
    }
    let last = hay.len() - needle.len();
    let mut i: usize = 0;
    while i <= last
        invariant
            last == hay.len() - needle.len(),
            needle.len() <= hay.len(),
            forall|k: int| 0 <= k < i ==> !occurs_at(hay@, needle@, k),
        decreases last + 1 - i,
    {
        if occurs_here(hay, needle, i) {
            return true;
        }
        if i == last {
            assert forall|k: int| !occurs_at(hay@, needle@, k) by {
                if 0 <= k && k <= i {
                }
            }
            return false;
        }
        i = i + 1;
    }
    false
}

/// Whether error `e` says that the session is no longer valid.
pub fn is_invalid_session(e: &ClientError) -> (r: bool)
    ensures
        r == session_invalid(*e),
{
    match e {
        ClientError::EndpointError { raw_error } => {
            let marker: Vec<u8> = vec![105u8, 110, 118, 97, 108, 105, 100, 45, 115, 101, 115, 115, 105, 111, 110];
            assert(marker@ =~= invalid_session_marker());
            contains_bytes(raw_error, &marker)
        },
        _ => false,
    }
}

/// Work for the caller to do, with the message to hand back when it is done.
#[derive(Debug)]
pub enum Command {
    /// Subscribe to `sources`, tagging the new connection with `generation`.
    Subscribe { generation: u64, sources: Vec<EventSource> },
    /// Receive the next event on the connection tagged `generation`.
    Receive { generation: u64 },
    /// Perform a send.
    Send(SendRequest),
    /// Perform work that an event left.
    FollowUp(PostProcessEvent),
    /// Fetch the list of guilds the user belongs to.
    FetchGuildList,
}

/// Something that happened, for the manager to act on.
#[derive(Debug)]
pub enum Message {
    Nothing,
    PopScreen,
    PushScreen(Screen),
    /// The user `user_id` signed in.
    LoginComplete { user_id: u64 },
    /// The connection tagged `generation` delivered `event`, or only opened.
    SocketEvent { generation: u64, event: Option<Event> },
    EventsReceived(Vec<Event>),
    /// A page of history arrived for a channel.
    GetEventsBackwardsResponse {
        messages: Vec<IncomingMessage>,
        reached_top: bool,
        guild_id: u64,
        channel_id: u64,
    },
    /// The server confirmed the send of `transaction_id` as `message_id`.
    MessageSent { message_id: u64, transaction_id: u64, guild_id: u64, channel_id: u64 },
    /// Send `message`, waiting `retry_after` time units first.
    SendMessage { message: crate::message::Message, retry_after: u64, guild_id: u64, channel_id: u64 },
    Error(ClientError),
}

/// Some follow-up asks for a guild's metadata: a guild was added.
pub open spec fn needs_resubscribe(fus: Seq<PostProcessEvent>) -> bool {
    exists|i: int| 0 <= i < fus.len() && fus[i] is FetchGuildData
}

/// `c` subscribes, as `generation`, to every guild of `v`, each once.
pub open spec fn subscribes(c: Command, generation: u64, v: Map<u64, GuildView>) -> bool {
    match c {
        Command::Subscribe { generation: g, sources } => g == generation
            && sources@.no_duplicates() && forall|k: u64|
            v.contains_key(k) <==> sources@.contains(EventSource::Guild(k)),
        _ => false,
    }
}

/// `r` holds, from position `off`, one command for each follow-up of `fus`.
pub open spec fn forwards(r: Seq<Command>, off: int, fus: Seq<PostProcessEvent>) -> bool {
    forall|i: int| 0 <= i < fus.len() ==> #[trigger] r[off + i] == Command::FollowUp(fus[i])
}

/// The commands after events with follow-ups `fus` took the store to `v`:
/// a subscription of generation `generation` when a guild was added, then
/// the follow-ups.
pub open spec fn event_commands(
    r: Seq<Command>,
    fus: Seq<PostProcessEvent>,
    generation: u64,
    v: Map<u64, GuildView>,
) -> bool {
    if needs_resubscribe(fus) {
        r.len() == fus.len() + 1 && subscribes(r[0], generation, v) && forwards(r, 1, fus)
    } else {
        r.len() == fus.len() && forwards(r, 0, fus)
    }
}

/// `a` and `b` show the same screens, store, user and generation.
pub open spec fn unchanged(a: ScreenManager, b: ScreenManager) -> bool {
    &&& a.screens() == b.screens()
    &&& a.store() == b.store()
    &&& a.user() == b.user()
    &&& a.generation() == b.generation()
}

/// A screen after an error was reported on it.
pub open spec fn screen_after_error(s: Screen) -> Screen {
    match s {
        Screen::Login { .. } => Screen::Login { waiting: false },
        _ => s,
    }
}

/// The store after `op` on one of its channels, if a user is signed in.
pub open spec fn store_channel_event(
    store: Option<Map<u64, GuildView>>,
    g: u64,
    c: u64,
    op: ChannelOp,
) -> Option<Map<u64, GuildView>> {
    match store {
        Some(v) => Some(channel_event(v, g, c, op)),
        None => None,
    }
}

/// A user is signed in, and channel `c` of guild `g` holds an unconfirmed
/// message with transaction id `t`.
pub open spec fn holds_placeholder(store: Option<Map<u64, GuildView>>, g: u64, c: u64, t: u64) -> bool {
    match store {
        Some(v) => has_channel(v, g, c) && has_id(v[g].channels[c].messages, MessageId::Unack(t)),
        None => false,
    }
}

/// The generation after error `e` on a manager at generation `generation`:
/// a transport failure of the live connection steps it back.
pub open spec fn generation_after_error(e: ClientError, generation: u64) -> u64 {
    match e {
        ClientError::SocketError { generation: g } => if g == generation && generation > 0 {
            (generation - 1) as u64
        } else {
            generation
        },
        _ => generation,
    }
}

/// The state of the application around the store: the open screens, the
/// store once a user is signed in, and the event-stream generation.
pub struct ScreenManager {
    screens: ScreenStack,
    client: Option<Client>,
    supervisor: Supervisor,
}

impl ScreenManager {
    /// The open screens, bottom first.
    pub closed spec fn screens(&self) -> Seq<Screen> {
        self.screens@
    }

    /// The store, once a user is signed in.
    pub closed spec fn store(&self) -> Option<Map<u64, GuildView>> {
        match self.client {
            Some(c) => Some(c@),
            None => None,
        }
    }

    /// The signed-in user, once known.
    pub closed spec fn user(&self) -> Option<u64> {
        match self.client {
            Some(c) => c.user(),
            None => None,
        }
    }

    /// The generation of the live event stream.
    pub closed spec fn generation(&self) -> u64 {
        self.supervisor.generation()
    }

    /// The screens are never empty and the store is consistent.
    pub closed spec fn wf(&self) -> bool {
        &&& self.screens.wf()
        &&& match self.client {
            Some(c) => c.wf(),
            None => true,
        }
    }

    /// The manager at start: the login screen, no store, generation zero.
    pub fn new() -> (r: ScreenManager)
        ensures
            r.wf(),
            r.screens() == seq![Screen::Login { waiting: false }],
            r.store() is None,
            r.generation() == 0,
    {
        ScreenManager {
            screens: ScreenStack::new(Screen::Login { waiting: false }),
            client: None,
            supervisor: Supervisor::new(),
        }
    }

    /// The open screens, bottom first.
    pub fn screen_stack(&self) -> (r: &ScreenStack)
        ensures
            r@ == self.screens(),
    {
        &self.screens
    }

    /// The store, once a user is signed in.
    pub fn client(&self) -> (r: Option<&Client>)
        ensures
            match r {
                Some(c) => self.store() == Some(c@) && self.user() == c.user(),
                None => self.store() is None,
            },
            self.wf() && r is Some ==> r->0.wf(),
    {
        match &self.client {
            Some(c) => Some(c),
            None => None,
        }
    }

    /// The generation of the live event stream.
    pub fn current_generation(&self) -> (r: u64)
        ensures
            r == self.generation(),
    {
        self.supervisor.current()
    }

    /// A saved session is being restored: the login screen waits for it.
    pub fn begin_restore(&mut self)
        requires
            old(self).wf(),
        ensures
            final(self).wf(),
            final(self).store() == old(self).store(),
            final(self).user() == old(self).user(),
            final(self).generation() == old(self).generation(),
            final(self).screens() == match old(self).screens().last() {
                Screen::Login { .. } => old(self).screens().update(
                    old(self).screens().len() - 1,
                    Screen::Login { waiting: true },
                ),
                _ => old(self).screens(),
            },
    {
        let s = self.screens.current_mut();
        match s {
            Screen::Login { waiting } => {
                *waiting = true;
            },
            _ => {},
        }
    }

    /// Acts on `msg` and returns the work for the caller to do.
    ///
    /// Deliveries from a superseded connection are dropped without any
    /// change. A send is shown at once on its first attempt only. An error
    /// that says the session is no longer valid discards the store and
    /// returns to the login screen.
    pub fn update(&mut self, msg: Message) -> (r: Vec<Command>)
        requires
            old(self).wf(),
            match msg {
                Message::SocketEvent { generation, .. } => generation == old(self).generation()
                    ==> old(self).generation() < u64::MAX,
                Message::EventsReceived(_) => old(self).generation() < u64::MAX,
                Message::SendMessage { message, .. } => message.id is Unack,
                _ => true,
            },
        ensures
            final(self).wf(),
            match msg {
                Message::Nothing => unchanged(*final(self), *old(self)) && r@.len() == 0,
                Message::PopScreen => {
                    &&& final(self).screens() == if old(self).screens().len() > 1 {
                        old(self).screens().drop_last()
                    } else {
                        old(self).screens()
                    }
                    &&& final(self).store() == old(self).store()
                    &&& final(self).user() == old(self).user()
                    &&& final(self).generation() == old(self).generation()
                    &&& r@.len() == 0
                },
                Message::PushScreen(s) => {
                    &&& final(self).screens() == old(self).screens().push(s)
                    &&& final(self).store() == old(self).store()
                    &&& final(self).user() == old(self).user()
                    &&& final(self).generation() == old(self).generation()
                    &&& r@.len() == 0
                },
                Message::LoginComplete { user_id } => {
                    &&& final(self).screens() == old(self).screens().push(Screen::Main)
                    &&& final(self).store() == Some(
                        match old(self).store() {
                            Some(v) => v,
                            None => Map::empty(),
                        },
                    )
                    &&& final(self).user() == Some(user_id)
                    &&& final(self).generation() == old(self).generation()
                    &&& r@.len() == 1 && r@[0] is FetchGuildList
                },
                Message::SocketEvent { generation, event } => if old(self).store() is None
                    || generation != old(self).generation() {
                    unchanged(*final(self), *old(self)) && r@.len() == 0
                } else {
                    &&& final(self).screens() == old(self).screens()
                    &&& final(self).user() == old(self).user()
                    &&& match event {
                        None => {
                            &&& final(self).store() == old(self).store()
                            &&& final(self).generation() == old(self).generation()
                            &&& r@ == seq![Command::Receive { generation }]
                        },
                        Some(e) => {
                            let v = old(self).store()->0;
                            let fus = follow_ups_all(v, old(self).user(), seq![e]);
                            &&& final(self).store() == Some(reconcile_all(v, seq![e]))
                            &&& if needs_resubscribe(fus) {
                                &&& final(self).generation() == old(self).generation() + 1
                                &&& event_commands(
                                    r@,
                                    fus,
                                    final(self).generation(),
                                    final(self).store()->0,
                                )
                            } else {
                                &&& final(self).generation() == old(self).generation()
                                &&& r@.len() == fus.len() + 1
                                &&& forwards(r@, 0, fus)
                                &&& r@[fus.len() as int] == Command::Receive { generation }
                            }
                        },
                    }
                },
                Message::EventsReceived(es) => if old(self).store() is None {
                    unchanged(*final(self), *old(self)) && r@.len() == 0
                } else {
                    let v = old(self).store()->0;
                    let fus = follow_ups_all(v, old(self).user(), es@);
                    &&& final(self).screens() == old(self).screens()
                    &&& final(self).user() == old(self).user()
                    &&& final(self).store() == Some(reconcile_all(v, es@))
                    &&& final(self).generation() == if needs_resubscribe(fus) {
                        old(self).generation() + 1
                    } else {
                        old(self).generation() as int
                    }
                    &&& event_commands(r@, fus, final(self).generation(), final(self).store()->0)
                },
                Message::GetEventsBackwardsResponse {
                    messages,
                    reached_top,
                    guild_id,
                    channel_id,
                } => {
                    &&& final(self).store() == store_channel_event(
                        old(self).store(),
                        guild_id,
                        channel_id,
                        ChannelOp::Prepend { page: messages, reached_top },
                    )
                    &&& final(self).screens() == old(self).screens()
                    &&& final(self).user() == old(self).user()
                    &&& final(self).generation() == old(self).generation()
                    &&& r@.len() == 0
                },
                Message::MessageSent { message_id, transaction_id, guild_id, channel_id } => {
                    &&& final(self).store() == store_channel_event(
                        old(self).store(),
                        guild_id,
                        channel_id,
                        ChannelOp::Confirm { transaction_id, message_id },
                    )
                    &&& !holds_placeholder(old(self).store(), guild_id, channel_id, transaction_id)
                        ==> final(self).store() == old(self).store()
                    &&& final(self).screens() == old(self).screens()
                    &&& final(self).user() == old(self).user()
                    &&& final(self).generation() == old(self).generation()
                    &&& r@.len() == 0
                },
                Message::SendMessage { message, retry_after, guild_id, channel_id } => {
                    let live = match old(self).store() {
                        Some(v) => has_channel(v, guild_id, channel_id),
                        None => false,
                    };
                    &&& final(self).store() == if retry_after == 0 {
                        store_channel_event(
                            old(self).store(),
                            guild_id,
                            channel_id,
                            ChannelOp::Optimistic { message },
                        )
                    } else {
                        old(self).store()
                    }
                    &&& final(self).screens() == old(self).screens()
                    &&& final(self).user() == old(self).user()
                    &&& final(self).generation() == old(self).generation()
                    &&& r@.len() == if live {
                        1int
                    } else {
                        0
                    }
                    &&& live ==> match r@[0] {
                        Command::Send(q) => q.guild_id == guild_id && q.channel_id == channel_id
                            && q.retry_after == retry_after && q.message.id == message.id
                            && q.message.sender == message.sender && q.message.content
                            == message.content && q.message.attachments@ == message.attachments@
                            && q.message.overrides == message.overrides,
                        _ => false,
                    }
                },
                Message::Error(e) => {
                    &&& final(self).generation() == generation_after_error(
                        e,
                        old(self).generation(),
                    )
                    &&& if session_invalid(e) {
                        &&& final(self).screens() == seq![Screen::Login { waiting: false }]
                        &&& final(self).store() is None
                    } else {
                        &&& final(self).screens() == old(self).screens().update(
                            old(self).screens().len() - 1,
                            screen_after_error(old(self).screens().last()),
                        )
                        &&& final(self).store() == old(self).store()
                        &&& final(self).user() == old(self).user()
                    }
                    &&& r@.len() == 0
                },
            },
    {
        match msg {
            Message::Nothing => Vec::new(),
            Message::PopScreen => {
                self.screens.pop();
                Vec::new()
            },
            Message::PushScreen(s) => {
                self.screens.push(s);
                Vec::new()
            },
            Message::LoginComplete { user_id } => {
                match self.client.take() {
                    Some(mut c) => {
                        c.set_user_id(user_id);
                        self.client = Some(c);
                    },
                    None => {
                        self.client = Some(Client::new(Some(user_id)));
                    },
                }
                self.screens.push(Screen::Main);
                vec![Command::FetchGuildList]
            },
            Message::SocketEvent { generation, event } => {
                if self.client.is_none() || !self.supervisor.is_current(generation) {
                    return Vec::new();
                }
                match event {
                    None => vec![Command::Receive { generation }],
                    Some(e) => {
                        let ghost es = seq![e];
                        let batch = vec![e];
                        assert(batch@ =~= es);
                        let mut cmds = self.run_events(batch);
                        if self.supervisor.is_current(generation) {
                            cmds.push(Command::Receive { generation });
                        }
                        cmds
                    },
                }
            },
            Message::EventsReceived(es) => {
                if self.client.is_none() {
                    return Vec::new();
                }
                self.run_events(es)
            },
            Message::GetEventsBackwardsResponse {
                messages,
                reached_top,
                guild_id,
                channel_id,
            } => {
                match self.client.take() {
                    Some(mut c) => {
                        c.process_get_message_history_response(
                            guild_id,
                            channel_id,
                            messages,
                            reached_top,
                        );
                        self.client = Some(c);
                    },
                    None => {},
                }
                Vec::new()
            },
            Message::MessageSent { message_id, transaction_id, guild_id, channel_id } => {
                match self.client.take() {
                    Some(mut c) => {
                        proof {
                            if !holds_placeholder(Some(c@), guild_id, channel_id, transaction_id) {
                                lemma_confirm_without_placeholder(
                                    c@,
                                    guild_id,
                                    channel_id,
                                    transaction_id,
                                    message_id,
                                );
                            }
                        }
                        c.on_message_sent(guild_id, channel_id, transaction_id, message_id);
                        self.client = Some(c);
                    },
                    None => {},
                }
                Vec::new()
            },
            Message::SendMessage { message, retry_after, guild_id, channel_id } => {
                let mut cmds: Vec<Command> = Vec::new();
                match self.client.take() {
                    Some(mut c) => {
                        match c.send_message(guild_id, channel_id, message, retry_after) {
                            Some(q) => {
                                cmds.push(Command::Send(q));
                            },
                            None => {},
                        }
                        self.client = Some(c);
                    },
                    None => {},
                }
                cmds
            },
            Message::Error(e) => {
                if let ClientError::SocketError { generation } = &e {
                    if self.supervisor.is_current(*generation) {
                        self.supervisor.on_socket_error();
                    }
                }
                if is_invalid_session(&e) {
                    self.screens.clear(Screen::Login { waiting: false });
                    self.client = None;
                }
                self.screens.current_mut().on_error();
                Vec::new()
            },
        }
    }

    /// Applies `events` to the store and turns the work they leave into
    /// commands, subscribing anew when a guild was added.
    fn run_events(&mut self, events: Vec<Event>) -> (r: Vec<Command>)
        requires
            old(self).wf(),
            old(self).store() is Some,
            old(self).generation() < u64::MAX,
        ensures
            final(self).wf(),
            final(self).screens() == old(self).screens(),
            final(self).user() == old(self).user(),
            final(self).store() == Some(reconcile_all(old(self).store()->0, events@)),
            ({
                let fus = follow_ups_all(old(self).store()->0, old(self).user(), events@);
                &&& final(self).generation() == if needs_resubscribe(fus) {
                    old(self).generation() + 1
                } else {
                    old(self).generation() as int
                }
                &&& event_commands(r@, fus, final(self).generation(), final(self).store()->0)
            }),
    {
        let mut c = match self.client.take() {
            Some(c) => c,
            None => {
                return Vec::new();
            },
        };
        let fus = c.process_events(events);
        let mut k: usize = 0;
        let mut found = false;
        while k < fus.len()
            invariant
                k <= fus.len(),
                found == exists|i: int| 0 <= i < k && fus@[i] is FetchGuildData,
            decreases fus.len() - k,
        {
            if let PostProcessEvent::FetchGuildData(_) = &fus[k] {
                found = true;
            }
            k = k + 1;
        }
        let mut sources: Option<Vec<EventSource>> = None;
        if found {
            sources = Some(c.subscribe_to());
        }
        self.client = Some(c);
        let mut cmds: Vec<Command> = Vec::new();
        match sources {
            Some(s) => {
                let generation = self.supervisor.resubscribe();
                cmds.push(Command::Subscribe { generation, sources: s });
            },
            None => {},
        }
        let ghost off = cmds@.len() as int;
        let ghost head = cmds@;
        let ghost all = fus@;
        let n: usize = fus.len();
        let mut fus = fus;
        let mut i: usize = 0;
        while fus.len() > 0
            invariant
                fus@ == all.subrange(i as int, all.len() as int),
                fus@.len() + i == all.len(),
                all.len() == n,
                cmds@.len() == off + i,
                off == 0 || off == 1,
                forall|j: int| 0 <= j < off ==> cmds@[j] == head[j],
                forall|j: int| 0 <= j < i ==> #[trigger] cmds@[off + j] == Command::FollowUp(all[j]),
            decreases fus.len(),
        {
            let f = fus.remove(0);
            cmds.push(Command::FollowUp(f));
            i = i + 1;
        }
        proof {
            assert(found == needs_resubscribe(all));
            assert(forwards(cmds@, off, all)) by {
                assert forall|j: int| 0 <= j < all.len() implies #[trigger] cmds@[off + j] == Command::FollowUp(all[j]) by {
                }
            }
            if found {
                assert(cmds@[0] == head[0]);
            }
        }
        cmds
    }
}

} // verus!
