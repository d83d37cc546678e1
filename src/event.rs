use vstd::prelude::*;
use crate::channel::{
    lemma_echo_without_placeholder, lemma_edit_keeps_content, lemma_prepend_associative,
};
use crate::client::{
    guild_op_applied, has_channel, op_applied, store_profiled, with_channel,
    fresh_guild, ChannelOp, Client, GuildOp, GuildView, ProfileUpdate,
};
use crate::message::{confirmed, IncomingMessage, Message, MessageId};

verus! {

/// An event pushed by the server.
#[derive(Clone, Debug)]
pub enum Event {
    /// A message was sent; `echo_id` is the transaction id it was sent with.
    SentMessage { echo_id: u64, guild_id: u64, channel_id: u64, message: IncomingMessage },
    DeletedMessage { guild_id: u64, channel_id: u64, message_id: u64 },
    EditedMessage {
        guild_id: u64,
        channel_id: u64,
        message_id: u64,
        content: String,
        update_content: bool,
    },
    CreatedChannel { guild_id: u64, channel_id: u64, name: String, is_category: bool },
    DeletedChannel { guild_id: u64, channel_id: u64 },
    EditedChannel { guild_id: u64, channel_id: u64, name: String, update_name: bool },
    Typing { guild_id: u64, channel_id: u64, user_id: u64 },
    GuildAddedToList { guild_id: u64, homeserver: String },
    EditedGuild {
        guild_id: u64,
        name: String,
        update_name: bool,
        picture: String,
        update_picture: bool,
    },
    ProfileUpdated(ProfileUpdate),
}

/// Work that applying an event leaves for the caller to do.
#[derive(Clone, Debug, PartialEq, Eq)]
pub enum PostProcessEvent {
    /// Fetch the thumbnail of the file with this id.
    FetchThumbnail(String),
    /// Fetch the profile of this user.
    FetchProfile(u64),
    /// Scroll this channel to its newest message.
    GoToFirstMsgOnChannel(u64),
    /// Fetch the metadata of this guild.
    FetchGuildData(u64),
}

/// A source of events that the client subscribes to.
#[derive(Clone, Copy, Debug, PartialEq, Eq, Structural)]
pub enum EventSource {
    Guild(u64),
}

/// The store after `op` on channel `c` of guild `g`, if the store has it.
pub open spec fn channel_event(v: Map<u64, GuildView>, g: u64, c: u64, op: ChannelOp) -> Map<
    u64,
    GuildView,
> {
    if has_channel(v, g, c) {
        with_channel(v, g, c, op_applied(v[g].channels[c], op))
    } else {
        v
    }
}

/// The store after `op` on guild `g`, if the store has it.
pub open spec fn guild_event(v: Map<u64, GuildView>, g: u64, op: GuildOp) -> Map<u64, GuildView> {
    if v.contains_key(g) {
        v.insert(g, guild_op_applied(v[g], op))
    } else {
        v
    }
}

/// The store after event `e`.
pub open spec fn reconcile(v: Map<u64, GuildView>, e: Event) -> Map<u64, GuildView> {
    match e {
        Event::SentMessage { echo_id, guild_id, channel_id, message } => channel_event(
            v,
            guild_id,
            channel_id,
            ChannelOp::Echo { transaction_id: echo_id, message: confirmed(message) },
        ),
        Event::DeletedMessage { guild_id, channel_id, message_id } => channel_event(
            v,
            guild_id,
            channel_id,
            ChannelOp::Delete { message_id },
        ),
        Event::EditedMessage { guild_id, channel_id, message_id, content, update_content } =>
            channel_event(
            v,
            guild_id,
            channel_id,
            ChannelOp::Edit { message_id, content, update_content },
        ),
        Event::CreatedChannel { guild_id, channel_id, name, is_category } => guild_event(
            v,
            guild_id,
            GuildOp::CreateChannel { channel_id, name, is_category },
        ),
        Event::DeletedChannel { guild_id, channel_id } => guild_event(
            v,
            guild_id,
            GuildOp::DeleteChannel { channel_id },
        ),
        Event::EditedChannel { guild_id, channel_id, name, update_name } => guild_event(
            v,
            guild_id,
            GuildOp::EditChannel { channel_id, name, update_name },
        ),
        Event::Typing { guild_id, channel_id, user_id } => guild_event(
            v,
            guild_id,
            GuildOp::Typing { channel_id, user_id },
        ),
        Event::GuildAddedToList { guild_id, homeserver } => if v.contains_key(guild_id) {
            v.insert(guild_id, GuildView { homeserver: homeserver, ..v[guild_id] })
        } else {
            v.insert(guild_id, fresh_guild(homeserver))
        },
        Event::EditedGuild { guild_id, name, update_name, picture, update_picture } => guild_event(
            v,
            guild_id,
            GuildOp::EditMetadata { name, update_name, picture, update_picture },
        ),
        Event::ProfileUpdated(p) => store_profiled(v, p),
    }
}

/// A request for the thumbnail of each attached file, in order.
pub open spec fn thumbnails(files: Seq<String>) -> Seq<PostProcessEvent> {
    files.map_values(|f: String| PostProcessEvent::FetchThumbnail(f))
}

/// The work that event `e` leaves, for the store `v` of signed-in `user`:
/// thumbnails of a new message's files, and a scroll when the user sent it
/// itself; the profile of a member first seen typing; the metadata of a
/// newly added guild.
pub open spec fn follow_ups(v: Map<u64, GuildView>, user: Option<u64>, e: Event) -> Seq<
    PostProcessEvent,
> {
    match e {
        Event::SentMessage { guild_id, channel_id, message, .. } => if has_channel(
            v,
            guild_id,
            channel_id,
        ) {
            thumbnails(message.attachments@) + if user == Some(message.sender) {
                seq![PostProcessEvent::GoToFirstMsgOnChannel(channel_id)]
            } else {
                Seq::empty()
            }
        } else {
            Seq::empty()
        },
        Event::Typing { guild_id, user_id, .. } => if v.contains_key(guild_id)
            && !v[guild_id].members.contains_key(user_id) {
            seq![PostProcessEvent::FetchProfile(user_id)]
        } else {
            Seq::empty()
        },
        Event::GuildAddedToList { guild_id, .. } => if v.contains_key(guild_id) {
            Seq::empty()
        } else {
            seq![PostProcessEvent::FetchGuildData(guild_id)]
        },
        _ => Seq::empty(),
    }
}

/// The store after the events `es`, in order.
pub open spec fn reconcile_all(v: Map<u64, GuildView>, es: Seq<Event>) -> Map<u64, GuildView>
    decreases es.len(),
{
    if es.len() == 0 {
        v
    } else {
        reconcile(reconcile_all(v, es.drop_last()), es.last())
    }
}

/// The work that the events `es` leave, in order.
pub open spec fn follow_ups_all(v: Map<u64, GuildView>, user: Option<u64>, es: Seq<Event>) -> Seq<
    PostProcessEvent,
>
    decreases es.len(),
{
    if es.len() == 0 {
        Seq::empty()
    } else {
        follow_ups_all(v, user, es.drop_last()) + follow_ups(
            reconcile_all(v, es.drop_last()),
            user,
            es.last(),
        )
    }
}

/// A confirmation for a transaction id that no unconfirmed message of the
/// channel carries leaves the whole store unchanged.
pub proof fn lemma_confirm_without_placeholder(
    v: Map<u64, GuildView>,
    g: u64,
    c: u64,
    transaction_id: u64,
    message_id: u64,
)
    requires
        has_channel(v, g, c) ==> forall|i: int|
            0 <= i < v[g].channels[c].messages.len() ==> v[g].channels[c].messages[i].id
                != MessageId::Unack(transaction_id),
    ensures
        channel_event(v, g, c, ChannelOp::Confirm { transaction_id, message_id }) == v,
{
    if has_channel(v, g, c) {
        let ch = v[g].channels[c];
        lemma_echo_without_placeholder(ch.messages, transaction_id, message_id);
        assert(op_applied(ch, ChannelOp::Confirm { transaction_id, message_id }) == ch);
        assert(v[g].channels.insert(c, ch) =~= v[g].channels);
        assert(with_channel(v, g, c, ch) =~= v);
    }
}

/// An edit event that does not say its content changed leaves the whole
/// store unchanged, and so every message's content.
pub proof fn lemma_edit_event_keeps_content(
    v: Map<u64, GuildView>,
    guild_id: u64,
    channel_id: u64,
    message_id: u64,
    content: String,
)
    ensures
        reconcile(
            v,
            Event::EditedMessage { guild_id, channel_id, message_id, content, update_content: false },
        ) == v,
{
    if has_channel(v, guild_id, channel_id) {
        let ch = v[guild_id].channels[channel_id];
        lemma_edit_keeps_content(ch.messages, message_id, content);
        assert(v[guild_id].channels.insert(channel_id, ch) =~= v[guild_id].channels);
        assert(with_channel(v, guild_id, channel_id, ch) =~= v);
    }
}

/// Two pages of history applied newer first give the same store as both
/// pages applied at once, older first.
pub proof fn lemma_history_pages_associative(
    v: Map<u64, GuildView>,
    g: u64,
    c: u64,
    newer: Vec<IncomingMessage>,
    older: Vec<IncomingMessage>,
    both: Vec<IncomingMessage>,
    newer_reached_top: bool,
    reached_top: bool,
)
    requires
        both@ == older@ + newer@,
    ensures
        channel_event(
            channel_event(v, g, c, ChannelOp::Prepend { page: newer, reached_top: newer_reached_top }),
            g,
            c,
            ChannelOp::Prepend { page: older, reached_top },
        ) == channel_event(v, g, c, ChannelOp::Prepend { page: both, reached_top }),
{
    if has_channel(v, g, c) {
        let ch = v[g].channels[c];
        lemma_prepend_associative(ch.messages, newer@, older@);
        let once = channel_event(v, g, c, ChannelOp::Prepend { page: newer, reached_top: newer_reached_top });
        assert(has_channel(once, g, c));
        let two = channel_event(once, g, c, ChannelOp::Prepend { page: older, reached_top });
        let one = channel_event(v, g, c, ChannelOp::Prepend { page: both, reached_top });
        assert(two[g].channels =~= one[g].channels);
        assert(two =~= one);
    }
}

/// Thumbnail requests for `files`.
fn thumbnail_requests(files: &Vec<String>) -> (r: Vec<PostProcessEvent>)
    ensures
        r@ == thumbnails(files@),
{
    let mut r: Vec<PostProcessEvent> = Vec::new();
    let mut i: usize = 0;
    while i < files.len()
        invariant
            i <= files.len(),
            r@ == thumbnails(files@.subrange(0, i as int)),
        decreases files.len() - i,
    {
        r.push(PostProcessEvent::FetchThumbnail(files[i].clone()));
        assert(files@.subrange(0, i + 1) =~= files@.subrange(0, i as int).push(files@[i as int]));
        assert(thumbnails(files@.subrange(0, i + 1)) =~= thumbnails(files@.subrange(0, i as int)).push(
            PostProcessEvent::FetchThumbnail(files@[i as int]),
        ));
        i = i + 1;
    }
    assert(files@.subrange(0, files@.len() as int) =~= files@);
    r
}

/// The event that a fetched profile of `user_id` stands for: every field
/// is set.
pub fn profile_event(
    user_id: u64,
    username: String,
    avatar: String,
    status: i32,
    is_bot: bool,
) -> (r: Event)
    ensures
        r == Event::ProfileUpdated(
            ProfileUpdate {
                user_id,
                new_username: username,
                update_username: true,
                new_avatar: avatar,
                update_avatar: true,
                new_status: status,
                update_status: true,
                is_bot,
                update_is_bot: true,
            },
        ),
{
    Event::ProfileUpdated(
        ProfileUpdate {
            user_id,
            new_username: username,
            update_username: true,
            new_avatar: avatar,
            update_avatar: true,
            new_status: status,
            update_status: true,
            is_bot,
            update_is_bot: true,
        },
    )
}

/// The event that fetched metadata of guild `guild_id` stands for: every
/// field is set.
pub fn guild_data_event(guild_id: u64, name: String, picture: String) -> (r: Event)
    ensures
        r == (Event::EditedGuild {
            guild_id,
            name,
            update_name: true,
            picture,
            update_picture: true,
        }),
{
    Event::EditedGuild { guild_id, name, update_name: true, picture, update_picture: true }
}

impl Client {
    /// Applies a server event to the store and returns the work it leaves.
    /// Events that refer to a guild, channel or message that the store does
    /// not hold change nothing.
    pub fn process_event(&mut self, event: Event) -> (r: Vec<PostProcessEvent>)
        requires
            old(self).wf(),
        ensures
            final(self).wf(),
            final(self)@ == reconcile(old(self)@, event),
            r@ == follow_ups(old(self)@, old(self).user(), event),
            final(self).user() == old(self).user(),
    {
        match event {
            Event::SentMessage { echo_id, guild_id, channel_id, message } => {
                let mut out: Vec<PostProcessEvent> = Vec::new();
                if self.get_channel(guild_id, channel_id).is_some() {
                    out = thumbnail_requests(&message.attachments);
                    match self.user_id() {
                        Some(u) => {
                            if u == message.sender {
                                out.push(PostProcessEvent::GoToFirstMsgOnChannel(channel_id));
                            }
                        },
                        None => {},
                    }
                }
                let ghost t = out@;
                let msg = Message::from_incoming(message);
                self.update_channel(
                    guild_id,
                    channel_id,
                    ChannelOp::Echo { transaction_id: echo_id, message: msg },
                );
                proof {
                    if has_channel(old(self)@, guild_id, channel_id) {
                        assert(out@ =~= follow_ups(old(self)@, old(self).user(), event));
                    }
                }
                out
            },
            Event::DeletedMessage { guild_id, channel_id, message_id } => {
                self.update_channel(guild_id, channel_id, ChannelOp::Delete { message_id });
                Vec::new()
            },
            Event::EditedMessage { guild_id, channel_id, message_id, content, update_content } => {
                self.update_channel(
                    guild_id,
                    channel_id,
                    ChannelOp::Edit { message_id, content, update_content },
                );
                Vec::new()
            },
            Event::CreatedChannel { guild_id, channel_id, name, is_category } => {
                self.update_guild(guild_id, GuildOp::CreateChannel { channel_id, name, is_category });
                Vec::new()
            },
            Event::DeletedChannel { guild_id, channel_id } => {
                self.update_guild(guild_id, GuildOp::DeleteChannel { channel_id });
                Vec::new()
            },
            Event::EditedChannel { guild_id, channel_id, name, update_name } => {
                self.update_guild(guild_id, GuildOp::EditChannel { channel_id, name, update_name });
                Vec::new()
            },
            Event::Typing { guild_id, channel_id, user_id } => {
                let mut out: Vec<PostProcessEvent> = Vec::new();
                if self.get_guild(guild_id).is_some() && self.get_member(guild_id, user_id).is_none() {
                    out.push(PostProcessEvent::FetchProfile(user_id));
                }
                self.update_guild(guild_id, GuildOp::Typing { channel_id, user_id });
                proof {
                    assert(out@ =~= follow_ups(old(self)@, old(self).user(), event));
                }
                out
            },
            Event::GuildAddedToList { guild_id, homeserver } => {
                let mut out: Vec<PostProcessEvent> = Vec::new();
                if self.add_guild(guild_id, homeserver) {
                    out.push(PostProcessEvent::FetchGuildData(guild_id));
                }
                proof {
                    assert(out@ =~= follow_ups(old(self)@, old(self).user(), event));
                }
                out
            },
            Event::EditedGuild { guild_id, name, update_name, picture, update_picture } => {
                self.update_guild(
                    guild_id,
                    GuildOp::EditMetadata { name, update_name, picture, update_picture },
                );
                Vec::new()
            },
            Event::ProfileUpdated(p) => {
                self.apply_profile(&p);
                Vec::new()
            },
        }
    }

    /// Applies a batch of events in the order given and returns the work
    /// they leave, in order.
    pub fn process_events(&mut self, events: Vec<Event>) -> (r: Vec<PostProcessEvent>)
        requires
            old(self).wf(),
        ensures
            final(self).wf(),
            final(self)@ == reconcile_all(old(self)@, events@),
            r@ == follow_ups_all(old(self)@, old(self).user(), events@),
            final(self).user() == old(self).user(),
    {
        let ghost es = events@;
        let ghost v0 = self@;
        let n: usize = events.len();
        let mut events = events;
        let mut out: Vec<PostProcessEvent> = Vec::new();
        let mut i: usize = 0;
        while events.len() > 0
            invariant
                self.wf(),
                self.user() == old(self).user(),
                i <= es.len(),
                events@ == es.subrange(i as int, es.len() as int),
                events@.len() + i == es.len(),
                es.len() == n,
                self@ == reconcile_all(v0, es.subrange(0, i as int)),
                out@ == follow_ups_all(v0, old(self).user(), es.subrange(0, i as int)),
            decreases events.len(),
        {
            let e = events.remove(0);
            assert(e == es[i as int]);
            let ghost pre = es.subrange(0, i as int);
            let mut more = self.process_event(e);
            out.append(&mut more);
            assert(es.subrange(0, i + 1).drop_last() =~= pre);
            i = i + 1;
        }
        assert(es.subrange(0, es.len() as int) =~= es);
        out
    }

    /// Puts a page of older history, oldest first, in front of the messages
    /// of channel `channel_id` of guild `guild_id`, records whether the start
    /// of the history was reached, and ends the wait for the page. Returns
    /// whether the channel was there; if not, nothing changes.
    pub fn process_get_message_history_response(
        &mut self,
        guild_id: u64,
        channel_id: u64,
        messages: Vec<IncomingMessage>,
        reached_top: bool,
    ) -> (r: bool)
        requires
            old(self).wf(),
        ensures
            final(self).wf(),
            r == has_channel(old(self)@, guild_id, channel_id),
            final(self)@ == channel_event(
                old(self)@,
                guild_id,
                channel_id,
                ChannelOp::Prepend { page: messages, reached_top },
            ),
            final(self).user() == old(self).user(),
    {
        self.update_channel(guild_id, channel_id, ChannelOp::Prepend { page: messages, reached_top })
    }

    /// Marks channel `channel_id` of guild `guild_id` as waiting, or no
    /// longer waiting, for a page of history.
    pub fn set_loading_history(&mut self, guild_id: u64, channel_id: u64, loading: bool) -> (r:
        bool)
        requires
            old(self).wf(),
        ensures
            final(self).wf(),
            r == has_channel(old(self)@, guild_id, channel_id),
            final(self)@ == channel_event(
                old(self)@,
                guild_id,
                channel_id,
                ChannelOp::SetLoading { loading },
            ),
            final(self).user() == old(self).user(),
    {
        self.update_channel(guild_id, channel_id, ChannelOp::SetLoading { loading })
    }
}

} // verus!
