use vstd::prelude::*;
use std::collections::HashMap;
use crate::channel::{
    deleted, echo_applied, echo_merged, edited, optimistic, prepended, unconfirmed_unique,
    lemma_confirm_keeps_unconfirmed_unique, lemma_delete_keeps_unconfirmed_unique,
    lemma_echo_keeps_unconfirmed_unique, lemma_edit_keeps_unconfirmed_unique,
    lemma_optimistic_keeps_unconfirmed_unique, lemma_prepend_keeps_unconfirmed_unique,
    fresh_channel, Channel, ChannelView,
};
use crate::message::{IncomingMessage, Message};

verus! {

broadcast use vstd::std_specs::hash::group_hash_axioms;

/// A member of a guild. The profile fields stay empty until a profile
/// arrives for the member.
#[derive(Clone, Debug)]
pub struct Member {
    pub username: Option<String>,
    pub avatar_url: Option<String>,
    pub status: i32,
    pub is_bot: bool,
    /// The channel that the member was last seen typing in.
    pub typing_in_channel: Option<u64>,
}

/// A member first seen typing in channel `c`, before its profile is known.
pub open spec fn typing_stranger(c: u64) -> Member {
    Member { username: None, avatar_url: None, status: 0, is_bot: false, typing_in_channel: Some(c) }
}


/// A profile of a user, with a flag for each field that it sets.
#[derive(Clone, Debug)]
pub struct ProfileUpdate {
    pub user_id: u64,
    pub new_username: String,
    pub update_username: bool,
    pub new_avatar: String,
    pub update_avatar: bool,
    pub new_status: i32,
    pub update_status: bool,
    pub is_bot: bool,
    pub update_is_bot: bool,
}

/// The member with the flagged fields of `p` set.
pub open spec fn profile_applied(m: Member, p: ProfileUpdate) -> Member {
    Member {
        username: if p.update_username {
            Some(p.new_username)
        } else {
            m.username
        },
        avatar_url: if p.update_avatar {
            Some(p.new_avatar)
        } else {
            m.avatar_url
        },
        status: if p.update_status {
            p.new_status
        } else {
            m.status
        },
        is_bot: if p.update_is_bot {
            p.is_bot
        } else {
            m.is_bot
        },
        typing_in_channel: m.typing_in_channel,
    }
}

/// The guild with the profile `p` applied to its member, if it has one.
pub open spec fn guild_profiled(g: GuildView, p: ProfileUpdate) -> GuildView {
    if g.members.contains_key(p.user_id) {
        GuildView {
            members: g.members.insert(p.user_id, profile_applied(g.members[p.user_id], p)),
            ..g
        }
    } else {
        g
    }
}

/// The store with the profile `p` applied in every guild.
pub open spec fn store_profiled(v: Map<u64, GuildView>, p: ProfileUpdate) -> Map<u64, GuildView> {
    v.map_values(|g: GuildView| guild_profiled(g, p))
}

impl Member {
    /// Sets the flagged fields of `p`.
    pub fn apply_profile(&mut self, p: &ProfileUpdate)
        ensures
            *final(self) == profile_applied(*old(self), *p),
    {
        if p.update_username {
            self.username = Some(p.new_username.clone());
        }
        if p.update_avatar {
            self.avatar_url = Some(p.new_avatar.clone());
        }
        if p.update_status {
            self.status = p.new_status;
        }
        if p.update_is_bot {
            self.is_bot = p.is_bot;
        }
    }
}

/// A guild: its channels and members, each keyed by id. Its name and
/// picture stay empty until the guild's metadata arrives.
#[derive(Debug)]
pub struct Guild {
    pub homeserver: String,
    pub name: Option<String>,
    pub picture: Option<String>,
    pub channels: HashMap<u64, Channel>,
    pub members: HashMap<u64, Member>,
}

/// What the store holds of a guild.
pub struct GuildView {
    pub homeserver: String,
    pub name: Option<String>,
    pub picture: Option<String>,
    pub channels: Map<u64, ChannelView>,
    pub members: Map<u64, Member>,
}

impl View for Guild {
    type V = GuildView;

    open spec fn view(&self) -> GuildView {
        GuildView {
            homeserver: self.homeserver,
            name: self.name,
            picture: self.picture,
            channels: self.channels@.map_values(|c: Channel| c@),
            members: self.members@,
        }
    }
}

impl Guild {
    /// A guild of `homeserver` with no name, picture, channel or member yet.
    pub fn new(homeserver: String) -> (r: Guild)
        ensures
            r@ == fresh_guild(homeserver),
    {
        let r = Guild {
            homeserver,
            name: None,
            picture: None,
            channels: HashMap::new(),
            members: HashMap::new(),
        };
        assert(r@.channels =~= Map::<u64, ChannelView>::empty());
        assert(r@.members =~= Map::<u64, Member>::empty());
        r
    }

    /// Applies `op` to this guild.
    pub fn apply(&mut self, op: GuildOp)
        ensures
            final(self)@ == guild_op_applied(old(self)@, op),
    {
        match op {
            GuildOp::CreateChannel { channel_id, name, is_category } => {
                match self.channels.remove(&channel_id) {
                    Some(mut c) => {
                        c.name = name;
                        c.is_category = is_category;
                        self.channels.insert(channel_id, c);
                    },
                    None => {
                        self.channels.insert(channel_id, Channel::new(name, is_category));
                    },
                }
            },
            GuildOp::DeleteChannel { channel_id } => {
                self.channels.remove(&channel_id);
            },
            GuildOp::EditChannel { channel_id, name, update_name } => {
                if update_name {
                    match self.channels.remove(&channel_id) {
                        Some(mut c) => {
                            c.name = name;
                            self.channels.insert(channel_id, c);
                        },
                        None => {},
                    }
                }
            },
            GuildOp::Typing { channel_id, user_id } => {
                match self.members.remove(&user_id) {
                    Some(mut m) => {
                        m.typing_in_channel = Some(channel_id);
                        self.members.insert(user_id, m);
                    },
                    None => {
                        self.members.insert(
                            user_id,
                            Member {
                                username: None,
                                avatar_url: None,
                                status: 0,
                                is_bot: false,
                                typing_in_channel: Some(channel_id),
                            },
                        );
                    },
                }
            },
            GuildOp::EditMetadata { name, update_name, picture, update_picture } => {
                if update_name {
                    self.name = Some(name);
                }
                if update_picture {
                    self.picture = Some(picture);
                }
            },
        }
        proof {
            assert(self@.channels =~= guild_op_applied(old(self)@, op).channels);
            assert(self@.members =~= guild_op_applied(old(self)@, op).members);
        }
    }
}

/// A guild of `homeserver` as it is first added.
pub open spec fn fresh_guild(homeserver: String) -> GuildView {
    GuildView {
        homeserver: homeserver,
        name: None,
        picture: None,
        channels: Map::empty(),
        members: Map::empty(),
    }
}

/// An operation on the channels, members or metadata of one guild.
pub enum GuildOp {
    /// Creates the channel; over an existing one, only its name and kind change.
    CreateChannel { channel_id: u64, name: String, is_category: bool },
    DeleteChannel { channel_id: u64 },
    /// Renames the channel when `update_name` says so.
    EditChannel { channel_id: u64, name: String, update_name: bool },
    /// Marks the member as typing in the channel, adding the member if unseen.
    Typing { channel_id: u64, user_id: u64 },
    /// Sets the fields whose flag is set.
    EditMetadata { name: String, update_name: bool, picture: String, update_picture: bool },
}

/// The guild after `op`.
pub open spec fn guild_op_applied(g: GuildView, op: GuildOp) -> GuildView {
    match op {
        GuildOp::CreateChannel { channel_id, name, is_category } => GuildView {
            channels: g.channels.insert(
                channel_id,
                if g.channels.contains_key(channel_id) {
                    ChannelView { name: name, is_category: is_category, ..g.channels[channel_id] }
                } else {
                    fresh_channel(name, is_category)
                },
            ),
            ..g
        },
        GuildOp::DeleteChannel { channel_id } => GuildView {
            channels: g.channels.remove(channel_id),
            ..g
        },
        GuildOp::EditChannel { channel_id, name, update_name } => if update_name
            && g.channels.contains_key(channel_id) {
            GuildView {
                channels: g.channels.insert(
                    channel_id,
                    ChannelView { name: name, ..g.channels[channel_id] },
                ),
                ..g
            }
        } else {
            g
        },
        GuildOp::Typing { channel_id, user_id } => GuildView {
            members: g.members.insert(
                user_id,
                if g.members.contains_key(user_id) {
                    Member { typing_in_channel: Some(channel_id), ..g.members[user_id] }
                } else {
                    typing_stranger(channel_id)
                },
            ),
            ..g
        },
        GuildOp::EditMetadata { name, update_name, picture, update_picture } => GuildView {
            name: if update_name {
                Some(name)
            } else {
                g.name
            },
            picture: if update_picture {
                Some(picture)
            } else {
                g.picture
            },
            ..g
        },
    }
}

/// An operation on the messages or flags of one channel.
pub enum ChannelOp {
    /// The send of `transaction_id` was confirmed as `message_id`.
    Confirm { transaction_id: u64, message_id: u64 },
    /// The server echoed a message, with the transaction id it was sent with.
    Echo { transaction_id: u64, message: Message },
    Delete { message_id: u64 },
    Edit { message_id: u64, content: String, update_content: bool },
    /// Show an unconfirmed message at once.
    Optimistic { message: Message },
    /// A page of older history arrived.
    Prepend { page: Vec<IncomingMessage>, reached_top: bool },
    /// A page of history was asked for, or no longer is.
    SetLoading { loading: bool },
}

/// `op` may be applied to a channel of a well-formed store.
pub open spec fn op_allowed(op: ChannelOp) -> bool {
    match op {
        ChannelOp::Echo { message, .. } => message.id is Ack,
        ChannelOp::Optimistic { message } => message.id is Unack,
        _ => true,
    }
}

/// The channel after `op`.
pub open spec fn op_applied(c: ChannelView, op: ChannelOp) -> ChannelView {
    match op {
        ChannelOp::Confirm { transaction_id, message_id } => ChannelView {
            messages: echo_applied(c.messages, transaction_id, message_id),
            ..c
        },
        ChannelOp::Echo { transaction_id, message } => ChannelView {
            messages: echo_merged(c.messages, transaction_id, message),
            ..c
        },
        ChannelOp::Delete { message_id } => ChannelView {
            messages: deleted(c.messages, message_id),
            ..c
        },
        ChannelOp::Edit { message_id, content, update_content } => ChannelView {
            messages: edited(c.messages, message_id, content, update_content),
            ..c
        },
        ChannelOp::Optimistic { message } => ChannelView {
            messages: optimistic(c.messages, message),
            ..c
        },
        ChannelOp::Prepend { page, reached_top } => ChannelView {
            messages: prepended(c.messages, page@),
            reached_top: reached_top,
            loading_messages_history: false,
            ..c
        },
        ChannelOp::SetLoading { loading } => ChannelView { loading_messages_history: loading, ..c },
    }
}

impl Channel {
    /// Applies `op` to this channel.
    pub fn apply(&mut self, op: ChannelOp)
        requires
            op_allowed(op),
        ensures
            final(self)@ == op_applied(old(self)@, op),
    {
        match op {
            ChannelOp::Confirm { transaction_id, message_id } => {
                self.apply_send_echo(transaction_id, message_id);
            },
            ChannelOp::Echo { transaction_id, message } => {
                self.merge_echo(transaction_id, message);
            },
            ChannelOp::Delete { message_id } => {
                self.apply_delete(message_id);
            },
            ChannelOp::Edit { message_id, content, update_content } => {
                self.apply_edit(message_id, content, update_content);
            },
            ChannelOp::Optimistic { message } => {
                self.insert_unconfirmed(message);
            },
            ChannelOp::Prepend { page, reached_top } => {
                self.prepend_history(page, reached_top);
            },
            ChannelOp::SetLoading { loading } => {
                self.loading_messages_history = loading;
            },
        }
    }
}

/// Every channel of every guild keeps each transaction id on at most one
/// unconfirmed message.
pub open spec fn store_unique(v: Map<u64, GuildView>) -> bool {
    forall|g: u64, c: u64|
        v.contains_key(g) && #[trigger] v[g].channels.contains_key(c) ==> unconfirmed_unique(
            v[g].channels[c].messages,
        )
}

/// The store with channel `c` of guild `g` set to `ch`.
pub open spec fn with_channel(v: Map<u64, GuildView>, g: u64, c: u64, ch: ChannelView) -> Map<
    u64,
    GuildView,
> {
    v.insert(g, GuildView { channels: v[g].channels.insert(c, ch), ..v[g] })
}

/// The store holds channel `c` of guild `g`.
pub open spec fn has_channel(v: Map<u64, GuildView>, g: u64, c: u64) -> bool {
    v.contains_key(g) && v[g].channels.contains_key(c)
}

/// The local mirror of the guilds, channels, members and messages that the
/// signed-in user can see.
pub struct Client {
    guilds: HashMap<u64, Guild>,
    /// The ids of the guilds, in the order they were added.
    guild_order: Vec<u64>,
    /// The signed-in user, once known.
    user_id: Option<u64>,
}

impl View for Client {
    type V = Map<u64, GuildView>;

    closed spec fn view(&self) -> Map<u64, GuildView> {
        self.guilds@.map_values(|g: Guild| g@)
    }
}

impl Client {
    /// The store is consistent: each guild id is listed once, and each
    /// transaction id tags at most one unconfirmed message per channel.
    pub closed spec fn wf(&self) -> bool {
        &&& self.guild_order@.no_duplicates()
        &&& forall|k: u64| self.guilds@.contains_key(k) <==> self.guild_order@.contains(k)
        &&& store_unique(self@)
    }

    /// The signed-in user, once known.
    pub closed spec fn user(&self) -> Option<u64> {
        self.user_id
    }

    /// The signed-in user, once known.
    pub fn user_id(&self) -> (r: Option<u64>)
        ensures
            r == self.user(),
    {
        self.user_id
    }

    /// Records the signed-in user.
    pub fn set_user_id(&mut self, user_id: u64)
        requires
            old(self).wf(),
        ensures
            final(self).wf(),
            final(self)@ == old(self)@,
            final(self).user() == Some(user_id),
    {
        self.user_id = Some(user_id);
    }

    /// In a well-formed store every channel keeps each transaction id on at
    /// most one unconfirmed message.
    pub proof fn lemma_wf_unique(&self)
        requires
            self.wf(),
        ensures
            store_unique(self@),
    {
    }

    /// The sources of events for every guild of the store, each once.
    pub fn subscribe_to(&self) -> (r: Vec<crate::event::EventSource>)
        requires
            self.wf(),
        ensures
            r@.no_duplicates(),
            forall|g: u64| self@.contains_key(g) <==> r@.contains(crate::event::EventSource::Guild(g)),
            r@.len() == self@.dom().len(),
    {
        let mut r: Vec<crate::event::EventSource> = Vec::new();
        let mut i: usize = 0;
        while i < self.guild_order.len()
            invariant
                self.wf(),
                i <= self.guild_order.len(),
                r@.len() == i,
                forall|j: int| 0 <= j < i ==> r@[j] == crate::event::EventSource::Guild(
                    #[trigger] self.guild_order@[j],
                ),
            decreases self.guild_order.len() - i,
        {
            r.push(crate::event::EventSource::Guild(self.guild_order[i]));
            i = i + 1;
        }
        let ghost order = self.guild_order@;
        assert(r@ =~= order.map_values(|g: u64| crate::event::EventSource::Guild(g)));
        assert forall|x: int, y: int| 0 <= x < r@.len() && 0 <= y < r@.len() && x != y implies r@[x] != r@[y] by {
            assert(order[x] != order[y]);
        }
        assert(self@.dom() =~= self.guilds@.dom());
        assert forall|g: u64| self@.contains_key(g) <==> r@.contains(crate::event::EventSource::Guild(g)) by {
            if self@.contains_key(g) {
                assert(self.guilds@.contains_key(g));
                assert(order.contains(g));
                let j = choose|j: int| 0 <= j < order.len() && order[j] == g;
                assert(r@[j] == crate::event::EventSource::Guild(g));
            }
            if r@.contains(crate::event::EventSource::Guild(g)) {
                let j = choose|j: int| 0 <= j < r@.len() && r@[j] == crate::event::EventSource::Guild(g);
                assert(order[j] == g);
                assert(order.contains(g));
                assert(self.guilds@.contains_key(g));
            }
        }
        proof {
            order.unique_seq_to_set();
            assert(order.to_set() =~= self.guilds@.dom());
            assert(self@.dom() =~= self.guilds@.dom());
        }
        r
    }

    /// An empty store for `user_id`.
    pub fn new(user_id: Option<u64>) -> (r: Client)
        ensures
            r.wf(),
            r@ == Map::<u64, GuildView>::empty(),
            r.user() == user_id,
    {
        let r = Client { guilds: HashMap::new(), guild_order: Vec::new(), user_id };
        assert(r@ =~= Map::<u64, GuildView>::empty());
        r
    }

    /// The guild `guild_id`, if the store has it.
    pub fn get_guild(&self, guild_id: u64) -> (r: Option<&Guild>)
        ensures
            match r {
                Some(g) => self@.contains_key(guild_id) && g@ == self@[guild_id],
                None => !self@.contains_key(guild_id),
            },
    {
        self.guilds.get(&guild_id)
    }

    /// The channel `channel_id` of guild `guild_id`, if the store has it.
    pub fn get_channel(&self, guild_id: u64, channel_id: u64) -> (r: Option<&Channel>)
        ensures
            match r {
                Some(c) => has_channel(self@, guild_id, channel_id) && c@
                    == self@[guild_id].channels[channel_id],
                None => !has_channel(self@, guild_id, channel_id),
            },
    {
        match self.guilds.get(&guild_id) {
            Some(g) => g.channels.get(&channel_id),
            None => None,
        }
    }

    /// The member `user_id` of guild `guild_id`, if the store has it.
    pub fn get_member(&self, guild_id: u64, user_id: u64) -> (r: Option<&Member>)
        ensures
            match r {
                Some(m) => self@.contains_key(guild_id) && self@[guild_id].members.contains_key(
                    user_id,
                ) && *m == self@[guild_id].members[user_id],
                None => !(self@.contains_key(guild_id) && self@[guild_id].members.contains_key(
                    user_id,
                )),
            },
    {
        match self.guilds.get(&guild_id) {
            Some(g) => g.members.get(&user_id),
            None => None,
        }
    }

    /// Applies `op` to guild `guild_id`. Returns whether the guild was
    /// there; if not, nothing changes.
    pub fn update_guild(&mut self, guild_id: u64, op: GuildOp) -> (r: bool)
        requires
            old(self).wf(),
        ensures
            final(self).wf(),
            r == old(self)@.contains_key(guild_id),
            final(self)@ == if r {
                old(self)@.insert(guild_id, guild_op_applied(old(self)@[guild_id], op))
            } else {
                old(self)@
            },
            final(self).user() == old(self).user(),
    {
        let ghost v0 = self@;
        let mut guild = match self.guilds.remove(&guild_id) {
            Some(g) => g,
            None => {
                assert(self.guilds@ =~= old(self).guilds@);
                return false;
            },
        };
        let ghost op0 = op;
        guild.apply(op);
        self.guilds.insert(guild_id, guild);
        let ghost g1 = guild_op_applied(v0[guild_id], op0);
        assert(self@ =~= v0.insert(guild_id, g1));
        assert(self.guilds@.dom() =~= old(self).guilds@.dom());
        assert forall|g: u64, c: u64|
            self@.contains_key(g) && #[trigger] self@[g].channels.contains_key(c) implies unconfirmed_unique(
            self@[g].channels[c].messages) by {
            if g == guild_id {
                match op0 {
                    GuildOp::CreateChannel { channel_id, .. } => {
                        if c != channel_id || v0[g].channels.contains_key(c) {
                            assert(v0[g].channels.contains_key(c));
                        }
                    },
                    _ => {
                        assert(v0[g].channels.contains_key(c));
                    },
                }
            } else {
                assert(v0[g].channels.contains_key(c));
            }
        }
        true
    }

    /// Adds guild `guild_id` of `homeserver`. A guild that the store holds
    /// already only takes the new homeserver and keeps its channels, members
    /// and metadata. Returns whether the guild was added.
    pub fn add_guild(&mut self, guild_id: u64, homeserver: String) -> (r: bool)
        requires
            old(self).wf(),
        ensures
            final(self).wf(),
            r == !old(self)@.contains_key(guild_id),
            final(self)@ == if r {
                old(self)@.insert(guild_id, fresh_guild(homeserver))
            } else {
                old(self)@.insert(guild_id, GuildView { homeserver: homeserver, ..old(self)@[guild_id] })
            },
            final(self).user() == old(self).user(),
    {
        let ghost v0 = self@;
        match self.guilds.remove(&guild_id) {
            Some(mut g) => {
                g.homeserver = homeserver;
                self.guilds.insert(guild_id, g);
                assert(self@ =~= v0.insert(guild_id, GuildView { homeserver: homeserver, ..v0[guild_id] }));
                assert(self.guilds@.dom() =~= old(self).guilds@.dom());
                assert forall|gg: u64, c: u64|
                    self@.contains_key(gg) && #[trigger] self@[gg].channels.contains_key(c) implies unconfirmed_unique(
                    self@[gg].channels[c].messages) by {
                    assert(v0[gg].channels.contains_key(c));
                }
                return false;
            },
            None => {
                assert(self.guilds@ =~= old(self).guilds@);
            },
        }
        self.guilds.insert(guild_id, Guild::new(homeserver));
        self.guild_order.push(guild_id);
        assert(self@ =~= old(self)@.insert(guild_id, fresh_guild(homeserver)));
        assert forall|k: u64| self.guilds@.contains_key(k) <==> self.guild_order@.contains(k) by {
            if k != guild_id && old(self).guild_order@.contains(k) {
                let j = choose|j: int| 0 <= j < old(self).guild_order@.len() && old(self).guild_order@[j] == k;
                assert(self.guild_order@[j] == k);
            }
            if self.guild_order@.contains(k) && k != guild_id {
                let j = choose|j: int| 0 <= j < self.guild_order@.len() && self.guild_order@[j] == k;
                assert(old(self).guild_order@[j] == k);
            }
            assert(self.guild_order@[self.guild_order@.len() - 1] == guild_id);
        }
        assert(self.guild_order@.no_duplicates()) by {
            assert(!old(self).guild_order@.contains(guild_id));
        }
        true
    }

    /// Applies profile `p` to the member `p.user_id` of every guild that has it.
    pub fn apply_profile(&mut self, p: &ProfileUpdate)
        requires
            old(self).wf(),
        ensures
            final(self).wf(),
            final(self)@ == store_profiled(old(self)@, *p),
            final(self).user() == old(self).user(),
    {
        let ghost v0 = self@;
        let ghost order = self.guild_order@;
        let mut i: usize = 0;
        while i < self.guild_order.len()
            invariant
                self.wf(),
                self.guild_order@ == order,
                order.no_duplicates(),
                i <= order.len(),
                self.user() == old(self).user(),
                self@.dom() == v0.dom(),
                forall|k: u64| v0.contains_key(k) <==> order.contains(k),
                forall|j: int| 0 <= j < i ==> self@[#[trigger] order[j]] == guild_profiled(v0[order[j]], *p),
                forall|k: u64|
                    v0.contains_key(k) && (forall|j: int| 0 <= j < i ==> order[j] != k) ==> #[trigger] self@[k]
                        == v0[k],
            decreases order.len() - i,
        {
            let g = self.guild_order[i];
            let ghost before = self@;
            let ghost gdom = self.guilds@.dom();
            assert(order.contains(g));
            assert(forall|j: int| 0 <= j < i ==> order[j] != g);
            match self.guilds.remove(&g) {
                Some(mut guild) => {
                    let ghost gv = guild@;
                    match guild.members.remove(&p.user_id) {
                        Some(mut m) => {
                            m.apply_profile(p);
                            guild.members.insert(p.user_id, m);
                        },
                        None => {},
                    }
                    assert(guild@.channels =~= gv.channels);
                    assert(guild@ == guild_profiled(gv, *p)) by {
                        assert(guild@.members =~= guild_profiled(gv, *p).members);
                    }
                    self.guilds.insert(g, guild);
                    assert(self@ =~= before.insert(g, guild_profiled(gv, *p)));
                    assert(self.guilds@.dom() =~= gdom);
                    assert forall|gg: u64, c: u64|
                        self@.contains_key(gg) && #[trigger] self@[gg].channels.contains_key(c) implies unconfirmed_unique(
                        self@[gg].channels[c].messages) by {
                        if gg != g {
                            assert(before[gg] == self@[gg]);
                        } else {
                            assert(before[gg].channels.contains_key(c));
                        }
                    }
                },
                None => {},
            }
            assert forall|j: int| 0 <= j < i + 1 implies self@[#[trigger] order[j]] == guild_profiled(v0[order[j]], *p) by {
                if j < i {
                    assert(order[j] != g);
                }
            }
            i = i + 1;
        }
        assert(self@ =~= store_profiled(v0, *p)) by {
            assert forall|k: u64| self@.contains_key(k) implies self@[k] == store_profiled(v0, *p)[k] by {
                assert(order.contains(k));
                let j = choose|j: int| 0 <= j < order.len() && order[j] == k;
                assert(self@[order[j]] == guild_profiled(v0[order[j]], *p));
            }
        }
    }

    /// Applies `op` to channel `channel_id` of guild `guild_id`. Returns
    /// whether the channel was there; if not, nothing changes.
    pub fn update_channel(&mut self, guild_id: u64, channel_id: u64, op: ChannelOp) -> (r: bool)
        requires
            old(self).wf(),
            op_allowed(op),
        ensures
            final(self).wf(),
            r == has_channel(old(self)@, guild_id, channel_id),
            final(self)@ == if r {
                with_channel(
                    old(self)@,
                    guild_id,
                    channel_id,
                    op_applied(old(self)@[guild_id].channels[channel_id], op),
                )
            } else {
                old(self)@
            },
            final(self).user() == old(self).user(),
    {
        let ghost v0 = self@;
        let mut guild = match self.guilds.remove(&guild_id) {
            Some(g) => g,
            None => {
                assert(self.guilds@ =~= old(self).guilds@);
                return false;
            },
        };
        let ghost g0 = guild@;
        let mut channel = match guild.channels.remove(&channel_id) {
            Some(c) => c,
            None => {
                assert(guild@.channels =~= g0.channels);
                self.guilds.insert(guild_id, guild);
                assert(self@ =~= v0);
                assert(self.guilds@.dom() =~= old(self).guilds@.dom());
                return false;
            },
        };
        let ghost before = channel@;
        let ghost ch0 = v0[guild_id].channels[channel_id];
        assert(before == ch0);
        let ghost op0 = op;
        channel.apply(op);
        proof {
            assert(v0[guild_id].channels.contains_key(channel_id));
            let s = ch0.messages;
            match op0 {
                ChannelOp::Confirm { transaction_id, message_id } => {
                    lemma_confirm_keeps_unconfirmed_unique(s, transaction_id, message_id);
                },
                ChannelOp::Echo { transaction_id, message } => {
                    lemma_echo_keeps_unconfirmed_unique(s, transaction_id, message);
                },
                ChannelOp::Delete { message_id } => {
                    lemma_delete_keeps_unconfirmed_unique(s, message_id);
                },
                ChannelOp::Edit { message_id, content, update_content } => {
                    lemma_edit_keeps_unconfirmed_unique(s, message_id, content, update_content);
                },
                ChannelOp::Optimistic { message } => {
                    lemma_optimistic_keeps_unconfirmed_unique(s, message);
                },
                ChannelOp::Prepend { page, .. } => {
                    lemma_prepend_keeps_unconfirmed_unique(s, page@);
                },
                ChannelOp::SetLoading { .. } => {},
            }
        }
        guild.channels.insert(channel_id, channel);
        self.guilds.insert(guild_id, guild);
        let ghost ch1 = op_applied(ch0, op0);
        assert(self@ =~= with_channel(v0, guild_id, channel_id, ch1)) by {
            assert(self@[guild_id].channels =~= v0[guild_id].channels.insert(channel_id, ch1));
        }
        proof {
            assert(self.guilds@.dom() =~= old(self).guilds@.dom());
        }
        true
    }
}

} // verus!
