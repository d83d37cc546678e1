use vstd::prelude::*;

verus! {

/// Where the creation of a channel stands.
#[derive(Clone, Debug)]
pub enum ChannelState {
    /// The channel `name` was created as `channel_id` in guild `guild_id`.
    Created { guild_id: u64, channel_id: u64, name: String },
    /// The creation of channel `name` was asked for.
    Creating { name: String },
    Idle,
}

impl Default for ChannelState {
    fn default() -> (r: ChannelState)
        ensures
            r is Idle,
    {
        ChannelState::Idle
    }
}

/// What the user does in the channel creation dialog, or what comes back.
#[derive(Clone, Debug)]
pub enum Message {
    ChannelNameChanged(String),
    CreateChannel,
    CreatedChannel { guild_id: u64, channel_id: u64 },
    GoBack,
}

/// A request to create channel `name` in guild `guild_id`.
#[derive(Debug)]
pub struct CreateChannelRequest {
    pub guild_id: u64,
    pub name: String,
}

/// The dialog that creates a channel in a guild.
#[derive(Debug)]
pub struct ChannelCreationModal {
    pub channel_creation_state: ChannelState,
    pub channel_name_field: String,
    pub error_text: String,
}

impl ChannelCreationModal {
    /// An empty dialog.
    pub fn new() -> (r: ChannelCreationModal)
        ensures
            r.channel_creation_state is Idle,
            r.channel_name_field@.len() == 0,
            r.error_text@.len() == 0,
    {
        ChannelCreationModal {
            channel_creation_state: ChannelState::Idle,
            channel_name_field: String::new(),
            error_text: String::new(),
        }
    }

    /// Nothing is being created: the user may leave the dialog.
    pub open spec fn idle(&self) -> bool {
        !(self.channel_creation_state is Creating)
    }

    /// Whether the user may leave the dialog.
    pub fn can_go_back(&self) -> (r: bool)
        ensures
            r == self.idle(),
    {
        match &self.channel_creation_state {
            ChannelState::Creating { .. } => false,
            _ => true,
        }
    }

    /// Whether the user may ask for the channel: nothing is being created
    /// and a name was entered.
    pub fn can_create(&self) -> (r: bool)
        ensures
            r == (self.idle() && self.channel_name_field@.len() > 0),
    {
        self.can_go_back() && !self.channel_name_field.as_str().is_empty()
    }

    /// Acts on `msg` in the dialog for guild `guild_id`. Returns the creation
    /// to perform, if any, and whether to leave the dialog.
    pub fn update(&mut self, msg: Message, guild_id: u64) -> (r: (
        Option<CreateChannelRequest>,
        bool,
    ))
        ensures
            match msg {
                Message::ChannelNameChanged(new_name) => {
                    &&& final(self).channel_name_field == new_name
                    &&& final(self).channel_creation_state == old(self).channel_creation_state
                    &&& final(self).error_text == old(self).error_text
                    &&& r.0 is None && !r.1
                },
                Message::CreateChannel => {
                    &&& final(self).channel_name_field == old(self).channel_name_field
                    &&& final(self).channel_creation_state == ChannelState::Creating {
                        name: old(self).channel_name_field,
                    }
                    &&& final(self).error_text@.len() == 0
                    &&& r.0 == Some(
                        CreateChannelRequest { guild_id, name: old(self).channel_name_field },
                    )
                    &&& !r.1
                },
                Message::CreatedChannel { guild_id: g, channel_id } => {
                    &&& final(self).channel_creation_state == ChannelState::Created {
                        guild_id: g,
                        channel_id,
                        name: old(self).channel_name_field,
                    }
                    &&& final(self).channel_name_field@.len() == 0
                    &&& final(self).error_text == old(self).error_text
                    &&& r.0 is None && !r.1
                },
                Message::GoBack => {
                    &&& final(self).channel_creation_state is Idle
                    &&& final(self).channel_name_field@.len() == 0
                    &&& final(self).error_text@.len() == 0
                    &&& r.0 is None && r.1
                },
            },
    {
        match msg {
            Message::ChannelNameChanged(new_name) => {
                self.channel_name_field = new_name;
                (None, false)
            },
            Message::CreateChannel => {
                let channel_name = self.channel_name_field.clone();
                self.error_text = String::new();
                self.channel_creation_state = ChannelState::Creating { name: channel_name.clone() };
                (Some(CreateChannelRequest { guild_id, name: channel_name }), false)
            },
            Message::CreatedChannel { guild_id, channel_id } => {
                let name = self.channel_name_field.clone();
                self.channel_name_field = String::new();
                self.channel_creation_state = ChannelState::Created { guild_id, channel_id, name };
                (None, false)
            },
            Message::GoBack => {
                self.channel_creation_state = ChannelState::Idle;
                self.channel_name_field = String::new();
                self.error_text = String::new();
                (None, true)
            },
        }
    }

    /// Shows `error` and gives up the creation under way.
    pub fn on_error(&mut self, error: String)
        ensures
            final(self).error_text == error,
            final(self).channel_creation_state is Idle,
            final(self).channel_name_field == old(self).channel_name_field,
    {
        self.error_text = error;
        self.channel_creation_state = ChannelState::Idle;
    }
}

} // verus!
