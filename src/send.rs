use vstd::prelude::*;
use crate::client::{has_channel, ChannelOp, Client};
use crate::event::channel_event;
use crate::message::Message;

verus! {

/// A send for the caller to perform: wait `retry_after` time units, then
/// deliver `message` to the channel.
#[derive(Debug)]
pub struct SendRequest {
    pub guild_id: u64,
    pub channel_id: u64,
    pub message: Message,
    pub retry_after: u64,
}

/// The delay before the next attempt after a failed send: one time unit more.
pub open spec fn next_delay(retry_after: u64) -> u64 {
    if retry_after < u64::MAX {
        (retry_after + 1) as u64
    } else {
        retry_after
    }
}

/// The same send again after a failure, one time unit later.
pub fn retry_after_failure(request: SendRequest) -> (r: SendRequest)
    ensures
        r.retry_after == next_delay(request.retry_after),
        r.guild_id == request.guild_id,
        r.channel_id == request.channel_id,
        r.message == request.message,
{
    SendRequest { retry_after: request.retry_after.saturating_add(1), ..request }
}

impl Client {
    /// Starts or resumes the send of unconfirmed `message` to channel
    /// `channel_id` of guild `guild_id`. On the first attempt
    /// (`retry_after == 0`) the message is shown at once; a retry leaves the
    /// store as it is. Returns the send to perform, or `None` when the
    /// channel is gone.
    pub fn send_message(
        &mut self,
        guild_id: u64,
        channel_id: u64,
        message: Message,
        retry_after: u64,
    ) -> (r: Option<SendRequest>)
        requires
            old(self).wf(),
            message.id is Unack,
        ensures
            final(self).wf(),
            final(self).user() == old(self).user(),
            r is Some == has_channel(old(self)@, guild_id, channel_id),
            final(self)@ == if retry_after == 0 {
                channel_event(old(self)@, guild_id, channel_id, ChannelOp::Optimistic { message })
            } else {
                old(self)@
            },
            match r {
                Some(q) => q.guild_id == guild_id && q.channel_id == channel_id && q.retry_after
                    == retry_after && q.message.id == message.id && q.message.sender
                    == message.sender && q.message.content == message.content
                    && q.message.attachments@ == message.attachments@ && q.message.overrides
                    == message.overrides,
                None => true,
            },
    {
        if self.get_channel(guild_id, channel_id).is_none() {
            return None;
        }
        let payload = message.duplicate();
        if retry_after == 0 {
            self.update_channel(guild_id, channel_id, ChannelOp::Optimistic { message });
        }
        Some(SendRequest { guild_id, channel_id, message: payload, retry_after })
    }

    /// The server confirmed the send of `transaction_id` as `message_id`:
    /// the unconfirmed message takes that identity where it stands. Returns
    /// whether it was found; if not, nothing changes.
    pub fn on_message_sent(
        &mut self,
        guild_id: u64,
        channel_id: u64,
        transaction_id: u64,
        message_id: u64,
    ) -> (r: bool)
        requires
            old(self).wf(),
        ensures
            final(self).wf(),
            final(self).user() == old(self).user(),
            final(self)@ == channel_event(
                old(self)@,
                guild_id,
                channel_id,
                ChannelOp::Confirm { transaction_id, message_id },
            ),
            r == has_channel(old(self)@, guild_id, channel_id),
    {
        self.update_channel(
            guild_id,
            channel_id,
            ChannelOp::Confirm { transaction_id, message_id },
        )
    }
}

} // verus!
