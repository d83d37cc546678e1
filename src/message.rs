use vstd::prelude::*;

verus! {

/// The identity of a message: either the transaction id chosen by this
/// client before the server knows the message, or the id that the server
/// assigned to it.
#[derive(Clone, Copy, Debug, PartialEq, Eq, Structural)]
pub enum MessageId {
    /// Not yet confirmed; tagged by the client's transaction ("echo") id.
    Unack(u64),
    /// Confirmed; tagged by the server's permanent message id.
    Ack(u64),
}

impl MessageId {
    /// The transaction id of an unconfirmed identity.
    pub fn transaction_id(&self) -> (r: Option<u64>)
        ensures
            r == match *self {
                MessageId::Unack(t) => Some(t),
                MessageId::Ack(_) => None::<u64>,
            },
    {
        match *self {
            MessageId::Unack(t) => Some(t),
            MessageId::Ack(_) => None,
        }
    }

    /// The permanent id of a confirmed identity.
    pub fn message_id(&self) -> (r: Option<u64>)
        ensures
            r == match *self {
                MessageId::Ack(m) => Some(m),
                MessageId::Unack(_) => None::<u64>,
            },
    {
        match *self {
            MessageId::Ack(m) => Some(m),
            MessageId::Unack(_) => None,
        }
    }
}

/// Relabelling of a message's sender, as bots and bridges use it.
#[derive(Clone, Debug)]
pub struct Override {
    pub name: String,
    pub avatar_url: Option<String>,
    pub reason: String,
}

impl Override {
    /// A field-by-field copy.
    pub fn duplicate(&self) -> (r: Override)
        ensures
            r == *self,
    {
        let avatar_url = match &self.avatar_url {
            Some(a) => Some(a.clone()),
            None => None,
        };
        Override { name: self.name.clone(), avatar_url, reason: self.reason.clone() }
    }
}

/// A message as the local mirror holds it.
#[derive(Clone, Debug)]
pub struct Message {
    pub id: MessageId,
    pub sender: u64,
    pub content: String,
    /// Ids of the attached files, in order.
    pub attachments: Vec<String>,
    pub overrides: Option<Override>,
}

/// A confirmed message as the server delivers it, in an event or in a page
/// of history.
#[derive(Clone, Debug)]
pub struct IncomingMessage {
    pub message_id: u64,
    pub sender: u64,
    pub content: String,
    pub attachments: Vec<String>,
    pub overrides: Option<Override>,
}

/// The local form of a message that the server delivered.
pub open spec fn confirmed(m: IncomingMessage) -> Message {
    Message {
        id: MessageId::Ack(m.message_id),
        sender: m.sender,
        content: m.content,
        attachments: m.attachments,
        overrides: m.overrides,
    }
}

impl Message {
    /// Takes over a message delivered by the server, with a confirmed identity.
    pub fn from_incoming(m: IncomingMessage) -> (r: Message)
        ensures
            r == confirmed(m),
    {
        Message {
            id: MessageId::Ack(m.message_id),
            sender: m.sender,
            content: m.content,
            attachments: m.attachments,
            overrides: m.overrides,
        }
    }

    /// A copy of every field that the server needs to deliver the message.
    pub fn duplicate(&self) -> (r: Message)
        ensures
            r.id == self.id,
            r.sender == self.sender,
            r.content == self.content,
            r.attachments@ == self.attachments@,
            r.overrides == self.overrides,
    {
        let mut attachments: Vec<String> = Vec::new();
        let mut i: usize = 0;
        while i < self.attachments.len()
            invariant
                i <= self.attachments.len(),
                attachments@ == self.attachments@.subrange(0, i as int),
            decreases self.attachments.len() - i,
        {
            attachments.push(self.attachments[i].clone());
            i = i + 1;
        }
        assert(attachments@ == self.attachments@);
        let overrides = match &self.overrides {
            Some(o) => Some(o.duplicate()),
            None => None,
        };
        Message {
            id: self.id,
            sender: self.sender,
            content: self.content.clone(),
            attachments,
            overrides,
        }
    }
}

} // verus!
