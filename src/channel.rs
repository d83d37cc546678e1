use vstd::prelude::*;
use crate::message::{confirmed, IncomingMessage, Message, MessageId};

verus! {

/// `i` is the first position of `s` whose message has identity `id`.
pub open spec fn is_first(s: Seq<Message>, id: MessageId, i: int) -> bool {
    &&& 0 <= i < s.len()
    &&& s[i].id == id
    &&& forall|j: int| 0 <= j < i ==> s[j].id != id
}

/// Some message of `s` has identity `id`.
pub open spec fn has_id(s: Seq<Message>, id: MessageId) -> bool {
    exists|i: int| 0 <= i < s.len() && s[i].id == id
}

/// The first position of `s` whose message has identity `id`.
pub open spec fn first_index(s: Seq<Message>, id: MessageId) -> int {
    choose|i: int| is_first(s, id, i)
}

/// Each transaction id tags at most one unconfirmed message of `s`.
pub open spec fn unconfirmed_unique(s: Seq<Message>) -> bool {
    forall|i: int, j: int|
        0 <= i < s.len() && 0 <= j < s.len() && (#[trigger] s[i]).id is Unack && s[i].id == (
        #[trigger] s[j]).id ==> i == j
}

/// The messages after a send confirmation: the unconfirmed message with
/// transaction id `t`, if any, takes identity `Ack(m)` where it stands.
pub open spec fn echo_applied(s: Seq<Message>, t: u64, m: u64) -> Seq<Message> {
    let u = MessageId::Unack(t);
    if has_id(s, u) {
        let i = first_index(s, u);
        s.update(i, Message { id: MessageId::Ack(m), ..s[i] })
    } else {
        s
    }
}

/// The messages after a server echo of `msg` for transaction id `t`: the
/// placeholder is replaced where it stands; failing that, a message that
/// already has the identity of `msg` (the send was confirmed first) is
/// replaced where it stands; only otherwise is `msg` appended.
pub open spec fn echo_merged(s: Seq<Message>, t: u64, msg: Message) -> Seq<Message> {
    let u = MessageId::Unack(t);
    if has_id(s, u) {
        s.update(first_index(s, u), msg)
    } else if has_id(s, msg.id) {
        s.update(first_index(s, msg.id), msg)
    } else {
        s.push(msg)
    }
}

/// Each confirmed id is carried by at most one message of `s`.
pub open spec fn confirmed_unique(s: Seq<Message>) -> bool {
    forall|i: int, j: int|
        0 <= i < s.len() && 0 <= j < s.len() && (#[trigger] s[i]).id is Ack && s[i].id == (
        #[trigger] s[j]).id ==> i == j
}

/// The messages after deleting the first message confirmed as `m`.
pub open spec fn deleted(s: Seq<Message>, m: u64) -> Seq<Message> {
    let a = MessageId::Ack(m);
    if has_id(s, a) {
        s.remove(first_index(s, a))
    } else {
        s
    }
}

/// The messages after an edit of the message confirmed as `m`.
pub open spec fn edited(s: Seq<Message>, m: u64, content: String, update_content: bool) -> Seq<
    Message,
> {
    let a = MessageId::Ack(m);
    if has_id(s, a) && update_content {
        let i = first_index(s, a);
        s.update(i, Message { content: content, ..s[i] })
    } else {
        s
    }
}

/// The messages after the optimistic insert of unconfirmed `msg`.
pub open spec fn optimistic(s: Seq<Message>, msg: Message) -> Seq<Message> {
    if has_id(s, msg.id) {
        s.update(first_index(s, msg.id), msg)
    } else {
        s.push(msg)
    }
}

/// The messages after a page of older history is put in front of them.
pub open spec fn prepended(s: Seq<Message>, page: Seq<IncomingMessage>) -> Seq<Message> {
    page.map_values(|m: IncomingMessage| confirmed(m)) + s
}

/// A position that is first for `id` is the one that `first_index` picks.
pub proof fn lemma_first_index(s: Seq<Message>, id: MessageId, i: int)
    requires
        is_first(s, id, i),
    ensures
        first_index(s, id) == i,
        has_id(s, id),
{
    let k = first_index(s, id);
    assert(is_first(s, id, k));
    if k < i {
        assert(s[k].id != id);
    }
    if i < k {
        assert(s[i].id != id);
    }
}

/// Where some message has identity `id`, a first one does.
pub proof fn lemma_has_first(s: Seq<Message>, id: MessageId)
    requires
        has_id(s, id),
    ensures
        is_first(s, id, first_index(s, id)),
    decreases s.len(),
{
    let d = s.drop_last();
    assert(forall|j: int| 0 <= j < d.len() ==> d[j] == s[j]);
    if has_id(d, id) {
        lemma_has_first(d, id);
        let k = first_index(d, id);
        assert(is_first(s, id, k));
    } else {
        let w = choose|i: int| 0 <= i < s.len() && s[i].id == id;
        if w < d.len() {
            assert(d[w].id == id);
        }
        assert(forall|j: int| 0 <= j < d.len() ==> d[j].id != id);
        assert(is_first(s, id, s.len() - 1));
    }
}

/// Search for the first message with identity `id`.
fn find(v: &Vec<Message>, id: MessageId) -> (r: Option<usize>)
    ensures
        match r {
            Some(i) => is_first(v@, id, i as int) && first_index(v@, id) == i,
            None => !has_id(v@, id),
        },
{
    let mut i: usize = 0;
    while i < v.len()
        invariant
            i <= v.len(),
            forall|j: int| 0 <= j < i ==> v@[j].id != id,
        decreases v.len() - i,
    {
        if v[i].id == id {
            proof {
                lemma_first_index(v@, id, i as int);
            }
            return Some(i);
        }
        i = i + 1;
    }
    None
}

/// A confirmation keeps each transaction id on at most one unconfirmed message.
pub proof fn lemma_confirm_keeps_unconfirmed_unique(s: Seq<Message>, t: u64, m: u64)
    requires
        unconfirmed_unique(s),
    ensures
        unconfirmed_unique(echo_applied(s, t, m)),
{
    if has_id(s, MessageId::Unack(t)) {
        lemma_has_first(s, MessageId::Unack(t));
    }
}

/// A server echo keeps each transaction id on at most one unconfirmed message.
pub proof fn lemma_echo_keeps_unconfirmed_unique(s: Seq<Message>, t: u64, arrived: Message)
    requires
        unconfirmed_unique(s),
        arrived.id is Ack,
    ensures
        unconfirmed_unique(echo_merged(s, t, arrived)),
{
    let u = MessageId::Unack(t);
    if has_id(s, u) {
        lemma_has_first(s, u);
    } else if has_id(s, arrived.id) {
        lemma_has_first(s, arrived.id);
    } else {
        let r = s.push(arrived);
        assert forall|x: int, y: int|
            0 <= x < r.len() && 0 <= y < r.len() && (#[trigger] r[x]).id is Unack && r[x].id == (
            #[trigger] r[y]).id implies x == y by {
            if x < s.len() && y < s.len() {
                assert(r[x] == s[x] && r[y] == s[y]);
            }
        }
    }
}

/// A server echo keeps each confirmed id on at most one message: an echo
/// that arrives after the send was confirmed adds no second copy.
pub proof fn lemma_echo_keeps_confirmed_unique(s: Seq<Message>, t: u64, arrived: Message)
    requires
        confirmed_unique(s),
        unconfirmed_unique(s),
        arrived.id is Ack,
        has_id(s, MessageId::Unack(t)) ==> !has_id(s, arrived.id),
    ensures
        confirmed_unique(echo_merged(s, t, arrived)),
{
    let u = MessageId::Unack(t);
    if has_id(s, u) {
        lemma_has_first(s, u);
        let i = first_index(s, u);
        let r = s.update(i, arrived);
        assert forall|x: int, y: int|
            0 <= x < r.len() && 0 <= y < r.len() && (#[trigger] r[x]).id is Ack && r[x].id == (
            #[trigger] r[y]).id implies x == y by {
            if x == i && y != i {
                assert(s[y].id == arrived.id);
            }
            if y == i && x != i {
                assert(s[x].id == arrived.id);
            }
        }
    } else if has_id(s, arrived.id) {
        lemma_has_first(s, arrived.id);
    } else {
        let r = s.push(arrived);
        assert forall|x: int, y: int|
            0 <= x < r.len() && 0 <= y < r.len() && (#[trigger] r[x]).id is Ack && r[x].id == (
            #[trigger] r[y]).id implies x == y by {
            if x < s.len() && y == s.len() {
                assert(s[x].id == arrived.id);
            }
            if y < s.len() && x == s.len() {
                assert(s[y].id == arrived.id);
            }
        }
    }
}

/// The send's own confirmation and the server's echo of the same message
/// give the same messages in either order: one confirmed copy, where the
/// placeholder stood.
pub proof fn lemma_confirm_and_echo_converge(s: Seq<Message>, t: u64, m: u64, arrived: Message)
    requires
        unconfirmed_unique(s),
        arrived.id == MessageId::Ack(m),
        !has_id(s, MessageId::Ack(m)),
    ensures
        echo_merged(echo_applied(s, t, m), t, arrived) == echo_applied(
            echo_merged(s, t, arrived),
            t,
            m,
        ),
{
    let u = MessageId::Unack(t);
    let a = MessageId::Ack(m);
    if has_id(s, u) {
        lemma_has_first(s, u);
        let i = first_index(s, u);
        let s1 = echo_applied(s, t, m);
        assert forall|k: int| 0 <= k < s1.len() implies s1[k].id != u by {
            if k != i {
                assert(s[k].id != u || k == i);
            }
        }
        assert(!has_id(s1, u));
        assert forall|k: int| 0 <= k < i implies s1[k].id != a by {
            assert(s[k].id != a);
        }
        assert(is_first(s1, a, i));
        lemma_first_index(s1, a, i);
        assert(s1.update(i, arrived) =~= s.update(i, arrived));
        let s2 = s.update(i, arrived);
        assert forall|k: int| 0 <= k < s2.len() implies s2[k].id != u by {
            if k != i {
                assert(s[k].id != u || k == i);
            }
        }
        assert(!has_id(s2, u));
    } else {
        let s2 = s.push(arrived);
        assert forall|k: int| 0 <= k < s2.len() implies s2[k].id != u by {
            if k < s.len() {
                assert(s2[k] == s[k]);
            }
        }
        assert(!has_id(s2, u));
    }
}

/// A deletion keeps each transaction id on at most one unconfirmed message.
pub proof fn lemma_delete_keeps_unconfirmed_unique(s: Seq<Message>, m: u64)
    requires
        unconfirmed_unique(s),
    ensures
        unconfirmed_unique(deleted(s, m)),
{
    let a = MessageId::Ack(m);
    if has_id(s, a) {
        lemma_has_first(s, a);
        let i = first_index(s, a);
        let r = s.remove(i);
        assert forall|x: int, y: int|
            0 <= x < r.len() && 0 <= y < r.len() && (#[trigger] r[x]).id is Unack && r[x].id == (
            #[trigger] r[y]).id implies x == y by {
            let x0 = if x < i { x } else { x + 1 };
            let y0 = if y < i { y } else { y + 1 };
            assert(r[x] == s[x0]);
            assert(r[y] == s[y0]);
        }
    }
}

/// An edit keeps each transaction id on at most one unconfirmed message.
pub proof fn lemma_edit_keeps_unconfirmed_unique(
    s: Seq<Message>,
    m: u64,
    content: String,
    update_content: bool,
)
    requires
        unconfirmed_unique(s),
    ensures
        unconfirmed_unique(edited(s, m, content, update_content)),
{
    let a = MessageId::Ack(m);
    if has_id(s, a) {
        lemma_has_first(s, a);
    }
}

/// An optimistic insert keeps each transaction id on at most one
/// unconfirmed message.
pub proof fn lemma_optimistic_keeps_unconfirmed_unique(s: Seq<Message>, pending: Message)
    requires
        unconfirmed_unique(s),
        pending.id is Unack,
    ensures
        unconfirmed_unique(optimistic(s, pending)),
{
    if has_id(s, pending.id) {
        lemma_has_first(s, pending.id);
    } else {
        let r = s.push(pending);
        assert forall|x: int, y: int|
            0 <= x < r.len() && 0 <= y < r.len() && (#[trigger] r[x]).id is Unack && r[x].id == (
            #[trigger] r[y]).id implies x == y by {
            if x < s.len() && y == s.len() {
                assert(s[x].id == pending.id);
            }
            if y < s.len() && x == s.len() {
                assert(s[y].id == pending.id);
            }
        }
    }
}

/// A page of history keeps each transaction id on at most one unconfirmed
/// message: the page holds confirmed messages only.
pub proof fn lemma_prepend_keeps_unconfirmed_unique(s: Seq<Message>, page: Seq<IncomingMessage>)
    requires
        unconfirmed_unique(s),
    ensures
        unconfirmed_unique(prepended(s, page)),
{
    let q = page.map_values(|x: IncomingMessage| confirmed(x));
    let r = prepended(s, page);
    assert forall|x: int, y: int|
        0 <= x < r.len() && 0 <= y < r.len() && (#[trigger] r[x]).id is Unack && r[x].id == (
        #[trigger] r[y]).id implies x == y by {
        if x < q.len() {
            assert(r[x] == confirmed(page[x]));
        }
        if y < q.len() {
            assert(r[y] == confirmed(page[y]));
        }
        if x >= q.len() && y >= q.len() {
            assert(r[x] == s[x - q.len()]);
            assert(r[y] == s[y - q.len()]);
        }
    }
}

/// Showing the same unconfirmed message twice leaves one copy of it: a retry
/// never adds a second placeholder for its transaction id.
pub proof fn lemma_optimistic_idempotent(s: Seq<Message>, msg: Message)
    requires
        msg.id is Unack,
    ensures
        optimistic(optimistic(s, msg), msg) == optimistic(s, msg),
{
    let once = optimistic(s, msg);
    if has_id(s, msg.id) {
        lemma_has_first(s, msg.id);
        let i = first_index(s, msg.id);
        assert(is_first(once, msg.id, i));
        lemma_first_index(once, msg.id, i);
        assert(once.update(i, msg) =~= once);
    } else {
        let n = s.len() as int;
        assert(is_first(once, msg.id, n));
        lemma_first_index(once, msg.id, n);
        assert(once.update(n, msg) =~= once);
    }
}

/// A confirmation for a transaction id that no unconfirmed message carries
/// changes nothing: the resolver never makes up a message.
pub proof fn lemma_echo_without_placeholder(s: Seq<Message>, t: u64, m: u64)
    requires
        forall|i: int| 0 <= i < s.len() ==> s[i].id != MessageId::Unack(t),
    ensures
        echo_applied(s, t, m) == s,
{
}

/// Prepending a newer page and then an older one gives the same messages as
/// prepending both pages at once, older first.
pub proof fn lemma_prepend_associative(
    s: Seq<Message>,
    newer: Seq<IncomingMessage>,
    older: Seq<IncomingMessage>,
)
    ensures
        prepended(prepended(s, newer), older) == prepended(s, older + newer),
{
    let f = |x: IncomingMessage| confirmed(x);
    assert((older + newer).map_values(f) =~= older.map_values(f) + newer.map_values(f));
    assert(older.map_values(f) + (newer.map_values(f) + s) =~= (older.map_values(f)
        + newer.map_values(f)) + s);
}

/// An edit that does not say its content changed leaves every message,
/// and so every content, as it was.
pub proof fn lemma_edit_keeps_content(s: Seq<Message>, m: u64, content: String)
    ensures
        edited(s, m, content, false) == s,
        forall|i: int|
            0 <= i < s.len() ==> (#[trigger] edited(s, m, content, false)[i]).content
                == s[i].content,
{
}

/// A channel of a guild, with its messages oldest first.
#[derive(Debug)]
pub struct Channel {
    pub name: String,
    pub is_category: bool,
    pub messages: Vec<Message>,
    /// A page of history has been asked for and has not come yet.
    pub loading_messages_history: bool,
    /// The position of the message that the reader looks at.
    pub looking_at_message: usize,
    /// The start of the history has been reached: no older page exists.
    pub reached_top: bool,
}

/// What the store holds of a channel.
pub struct ChannelView {
    pub name: String,
    pub is_category: bool,
    pub messages: Seq<Message>,
    pub loading_messages_history: bool,
    pub looking_at_message: usize,
    pub reached_top: bool,
}

impl View for Channel {
    type V = ChannelView;

    open spec fn view(&self) -> ChannelView {
        ChannelView {
            name: self.name,
            is_category: self.is_category,
            messages: self.messages@,
            loading_messages_history: self.loading_messages_history,
            looking_at_message: self.looking_at_message,
            reached_top: self.reached_top,
        }
    }
}

/// A channel as a creation event makes it.
pub open spec fn fresh_channel(name: String, is_category: bool) -> ChannelView {
    ChannelView {
        name: name,
        is_category: is_category,
        messages: Seq::empty(),
        loading_messages_history: false,
        looking_at_message: 0,
        reached_top: false,
    }
}

impl Channel {
    /// A channel without messages.
    pub fn new(name: String, is_category: bool) -> (r: Channel)
        ensures
            r@ == fresh_channel(name, is_category),
    {
        let r = Channel {
            name,
            is_category,
            messages: Vec::new(),
            loading_messages_history: false,
            looking_at_message: 0,
            reached_top: false,
        };
        assert(r.messages@ =~= Seq::<Message>::empty());
        r
    }

    /// Confirms the unconfirmed message with transaction id `transaction_id`
    /// in place, giving it the server's id `message_id`. Returns whether such
    /// a message was there; if not, nothing changes.
    pub fn apply_send_echo(&mut self, transaction_id: u64, message_id: u64) -> (r: bool)
        ensures
            r == has_id(old(self).messages@, MessageId::Unack(transaction_id)),
            final(self).messages@ == echo_applied(
                old(self).messages@,
                transaction_id,
                message_id,
            ),
            final(self).name == old(self).name,
            final(self).is_category == old(self).is_category,
            final(self).loading_messages_history == old(self).loading_messages_history,
            final(self).looking_at_message == old(self).looking_at_message,
            final(self).reached_top == old(self).reached_top,
    {
        match find(&self.messages, MessageId::Unack(transaction_id)) {
            Some(i) => {
                self.messages[i].id = MessageId::Ack(message_id);
                true
            },
            None => false,
        }
    }

    /// Merges a server echo `msg` of the message sent with `transaction_id`:
    /// it replaces the placeholder where it stands, or else a message that
    /// already has its identity; only when neither is there is it appended.
    pub fn merge_echo(&mut self, transaction_id: u64, msg: Message)
        ensures
            final(self).messages@ == echo_merged(old(self).messages@, transaction_id, msg),
            final(self).name == old(self).name,
            final(self).is_category == old(self).is_category,
            final(self).loading_messages_history == old(self).loading_messages_history,
            final(self).looking_at_message == old(self).looking_at_message,
            final(self).reached_top == old(self).reached_top,
    {
        match find(&self.messages, MessageId::Unack(transaction_id)) {
            Some(i) => {
                self.messages.set(i, msg);
            },
            None => match find(&self.messages, msg.id) {
                Some(i) => {
                    self.messages.set(i, msg);
                },
                None => {
                    self.messages.push(msg);
                },
            },
        }
    }

    /// Removes the first message confirmed as `message_id`, if any.
    pub fn apply_delete(&mut self, message_id: u64)
        ensures
            final(self).messages@ == deleted(old(self).messages@, message_id),
            final(self).name == old(self).name,
            final(self).is_category == old(self).is_category,
            final(self).loading_messages_history == old(self).loading_messages_history,
            final(self).looking_at_message == old(self).looking_at_message,
            final(self).reached_top == old(self).reached_top,
    {
        match find(&self.messages, MessageId::Ack(message_id)) {
            Some(i) => {
                self.messages.remove(i);
            },
            None => {},
        }
    }

    /// Replaces the content of the message confirmed as `message_id` when
    /// `update_content` says that the content changed.
    pub fn apply_edit(&mut self, message_id: u64, content: String, update_content: bool)
        ensures
            final(self).messages@ == edited(
                old(self).messages@,
                message_id,
                content,
                update_content,
            ),
            final(self).name == old(self).name,
            final(self).is_category == old(self).is_category,
            final(self).loading_messages_history == old(self).loading_messages_history,
            final(self).looking_at_message == old(self).looking_at_message,
            final(self).reached_top == old(self).reached_top,
    {
        if update_content {
            match find(&self.messages, MessageId::Ack(message_id)) {
                Some(i) => {
                    self.messages[i].content = content;
                },
                None => {},
            }
        }
    }

    /// Shows unconfirmed `msg` at once: it replaces a message with the same
    /// transaction id where it stands, or is appended.
    pub fn insert_unconfirmed(&mut self, msg: Message)
        requires
            msg.id is Unack,
        ensures
            final(self).messages@ == optimistic(old(self).messages@, msg),
            final(self).name == old(self).name,
            final(self).is_category == old(self).is_category,
            final(self).loading_messages_history == old(self).loading_messages_history,
            final(self).looking_at_message == old(self).looking_at_message,
            final(self).reached_top == old(self).reached_top,
    {
        match find(&self.messages, msg.id) {
            Some(i) => {
                self.messages.set(i, msg);
            },
            None => {
                self.messages.push(msg);
            },
        }
    }

    /// Puts a page of older history, oldest first, in front of the messages
    /// and records whether the start of the history has been reached.
    pub fn prepend_history(&mut self, page: Vec<IncomingMessage>, reached_top: bool)
        ensures
            final(self).messages@ == prepended(old(self).messages@, page@),
            final(self).reached_top == reached_top,
            !final(self).loading_messages_history,
            final(self).name == old(self).name,
            final(self).is_category == old(self).is_category,
            final(self).looking_at_message == old(self).looking_at_message,
    {
        let ghost p = page@;
        let mut page = page;
        let mut batch: Vec<Message> = Vec::new();
        let mut rest: Vec<IncomingMessage> = Vec::new();
        // Take the page apart from its end, keeping the order in `rest`.
        while page.len() > 0
            invariant
                p == page@ + rest@,
            decreases page.len(),
        {
            let m = page.pop().unwrap();
            rest.insert(0, m);
        }
        let ghost q = rest@;
        while rest.len() > 0
            invariant
                q == p,
                batch@ + rest@.map_values(|m: IncomingMessage| confirmed(m)) == p.map_values(
                    |m: IncomingMessage| confirmed(m),
                ),
            decreases rest.len(),
        {
            let m = rest.remove(0);
            batch.push(Message::from_incoming(m));
        }
        batch.append(&mut self.messages);
        self.messages = batch;
        self.reached_top = reached_top;
        self.loading_messages_history = false;
    }
}

} // verus!
