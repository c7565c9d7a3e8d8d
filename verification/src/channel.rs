//! The retention channel: a bounded, ordered log with independent readers.
//!
//! A channel is modelled as the log of every message ever appended together
//! with the position of the oldest message it still holds. Appending never
//! fails: when a limit is exceeded the oldest messages leave first. A reader is
//! a position in the log; reading never changes the channel.

use crate::config::ConfigChannel;
use crate::protobuf::encoded;
use crate::protobuf::ProtobufEncoder;
use crate::protobuf::ProtobufMessage;
use std::collections::VecDeque;
use std::sync::Arc;
use vstd::prelude::*;

verus! {

/// A message as a mathematical value.
pub struct MessageView {
    /// Position of the message in the log.
    pub seq: nat,
    /// The encoded bytes.
    pub payload: Seq<u8>,
    /// The mode the bytes were produced in.
    pub encoder: ProtobufEncoder,
}

/// Sum of the payload lengths of `messages`.
pub open spec fn payload_bytes(messages: Seq<MessageView>) -> nat
    decreases messages.len(),
{
    if messages.len() == 0 {
        0
    } else {
        payload_bytes(messages.drop_last()) + messages.last().payload.len()
    }
}

/// Whether `messages` can be held together under the two limits.
pub open spec fn fits(messages: Seq<MessageView>, max_messages: nat, max_bytes: nat) -> bool {
    messages.len() <= max_messages && payload_bytes(messages) <= max_bytes
}

/// Where the retained window starts once messages have left `log` from position
/// `head` on, oldest first, until what is left fits.
pub open spec fn evicted_head(
    log: Seq<MessageView>,
    head: nat,
    max_messages: nat,
    max_bytes: nat,
) -> nat
    decreases log.len() - head,
{
    if head >= log.len() || fits(log.subrange(head as int, log.len() as int), max_messages, max_bytes) {
        head
    } else {
        evicted_head(log, head + 1, max_messages, max_bytes)
    }
}

/// What a read returns, as a mathematical value.
pub enum RecvView {
    /// The next message in order.
    Delivered(MessageView),
    /// The reader fell behind; this many messages were skipped.
    Lagged(nat),
    /// The channel is closed and the reader has nothing left to read.
    EndOfStream,
    /// Nothing to read yet; the reader waits for an append or for the close.
    Pending,
}

/// The state of a channel as a mathematical value.
pub struct ChannelView {
    /// Every message ever appended, in order.
    pub log: Seq<MessageView>,
    /// Sequence number of the oldest retained message; `log.len()` when none is retained.
    pub head: nat,
    /// Whether the channel was closed.
    pub closed: bool,
    /// Most messages retained at once.
    pub max_messages: nat,
    /// Most payload bytes retained at once.
    pub max_bytes: nat,
}

impl ChannelView {
    /// An open channel that holds nothing.
    pub open spec fn new(max_messages: nat, max_bytes: nat) -> ChannelView {
        ChannelView { log: Seq::empty(), head: 0, closed: false, max_messages, max_bytes }
    }

    /// The sequence number the next appended message gets.
    pub open spec fn next_seq(self) -> nat {
        self.log.len()
    }

    /// The messages still held, oldest first.
    pub open spec fn retained(self) -> Seq<MessageView> {
        self.log.subrange(self.head as int, self.log.len() as int)
    }

    /// Whether message number `seq` is still held.
    pub open spec fn retains(self, seq: nat) -> bool {
        self.head <= seq < self.log.len()
    }

    /// Number of messages held.
    pub open spec fn total_count(self) -> nat {
        self.retained().len()
    }

    /// Number of payload bytes held.
    pub open spec fn total_bytes(self) -> nat {
        payload_bytes(self.retained())
    }

    /// Both limits hold at once.
    pub open spec fn within_limits(self) -> bool {
        fits(self.retained(), self.max_messages, self.max_bytes)
    }

    /// Sequence numbers are positions in the log, the window lies inside the log
    /// and respects both limits.
    pub open spec fn wf(self) -> bool {
        &&& self.head <= self.log.len()
        &&& forall|i: int| 0 <= i < self.log.len() ==> (#[trigger] self.log[i]).seq == i
        &&& self.within_limits()
    }

    /// Appends a message with the given bytes, then lets the oldest messages go
    /// until both limits hold. A closed channel stays as it is.
    pub open spec fn push(self, payload: Seq<u8>, encoder: ProtobufEncoder) -> ChannelView {
        if self.closed {
            self
        } else {
            let log = self.log.push(MessageView { seq: self.log.len(), payload, encoder });
            ChannelView {
                log,
                head: evicted_head(log, self.head, self.max_messages, self.max_bytes),
                ..self
            }
        }
    }

    /// The channel, closed. Nothing else changes.
    pub open spec fn close(self) -> ChannelView {
        ChannelView { closed: true, ..self }
    }

    /// The position of a reader that sees only what is appended from now on.
    pub open spec fn subscribe(self) -> nat {
        self.log.len()
    }

    /// The position of a reader that starts at the oldest retained message.
    pub open spec fn subscribe_from_oldest(self) -> nat {
        self.head
    }

    /// What a reader at `position` gets, and where it stands afterwards.
    pub open spec fn next(self, position: nat) -> (RecvView, nat) {
        if position < self.head {
            (RecvView::Lagged((self.head - position) as nat), self.head)
        } else if position < self.log.len() {
            (RecvView::Delivered(self.log[position as int]), position + 1)
        } else if self.closed {
            (RecvView::EndOfStream, position)
        } else {
            (RecvView::Pending, position)
        }
    }
}

/// A message added at the end adds its length to the sum.
pub proof fn lemma_payload_bytes_push(messages: Seq<MessageView>, message: MessageView)
    ensures
        payload_bytes(messages.push(message)) == payload_bytes(messages) + message.payload.len(),
{
    assert(messages.push(message).drop_last() =~= messages);
}

/// The sum is the length of the first message plus the sum of the rest.
pub proof fn lemma_payload_bytes_drop_first(messages: Seq<MessageView>)
    requires
        messages.len() > 0,
    ensures
        payload_bytes(messages) == messages[0].payload.len() + payload_bytes(
            messages.drop_first(),
        ),
    decreases messages.len(),
{
    if messages.len() == 1 {
        assert(messages.drop_last() =~= Seq::<MessageView>::empty());
        assert(messages.drop_first() =~= Seq::<MessageView>::empty());
    } else {
        lemma_payload_bytes_drop_first(messages.drop_last());
        assert(messages.drop_last().drop_first() =~= messages.drop_first().drop_last());
    }
}

/// An encoded event with the sequence number the channel gave it. It never
/// changes once made; the channel and its readers share it.
#[derive(Debug)]
pub struct EncodedMessage {
    seq: u64,
    payload: Vec<u8>,
    encoder: ProtobufEncoder,
}

impl View for EncodedMessage {
    type V = MessageView;

    closed spec fn view(&self) -> MessageView {
        MessageView { seq: self.seq as nat, payload: self.payload@, encoder: self.encoder }
    }
}

impl EncodedMessage {
    /// The sequence number the channel gave the message.
    pub fn seq(&self) -> (seq: u64)
        ensures
            seq == self@.seq,
    {
        self.seq
    }

    /// The encoded bytes.
    pub fn payload(&self) -> (payload: &Vec<u8>)
        ensures
            payload@ == self@.payload,
    {
        &self.payload
    }

    /// Length of the payload in bytes.
    pub fn len(&self) -> (len: usize)
        ensures
            len == self@.payload.len(),
    {
        self.payload.len()
    }

    /// The mode the bytes were produced in.
    pub fn encoder(&self) -> (encoder: ProtobufEncoder)
        ensures
            encoder == self@.encoder,
    {
        self.encoder
    }
}

/// What a read returns.
#[derive(Debug)]
pub enum Recv {
    /// The next message in order.
    Delivered(Arc<EncodedMessage>),
    /// The reader fell behind; this many messages were skipped.
    Lagged(u64),
    /// The channel is closed and the reader has nothing left to read.
    EndOfStream,
    /// Nothing to read yet; the reader waits for an append or for the close.
    Pending,
}

impl View for Recv {
    type V = RecvView;

    open spec fn view(&self) -> RecvView {
        match self {
            Recv::Delivered(message) => RecvView::Delivered(message@),
            Recv::Lagged(skipped) => RecvView::Lagged(*skipped as nat),
            Recv::EndOfStream => RecvView::EndOfStream,
            Recv::Pending => RecvView::Pending,
        }
    }
}

/// A reader's bookmark: the sequence number it expects next. Everything before
/// it has been seen or skipped.
#[derive(Debug, Clone, Copy)]
pub struct Cursor {
    next: u64,
}

impl View for Cursor {
    type V = nat;

    closed spec fn view(&self) -> nat {
        self.next as nat
    }
}

impl Cursor {
    /// The sequence number the reader expects next.
    pub fn position(&self) -> (position: u64)
        ensures
            position == self@,
    {
        self.next
    }

    /// The last sequence number behind the reader, or `None` for a reader at the
    /// very start of the log.
    pub fn last_seen(&self) -> (last: Option<u64>)
        ensures
            self@ == 0 ==> last is None,
            self@ > 0 ==> last == Some((self@ - 1) as u64),
    {
        if self.next == 0 {
            None
        } else {
            Some(self.next - 1)
        }
    }
}

/// `Arc::clone`: a second handle to the same allocation, so what it points to
/// is the message that `message` points to.
#[verifier::external_body]
fn share(message: &Arc<EncodedMessage>) -> (shared: Arc<EncodedMessage>)
    ensures
        shared == *message,
{
    Arc::clone(message)
}

/// The retention channel.
pub struct Channel {
    buffer: VecDeque<Arc<EncodedMessage>>,
    total_bytes: u64,
    next_seq: u64,
    closed: bool,
    max_messages: usize,
    max_bytes: u64,
    log: Ghost<Seq<MessageView>>,
}

impl View for Channel {
    type V = ChannelView;

    closed spec fn view(&self) -> ChannelView {
        ChannelView {
            log: self.log@,
            head: (self.next_seq - self.buffer@.len()) as nat,
            closed: self.closed,
            max_messages: self.max_messages as nat,
            max_bytes: self.max_bytes as nat,
        }
    }
}

impl Channel {
    /// The buffer holds exactly the retained window of the log, and the counters agree with it.
    pub closed spec fn wf(&self) -> bool {
        &&& self.log@.len() == self.next_seq
        &&& self.buffer@.len() <= self.next_seq
        &&& forall|i: int|
            0 <= i < self.buffer@.len() ==> (#[trigger] self.buffer@[i])@ == self.log@[self.next_seq
                - self.buffer@.len() + i]
        &&& self.total_bytes == payload_bytes(self@.retained())
        &&& self@.wf()
    }

    /// Whether another message can still be numbered.
    pub open spec fn has_room(&self) -> bool {
        self@.log.len() < u64::MAX
    }

    /// What a sound channel means for its model: the model is well formed and
    /// its sequence numbers fit the machine.
    pub proof fn lemma_wf(&self)
        requires
            self.wf(),
        ensures
            self@.wf(),
            self@.log.len() <= u64::MAX,
    {
    }

    /// An open, empty channel with the limits of `config`.
    pub fn new(config: ConfigChannel) -> (channel: Channel)
        ensures
            channel.wf(),
            channel@ == ChannelView::new(config.max_messages as nat, config.max_bytes as nat),
    {
        let channel = Channel {
            buffer: VecDeque::new(),
            total_bytes: 0,
            next_seq: 0,
            closed: false,
            max_messages: config.max_messages,
            max_bytes: config.max_bytes,
            log: Ghost(Seq::empty()),
        };
        assert(channel@.retained() =~= Seq::<MessageView>::empty());
        channel
    }

    /// Appends `payload` as the next message and evicts the oldest messages until
    /// both limits hold. Does nothing once the channel is closed.
    pub fn append(&mut self, payload: Vec<u8>, encoder: ProtobufEncoder)
        requires
            old(self).wf(),
            old(self).has_room(),
        ensures
            final(self).wf(),
            final(self)@ == old(self)@.push(payload@, encoder),
    {
        if self.closed {
            return ;
        }
        let n: u64 = payload.len() as u64;
        let ghost message = MessageView { seq: self.next_seq as nat, payload: payload@, encoder };
        let ghost full = self.log@.push(message);
        let ghost limit_messages = self.max_messages as nat;
        let ghost limit_bytes = self.max_bytes as nat;
        while self.buffer.len() > 0 && (self.buffer.len() >= self.max_messages || self.total_bytes as u128
            + n as u128 > self.max_bytes as u128)
            invariant
                self.wf(),
                self.log@ == old(self).log@,
                self.next_seq == old(self).next_seq,
                !self.closed,
                self.max_messages == limit_messages,
                self.max_bytes == limit_bytes,
                self@.max_messages == old(self)@.max_messages,
                self@.max_bytes == old(self)@.max_bytes,
                n == payload@.len(),
                full == self.log@.push(message),
                message.payload == payload@,
                evicted_head(full, self@.head, limit_messages, limit_bytes) == evicted_head(
                    full,
                    old(self)@.head,
                    limit_messages,
                    limit_bytes,
                ),
            decreases self.buffer@.len(),
        {
            let ghost before = self@;
            let ghost window = before.retained();
            let front = self.buffer.pop_front();
            match front {
                Some(oldest) => {
                    proof {
                        assert(oldest@ == window[0]);
                        lemma_payload_bytes_drop_first(window);
                    }
                    self.total_bytes = self.total_bytes - oldest.payload.len() as u64;
                },
                None => {},
            }
            proof {
                let after = self@;
                assert(after.head == before.head + 1);
                assert(after.retained() =~= window.drop_first());
                assert(full.subrange(before.head as int, full.len() as int) =~= window.push(
                    message,
                ));
                lemma_payload_bytes_push(window, message);
            }
        }
        let ghost head = self@.head;
        let ghost window = self@.retained();
        proof {
            assert(full.subrange(head as int, full.len() as int) =~= window.push(message));
            lemma_payload_bytes_push(window, message);
        }
        if self.max_messages >= 1 && n <= self.max_bytes {
            let message = Arc::new(EncodedMessage { seq: self.next_seq, payload, encoder });
            self.buffer.push_back(message);
            self.total_bytes = self.total_bytes + n;
        } else {
            proof {
                assert(self.buffer@.len() == 0);
                assert(evicted_head(full, head + 1, limit_messages, limit_bytes) == head + 1);
            }
        }
        self.next_seq = self.next_seq + 1;
        self.log = Ghost(full);
        proof {
            assert(self@.retained() =~= full.subrange(self@.head as int, full.len() as int));
            if self.buffer@.len() == 0 {
                assert(self@.retained() =~= Seq::<MessageView>::empty());
            }
        }
    }

    /// Encodes `message` in the given mode and appends it: the message gets the
    /// next sequence number, then the oldest messages are evicted until both
    /// limits hold. Never fails; does nothing once the channel is closed.
    pub fn push(&mut self, message: ProtobufMessage, encoder: ProtobufEncoder)
        requires
            old(self).wf(),
            old(self).has_room(),
        ensures
            final(self).wf(),
            final(self)@ == old(self)@.push(encoded(message, encoder), encoder),
            final(self)@.within_limits(),
    {
        let payload = message.encode(encoder);
        self.append(payload, encoder);
    }

    /// Closes the channel. Closing a closed channel changes nothing.
    pub fn close(&mut self)
        requires
            old(self).wf(),
        ensures
            final(self).wf(),
            final(self)@ == old(self)@.close(),
    {
        self.closed = true;
    }

    /// A cursor that sees only what is appended after this call.
    pub fn subscribe(&self) -> (cursor: Cursor)
        requires
            self.wf(),
        ensures
            cursor@ == self@.subscribe(),
    {
        Cursor { next: self.next_seq }
    }

    /// A cursor that starts at the oldest retained message.
    pub fn subscribe_from_oldest(&self) -> (cursor: Cursor)
        requires
            self.wf(),
        ensures
            cursor@ == self@.subscribe_from_oldest(),
    {
        Cursor { next: self.next_seq - self.buffer.len() as u64 }
    }

    /// Reads at `cursor` without waiting: the next message in order, the number of
    /// messages the reader missed, the end of the stream, or nothing yet.
    pub fn next(&self, cursor: &mut Cursor) -> (out: Recv)
        requires
            self.wf(),
        ensures
            (out@, final(cursor)@) == self@.next(old(cursor)@),
    {
        let head: u64 = self.next_seq - self.buffer.len() as u64;
        if cursor.next < head {
            let skipped: u64 = head - cursor.next;
            cursor.next = head;
            Recv::Lagged(skipped)
        } else if cursor.next < self.next_seq {
            let index: usize = (cursor.next - head) as usize;
            let message = share(&self.buffer[index]);
            cursor.next = cursor.next + 1;
            Recv::Delivered(message)
        } else if self.closed {
            Recv::EndOfStream
        } else {
            Recv::Pending
        }
    }

    /// Number of messages held.
    pub fn total_count(&self) -> (count: usize)
        requires
            self.wf(),
        ensures
            count == self@.total_count(),
            count <= self@.max_messages,
    {
        self.buffer.len()
    }

    /// Number of payload bytes held.
    pub fn total_bytes(&self) -> (bytes: u64)
        requires
            self.wf(),
        ensures
            bytes == self@.total_bytes(),
            bytes <= self@.max_bytes,
    {
        self.total_bytes
    }

    /// Sequence number of the oldest message held; equal to `next_seq` when none is held.
    pub fn oldest_seq(&self) -> (seq: u64)
        requires
            self.wf(),
        ensures
            seq == self@.head,
    {
        self.next_seq - self.buffer.len() as u64
    }

    /// Sequence number that the next appended message gets.
    pub fn next_seq(&self) -> (seq: u64)
        requires
            self.wf(),
        ensures
            seq == self@.next_seq(),
    {
        self.next_seq
    }

    /// Whether the channel was closed.
    pub fn is_closed(&self) -> (closed: bool)
        ensures
            closed == self@.closed,
    {
        self.closed
    }

    /// Most messages held at once.
    pub fn max_messages(&self) -> (limit: usize)
        ensures
            limit == self@.max_messages,
    {
        self.max_messages
    }

    /// Most payload bytes held at once.
    pub fn max_bytes(&self) -> (limit: u64)
        ensures
            limit == self@.max_bytes,
    {
        self.max_bytes
    }
}

} // verus!
