//! What the channel guarantees to its producer and its readers, stated over
//! the mathematical model and proved once for every state.

use crate::channel::evicted_head;
use crate::channel::fits;
use crate::channel::ChannelView;
use crate::channel::MessageView;
use crate::channel::RecvView;
use crate::protobuf::ProtobufEncoder;
use vstd::prelude::*;

verus! {

/// Eviction stops at the first window that fits: the result lies between
/// `head` and the end of the log, the window that starts there fits, and no
/// window that starts earlier (from `head` on) does.
pub proof fn lemma_evicted_head(
    log: Seq<MessageView>,
    head: nat,
    max_messages: nat,
    max_bytes: nat,
)
    requires
        head <= log.len(),
    ensures
        head <= evicted_head(log, head, max_messages, max_bytes) <= log.len(),
        fits(
            log.subrange(
                evicted_head(log, head, max_messages, max_bytes) as int,
                log.len() as int,
            ),
            max_messages,
            max_bytes,
        ),
        forall|h: nat|
            head <= h < evicted_head(log, head, max_messages, max_bytes) ==> !fits(
                #[trigger] log.subrange(h as int, log.len() as int),
                max_messages,
                max_bytes,
            ),
    decreases log.len() - head,
{
    if head >= log.len() {
        assert(log.subrange(head as int, log.len() as int) =~= Seq::<MessageView>::empty());
    } else if fits(log.subrange(head as int, log.len() as int), max_messages, max_bytes) {
    } else {
        lemma_evicted_head(log, head + 1, max_messages, max_bytes);
    }
}

/// After every push both limits hold at once, and the state stays well formed.
pub proof fn lemma_push_within_limits(
    channel: ChannelView,
    payload: Seq<u8>,
    encoder: ProtobufEncoder,
)
    requires
        channel.wf(),
    ensures
        channel.push(payload, encoder).wf(),
        channel.push(payload, encoder).total_count() <= channel.max_messages,
        channel.push(payload, encoder).total_bytes() <= channel.max_bytes,
{
    if !channel.closed {
        let log = channel.log.push(MessageView { seq: channel.log.len(), payload, encoder });
        lemma_evicted_head(log, channel.head, channel.max_messages, channel.max_bytes);
    }
}

/// A push on an open channel gives the new message the next sequence number
/// and leaves every earlier message of the log as it was.
pub proof fn lemma_push_appends(channel: ChannelView, payload: Seq<u8>, encoder: ProtobufEncoder)
    requires
        channel.wf(),
        !channel.closed,
    ensures
        channel.push(payload, encoder).log.len() == channel.log.len() + 1,
        channel.push(payload, encoder).log.last() == (MessageView {
            seq: channel.log.len(),
            payload,
            encoder,
        }),
        forall|i: int|
            0 <= i < channel.log.len() ==> #[trigger] channel.push(payload, encoder).log[i]
                == channel.log[i],
{
}

/// Eviction is oldest first. The window never moves backwards; a message that
/// a push evicts is older than every message the push keeps; what is kept is
/// one unbroken run of sequence numbers up to the newest; and nothing leaves
/// while the window from it onwards would fit.
pub proof fn lemma_push_evicts_oldest_first(
    channel: ChannelView,
    payload: Seq<u8>,
    encoder: ProtobufEncoder,
)
    requires
        channel.wf(),
    ensures
        channel.push(payload, encoder).head >= channel.head,
        forall|i: nat, j: nat|
            channel.retains(i) && !channel.push(payload, encoder).retains(i) && channel.push(
                payload,
                encoder,
            ).retains(j) ==> i < j,
        forall|i: nat, j: nat|
            i <= j < channel.push(payload, encoder).log.len() && channel.push(
                payload,
                encoder,
            ).retains(i) ==> channel.push(payload, encoder).retains(j),
        forall|h: nat|
            channel.head <= h < channel.push(payload, encoder).head ==> !fits(
                #[trigger] channel.push(payload, encoder).log.subrange(
                    h as int,
                    channel.push(payload, encoder).log.len() as int,
                ),
                channel.max_messages,
                channel.max_bytes,
            ),
{
    if !channel.closed {
        let log = channel.log.push(MessageView { seq: channel.log.len(), payload, encoder });
        lemma_evicted_head(log, channel.head, channel.max_messages, channel.max_bytes);
    }
}

/// A reader that has fallen behind the retained window is told exactly how
/// many messages it missed, namely those from its position up to the oldest
/// retained one, and its next read is the oldest retained message.
pub proof fn lemma_lagged_then_resumes(channel: ChannelView, position: nat)
    requires
        channel.wf(),
        position < channel.head,
    ensures
        channel.next(position) == (
            RecvView::Lagged((channel.head - position) as nat),
            channel.head,
        ),
        forall|seq: nat|
            position <= seq < channel.next(position).1 ==> !channel.retains(seq),
        channel.total_count() > 0 ==> channel.next(channel.next(position).1) == (
            RecvView::Delivered(channel.retained()[0]),
            channel.head + 1,
        ),
        channel.total_count() > 0 ==> channel.retained()[0].seq == channel.head,
{
}

/// A reader inside the retained window gets the message with the sequence
/// number it expects and moves on by one.
pub proof fn lemma_next_delivers_in_order(channel: ChannelView, position: nat)
    requires
        channel.wf(),
        channel.retains(position),
    ensures
        channel.next(position).0 == RecvView::Delivered(channel.log[position as int]),
        channel.log[position as int].seq == position,
        channel.next(position).1 == position + 1,
{
}

/// Closing is idempotent, a closed channel ignores pushes, and a reader with
/// nothing left to read gets the end of the stream on every read, its position
/// unchanged.
pub proof fn lemma_close_is_terminal(
    channel: ChannelView,
    position: nat,
    payload: Seq<u8>,
    encoder: ProtobufEncoder,
)
    requires
        channel.wf(),
    ensures
        channel.close().wf(),
        channel.close().close() == channel.close(),
        channel.close().push(payload, encoder) == channel.close(),
        position >= channel.log.len() ==> channel.close().next(position) == (
            RecvView::EndOfStream,
            position,
        ),
        channel.close().next(position).0 !is Pending,
{
    assert(channel.close().retained() == channel.retained());
}

/// One step of a producer and one reader working on a channel.
pub enum Step {
    /// The producer pushes a message with these bytes in this mode.
    Push(Seq<u8>, ProtobufEncoder),
    /// The reader reads once.
    Read,
}

/// Where a channel and a reader stand after some steps, and what the reader got.
pub struct Run {
    pub channel: ChannelView,
    pub position: nat,
    /// What each read returned, in the order of the reads.
    pub received: Seq<RecvView>,
}

/// The outcome of `steps`, taken in order from `channel` by a reader at `position`.
pub open spec fn run(channel: ChannelView, position: nat, steps: Seq<Step>) -> Run
    decreases steps.len(),
{
    if steps.len() == 0 {
        Run { channel, position, received: Seq::empty() }
    } else {
        let before = run(channel, position, steps.drop_last());
        match steps.last() {
            Step::Push(payload, encoder) => Run {
                channel: before.channel.push(payload, encoder),
                ..before
            },
            Step::Read => {
                let (out, position) = before.channel.next(before.position);
                Run { position, received: before.received.push(out), ..before }
            },
        }
    }
}

/// The payloads and modes pushed by `steps`, in push order.
pub open spec fn pushed(steps: Seq<Step>) -> Seq<(Seq<u8>, ProtobufEncoder)>
    decreases steps.len(),
{
    if steps.len() == 0 {
        Seq::empty()
    } else {
        match steps.last() {
            Step::Push(payload, encoder) => pushed(steps.drop_last()).push((payload, encoder)),
            Step::Read => pushed(steps.drop_last()),
        }
    }
}

/// The messages among `received`, in the order they were delivered.
pub open spec fn delivered(received: Seq<RecvView>) -> Seq<MessageView>
    decreases received.len(),
{
    if received.len() == 0 {
        Seq::empty()
    } else {
        match received.last() {
            RecvView::Delivered(message) => delivered(received.drop_last()).push(message),
            _ => delivered(received.drop_last()),
        }
    }
}

/// Whether no read in `received` reported a lag.
pub open spec fn never_lagged(received: Seq<RecvView>) -> bool {
    forall|i: int| 0 <= i < received.len() ==> !(#[trigger] received[i] is Lagged)
}

/// Order is preserved. A reader subscribes to an open channel; then pushes and
/// reads follow in any order. If no read reports a lag, the messages delivered
/// are the first ones pushed since the subscription, in push order, each with
/// the bytes and mode it was pushed with, and their sequence numbers run on
/// without a gap from the reader's first position. The reader has received
/// every pushed message exactly when it has caught up with the log.
pub proof fn lemma_order_preserved(channel: ChannelView, steps: Seq<Step>)
    requires
        channel.wf(),
        !channel.closed,
        never_lagged(run(channel, channel.subscribe(), steps).received),
    ensures
        ({
            let start = channel.subscribe();
            let end = run(channel, start, steps);
            let got = delivered(end.received);
            let sent = pushed(steps);
            &&& end.channel.wf()
            &&& end.channel.log.len() == start + sent.len()
            &&& end.position == start + got.len()
            &&& got.len() <= sent.len()
            &&& forall|i: int|
                0 <= i < got.len() ==> #[trigger] got[i] == (MessageView {
                    seq: (start + i) as nat,
                    payload: sent[i].0,
                    encoder: sent[i].1,
                })
            &&& (got.len() == sent.len() <==> end.position == end.channel.log.len())
        }),
{
    lemma_run(channel, steps);
}

/// The invariant behind `lemma_order_preserved`: the log is the old log
/// followed by the pushed messages, and the reader stands behind exactly the
/// messages it was given.
proof fn lemma_run(channel: ChannelView, steps: Seq<Step>)
    requires
        channel.wf(),
        !channel.closed,
        never_lagged(run(channel, channel.subscribe(), steps).received),
    ensures
        ({
            let start = channel.log.len();
            let end = run(channel, start, steps);
            let got = delivered(end.received);
            let sent = pushed(steps);
            &&& end.channel.wf()
            &&& !end.channel.closed
            &&& end.channel.max_messages == channel.max_messages
            &&& end.channel.max_bytes == channel.max_bytes
            &&& end.channel.log.len() == start + sent.len()
            &&& end.position == start + got.len()
            &&& end.position <= end.channel.log.len()
            &&& forall|i: int|
                0 <= i < sent.len() ==> #[trigger] end.channel.log[start + i] == (MessageView {
                    seq: (start + i) as nat,
                    payload: sent[i].0,
                    encoder: sent[i].1,
                })
            &&& forall|i: int|
                0 <= i < got.len() ==> #[trigger] got[i] == end.channel.log[start + i]
        }),
    decreases steps.len(),
{
    let start = channel.log.len();
    if steps.len() > 0 {
        let earlier = steps.drop_last();
        let before = run(channel, start, earlier);
        let end = run(channel, start, steps);
        assert(never_lagged(before.received)) by {
            assert forall|i: int| 0 <= i < before.received.len() implies !(
            #[trigger] before.received[i] is Lagged) by {
                match steps.last() {
                    Step::Push(_, _) => {},
                    Step::Read => {
                        assert(end.received[i] == before.received[i]);
                    },
                }
            }
        }
        lemma_run(channel, earlier);
        match steps.last() {
            Step::Push(payload, encoder) => {
                lemma_push_within_limits(before.channel, payload, encoder);
            },
            Step::Read => {
                let out = before.channel.next(before.position).0;
                assert(end.received.last() == out);
                assert(!(end.received[end.received.len() - 1] is Lagged));
                assert(end.received.drop_last() =~= before.received);
            },
        }
    }
}

} // verus!
