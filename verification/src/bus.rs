//! Reference models of the two channels that wire the relay together.
//!
//! The fan-out channel carries input bytes to every client: one producer,
//! any number of subscribers, each with an independent cursor; a subscriber
//! that falls more than the capacity behind loses the oldest unread frames
//! and observes only a contiguous suffix of the published order. The
//! aggregation channel carries client bytes back to the input: many
//! producers, one consumer, bounded, with cooperative backpressure (a full
//! queue makes the producer wait, nothing is dropped).
//!
//! These models pin down the delivery and ordering semantics the relay is
//! built on; the process wires the tasks together with channels of the same
//! contract.

use vstd::prelude::*;

verus! {

/// One opaque chunk of bytes moved through a channel. A frame is whatever
/// one read call returned; no message boundary is implied, only byte order
/// within one directional stream.
pub type Frame = Vec<u8>;

/// The single-producer, multi-consumer broadcast channel: the full publish
/// history plus the capacity that bounds how far a subscriber may lag.
pub struct FanOutChannel {
    /// Every frame ever published, in publish order. Subscribers hold
    /// cursors into this history; only the last `capacity` frames are
    /// retained for delivery.
    pub history: Vec<Frame>,
    /// How many unread frames a subscriber may accumulate before it lags.
    pub capacity: usize,
}

/// One subscriber's independent read cursor into the fan-out history.
#[derive(Clone, Copy, PartialEq, Eq, Structural, Debug)]
pub struct Subscription {
    pub cursor: usize,
}

/// What the next receive on a cursor returns: nothing when caught up; the
/// frame under the cursor when within capacity; and when the subscriber has
/// lagged, the oldest retained frame, with the skip flagged.
pub open spec fn next_receive(history: Seq<Frame>, capacity: nat, cursor: nat) -> Option<
    (nat, Frame, bool),
> {
    if cursor >= history.len() {
        None
    } else if history.len() - cursor <= capacity {
        Some(((cursor + 1) as nat, history[cursor as int], false))
    } else {
        Some(
            (
                (history.len() - capacity + 1) as nat,
                history[history.len() - capacity],
                true,
            ),
        )
    }
}

/// Every frame a subscriber at `cursor` receives by reading until it is
/// caught up, in the order it receives them.
pub open spec fn received_sequence(history: Seq<Frame>, capacity: nat, cursor: nat) -> Seq<Frame>
    decreases history.len() - cursor when capacity >= 1 && cursor <= history.len()
{
    match next_receive(history, capacity, cursor) {
        None => Seq::empty(),
        Some((cursor1, frame, _)) => seq![frame] + received_sequence(history, capacity, cursor1),
    }
}

impl FanOutChannel {
    /// A subscriber may lag by at least one frame.
    pub open spec fn wf(self) -> bool {
        self.capacity >= 1
    }

    /// A cursor never points past the history.
    pub open spec fn holds(self, sub: Subscription) -> bool {
        sub.cursor <= self.history@.len()
    }

    /// A fresh channel with the given lag bound and nothing published.
    pub fn new(capacity: usize) -> (ch: FanOutChannel)
        requires
            capacity >= 1,
        ensures
            ch.history@ == Seq::<Frame>::empty(),
            ch.capacity == capacity,
            ch.wf(),
    {
        FanOutChannel { history: Vec::new(), capacity }
    }

    /// A new subscription starts from "now": no history is replayed.
    pub fn subscribe(&self) -> (sub: Subscription)
        ensures
            sub.cursor == self.history@.len(),
            self.holds(sub),
    {
        Subscription { cursor: self.history.len() }
    }

    /// Publishes one frame: it is appended to the history every subscriber
    /// reads, and nothing already published moves. (A send that the channel
    /// refuses never reaches the history; the publish backoff policy decides
    /// when to retry and when to drop.)
    pub fn publish(&mut self, frame: Frame)
        ensures
            final(self).history@ == old(self).history@.push(frame),
            final(self).capacity == old(self).capacity,
    {
        self.history.push(frame);
    }

    /// One receive on a subscription: advances the cursor and hands out the
    /// frame `next_receive` names, flagging a lagged skip.
    pub fn receive<'a>(&'a self, sub: &mut Subscription) -> (r: Option<(&'a Frame, bool)>)
        requires
            self.wf(),
            self.holds(*old(sub)),
        ensures
            self.holds(*final(sub)),
            match r {
                None => {
                    &&& next_receive(self.history@, self.capacity as nat, old(sub).cursor as nat)
                        is None
                    &&& *final(sub) == *old(sub)
                },
                Some((frame, lagged)) => next_receive(
                    self.history@,
                    self.capacity as nat,
                    old(sub).cursor as nat,
                ) == Some((final(sub).cursor as nat, *frame, lagged)),
            },
    {
        if sub.cursor >= self.history.len() {
            None
        } else if self.history.len() - sub.cursor <= self.capacity {
            let frame = &self.history[sub.cursor];
            sub.cursor = sub.cursor + 1;
            Some((frame, false))
        } else {
            let oldest: usize = self.history.len() - self.capacity;
            let frame = &self.history[oldest];
            sub.cursor = oldest + 1;
            Some((frame, true))
        }
    }
}

/// Broadcast law: a subscriber that keeps up — never more than the capacity
/// behind — receives exactly the frames published since its cursor,
/// byte-for-byte and in publish order. Every caught-up subscriber therefore
/// observes the identical sequence.
pub proof fn lemma_caught_up_subscriber_receives_all(
    history: Seq<Frame>,
    capacity: nat,
    cursor: nat,
)
    requires
        capacity >= 1,
        cursor <= history.len(),
        history.len() - cursor <= capacity,
    ensures
        received_sequence(history, capacity, cursor) == history.skip(cursor as int),
    decreases history.len() - cursor,
{
    if cursor < history.len() {
        lemma_caught_up_subscriber_receives_all(history, capacity, (cursor + 1) as nat);
        assert(history.skip(cursor as int) =~= seq![history[cursor as int]] + history.skip(
            cursor as int + 1,
        ));
    } else {
        assert(history.skip(cursor as int) =~= Seq::<Frame>::empty());
    }
}

/// Lagged-subscriber law: whatever a subscriber's cursor, what it receives
/// is a contiguous suffix of the published order — the skipped frames are
/// the oldest ones, and nothing is reordered or repeated.
pub proof fn lemma_subscriber_receives_suffix(history: Seq<Frame>, capacity: nat, cursor: nat)
    requires
        capacity >= 1,
        cursor <= history.len(),
    ensures
        received_sequence(history, capacity, cursor) == if history.len() - cursor <= capacity {
            history.skip(cursor as int)
        } else {
            history.skip(history.len() - capacity as int)
        },
{
    if history.len() - cursor <= capacity {
        lemma_caught_up_subscriber_receives_all(history, capacity, cursor);
    } else {
        let oldest = (history.len() - capacity) as nat;
        lemma_caught_up_subscriber_receives_all(history, capacity, (oldest + 1) as nat);
        assert(history.skip(oldest as int) =~= seq![history[oldest as int]] + history.skip(
            oldest as int + 1,
        ));
    }
}

/// One step of a fan-out channel's life, as one subscriber sees it: either
/// the producer publishes a frame, or the subscriber receives one.
pub enum FanOutOp {
    Publish(Frame),
    Receive,
}

/// The frames a sequence of operations publishes, in order.
pub open spec fn published_frames(ops: Seq<FanOutOp>) -> Seq<Frame>
    decreases ops.len(),
{
    if ops.len() == 0 {
        Seq::empty()
    } else {
        match ops[0] {
            FanOutOp::Publish(frame) => seq![frame] + published_frames(ops.drop_first()),
            FanOutOp::Receive => published_frames(ops.drop_first()),
        }
    }
}

/// Runs a sequence of publishes and receives against one subscriber's
/// cursor: the final history, the final cursor, and every frame the
/// subscriber received, in order.
pub open spec fn run_fan_out(
    history: Seq<Frame>,
    capacity: nat,
    cursor: nat,
    ops: Seq<FanOutOp>,
) -> (Seq<Frame>, nat, Seq<Frame>)
    decreases ops.len(),
{
    if ops.len() == 0 {
        (history, cursor, Seq::empty())
    } else {
        match ops[0] {
            FanOutOp::Publish(frame) => run_fan_out(
                history.push(frame),
                capacity,
                cursor,
                ops.drop_first(),
            ),
            FanOutOp::Receive => {
                match next_receive(history, capacity, cursor) {
                    None => run_fan_out(history, capacity, cursor, ops.drop_first()),
                    Some((cursor1, frame, _)) => {
                        let (h1, c1, rec) = run_fan_out(history, capacity, cursor1, ops.drop_first());
                        (h1, c1, seq![frame] + rec)
                    },
                }
            },
        }
    }
}

/// Whether the subscriber keeps up throughout: at every receive it is at
/// most the capacity behind, so it never lags and nothing is skipped.
pub open spec fn keeps_up(history: Seq<Frame>, capacity: nat, cursor: nat, ops: Seq<FanOutOp>) -> bool
    decreases ops.len(),
{
    if ops.len() == 0 {
        true
    } else {
        match ops[0] {
            FanOutOp::Publish(frame) => keeps_up(
                history.push(frame),
                capacity,
                cursor,
                ops.drop_first(),
            ),
            FanOutOp::Receive => history.len() - cursor <= capacity && (match next_receive(
                history,
                capacity,
                cursor,
            ) {
                None => keeps_up(history, capacity, cursor, ops.drop_first()),
                Some((cursor1, _, _)) => keeps_up(history, capacity, cursor1, ops.drop_first()),
            }),
        }
    }
}

/// Broadcast law over whole runs: however publishes and receives
/// interleave, a subscriber that keeps up receives the published frames
/// byte-for-byte in publish order — what it has received so far, followed
/// by what it has not read yet, is exactly what stood past its cursor at
/// the start followed by everything published since.
pub proof fn lemma_keeping_up_subscriber_gets_published_sequence(
    history: Seq<Frame>,
    capacity: nat,
    cursor: nat,
    ops: Seq<FanOutOp>,
)
    requires
        capacity >= 1,
        cursor <= history.len(),
        keeps_up(history, capacity, cursor, ops),
    ensures
        ({
            let (h1, c1, received) = run_fan_out(history, capacity, cursor, ops);
            &&& h1 == history + published_frames(ops)
            &&& c1 <= h1.len()
            &&& received + h1.skip(c1 as int) == history.skip(cursor as int) + published_frames(
                ops,
            )
        }),
    decreases ops.len(),
{
    if ops.len() == 0 {
        assert(history + published_frames(ops) =~= history);
        assert(Seq::<Frame>::empty() + history.skip(cursor as int) =~= history.skip(
            cursor as int,
        ) + published_frames(ops));
    } else {
        match ops[0] {
            FanOutOp::Publish(frame) => {
                lemma_keeping_up_subscriber_gets_published_sequence(
                    history.push(frame),
                    capacity,
                    cursor,
                    ops.drop_first(),
                );
                let rest = published_frames(ops.drop_first());
                assert(history.push(frame) + rest =~= history + (seq![frame] + rest));
                assert(history.push(frame).skip(cursor as int) =~= history.skip(cursor as int)
                    + seq![frame]);
                assert((history.skip(cursor as int) + seq![frame]) + rest =~= history.skip(
                    cursor as int,
                ) + (seq![frame] + rest));
            },
            FanOutOp::Receive => {
                if cursor == history.len() {
                    lemma_keeping_up_subscriber_gets_published_sequence(
                        history,
                        capacity,
                        cursor,
                        ops.drop_first(),
                    );
                } else {
                    lemma_keeping_up_subscriber_gets_published_sequence(
                        history,
                        capacity,
                        (cursor + 1) as nat,
                        ops.drop_first(),
                    );
                    let (h1, c1, rec) = run_fan_out(
                        history,
                        capacity,
                        (cursor + 1) as nat,
                        ops.drop_first(),
                    );
                    assert(history.skip(cursor as int) =~= seq![history[cursor as int]]
                        + history.skip(cursor as int + 1));
                    assert((seq![history[cursor as int]] + rec) + h1.skip(c1 as int) =~= seq![
                        history[cursor as int],
                    ] + (rec + h1.skip(c1 as int)));
                    assert(seq![history[cursor as int]] + (history.skip(cursor as int + 1)
                        + published_frames(ops.drop_first())) =~= history.skip(cursor as int)
                        + published_frames(ops));
                }
            },
        }
    }
}

/// A publish never disturbs a subscriber that is keeping up: whatever frame
/// it was about to receive, it still receives after the publish, without
/// lagging — only the frames behind it grow.
pub proof fn lemma_publish_keeps_subscribers_in_order(
    history: Seq<Frame>,
    capacity: nat,
    cursor: nat,
    frame: Frame,
)
    requires
        capacity >= 1,
        cursor <= history.len(),
        history.len() - cursor < capacity,
    ensures
        cursor < history.len() ==> next_receive(history.push(frame), capacity, cursor)
            == next_receive(history, capacity, cursor),
        cursor == history.len() ==> next_receive(history.push(frame), capacity, cursor) == Some(
            ((cursor + 1) as nat, frame, false),
        ),
{
}

/// The multi-producer, single-consumer aggregation channel: what still
/// waits, what the consumer has already taken, and the bound under which
/// producers must wait their turn.
pub struct AggregationChannel {
    /// Frames sent but not yet taken by the consumer, oldest first, each
    /// tagged with the sending client.
    pub queue: Vec<(u64, Frame)>,
    /// Bookkeeping for the ordering laws: the frames the consumer has
    /// taken, in the order it took them.
    pub delivered: Ghost<Seq<(u64, Frame)>>,
    /// How many frames may wait at once.
    pub capacity: usize,
}

/// The frames of one client within a tagged log, in log order.
pub open spec fn sends_of(log: Seq<(u64, Frame)>, client: u64) -> Seq<Frame>
    decreases log.len(),
{
    if log.len() == 0 {
        Seq::empty()
    } else if log[0].0 == client {
        seq![log[0].1] + sends_of(log.drop_first(), client)
    } else {
        sends_of(log.drop_first(), client)
    }
}

impl AggregationChannel {
    /// The queue never outgrows the bound.
    pub open spec fn wf(self) -> bool {
        &&& self.capacity >= 1
        &&& self.queue@.len() <= self.capacity
    }

    /// A fresh channel with the given bound.
    pub fn new(capacity: usize) -> (ch: AggregationChannel)
        requires
            capacity >= 1,
        ensures
            ch.queue@ == Seq::<(u64, Frame)>::empty(),
            ch.delivered@ == Seq::<(u64, Frame)>::empty(),
            ch.capacity == capacity,
            ch.wf(),
    {
        AggregationChannel { queue: Vec::new(), delivered: Ghost(Seq::empty()), capacity }
    }

    /// One client's attempt to enqueue a frame. A full queue refuses it and
    /// changes nothing: the producer suspends until space is available and
    /// sends the same frame again, so nothing is dropped or reordered.
    pub fn try_send(&mut self, client: u64, frame: Frame) -> (ok: bool)
        requires
            old(self).wf(),
        ensures
            final(self).wf(),
            final(self).capacity == old(self).capacity,
            final(self).delivered@ == old(self).delivered@,
            ok <==> old(self).queue@.len() < old(self).capacity,
            ok ==> final(self).queue@ == old(self).queue@.push((client, frame)),
            !ok ==> final(self).queue@ == old(self).queue@,
    {
        if self.queue.len() < self.capacity {
            self.queue.push((client, frame));
            true
        } else {
            false
        }
    }

    /// The consumer takes the oldest waiting frame, if any, and the take is
    /// recorded: what was delivered plus what still waits never changes
    /// except by a send at the back.
    pub fn receive(&mut self) -> (r: Option<(u64, Frame)>)
        requires
            old(self).wf(),
        ensures
            final(self).wf(),
            final(self).capacity == old(self).capacity,
            match r {
                None => {
                    &&& old(self).queue@.len() == 0
                    &&& *final(self) == *old(self)
                },
                Some(taken) => {
                    &&& old(self).queue@.len() > 0
                    &&& taken == old(self).queue@[0]
                    &&& final(self).queue@ == old(self).queue@.drop_first()
                    &&& final(self).delivered@ == old(self).delivered@.push(taken)
                },
            },
    {
        if self.queue.len() == 0 {
            None
        } else {
            let taken = self.queue.remove(0);
            self.delivered = Ghost(self.delivered@.push(taken));
            proof {
                assert(self.queue@ =~= old(self).queue@.drop_first());
            }
            Some(taken)
        }
    }
}

/// `sends_of` distributes over concatenation: a client's frames in a split
/// log are its frames in the first part followed by its frames in the rest.
pub proof fn lemma_sends_of_add(a: Seq<(u64, Frame)>, b: Seq<(u64, Frame)>, client: u64)
    ensures
        sends_of(a + b, client) == sends_of(a, client) + sends_of(b, client),
    decreases a.len(),
{
    if a.len() == 0 {
        assert(a + b =~= b);
        assert(sends_of(a, client) + sends_of(b, client) =~= sends_of(b, client));
    } else {
        lemma_sends_of_add(a.drop_first(), b, client);
        assert((a + b).drop_first() =~= a.drop_first() + b);
        if a[0].0 == client {
            assert(seq![a[0].1] + (sends_of(a.drop_first(), client) + sends_of(b, client)) =~= (
            seq![a[0].1] + sends_of(a.drop_first(), client)) + sends_of(b, client));
        }
    }
}

proof fn lemma_sends_of_singleton(entry: (u64, Frame), client: u64)
    ensures
        sends_of(seq![entry], client) == if entry.0 == client {
            seq![entry.1]
        } else {
            Seq::<Frame>::empty()
        },
{
    let one = seq![entry];
    assert(one.drop_first() =~= Seq::<(u64, Frame)>::empty());
    assert(sends_of(one.drop_first(), client) =~= Seq::<Frame>::empty());
    if entry.0 == client {
        assert(sends_of(one, client) =~= seq![entry.1] + Seq::<Frame>::empty());
        assert(seq![entry.1] + Seq::<Frame>::empty() =~= seq![entry.1]);
    }
}

/// What the input side has observed of one client is at every moment a
/// prefix of what that client has sent: delivery may lag behind, but never
/// reorders or invents frames.
pub proof fn lemma_observed_is_prefix_of_sent(
    delivered: Seq<(u64, Frame)>,
    queue: Seq<(u64, Frame)>,
    client: u64,
)
    ensures
        sends_of(delivered, client).is_prefix_of(sends_of(delivered + queue, client)),
{
    lemma_sends_of_add(delivered, queue, client);
    let observed = sends_of(delivered, client);
    let waiting = sends_of(queue, client);
    assert((observed + waiting).subrange(0, observed.len() as int) =~= observed);
}

/// Fan-in order law, send side: enqueueing one frame extends the sending
/// client's stream (delivered, then waiting) by exactly that frame at the
/// end, and leaves every other client's stream untouched.
pub proof fn lemma_send_preserves_order(
    delivered: Seq<(u64, Frame)>,
    queue: Seq<(u64, Frame)>,
    sender: u64,
    frame: Frame,
    client: u64,
)
    ensures
        sends_of(delivered + queue.push((sender, frame)), client) == if client == sender {
            sends_of(delivered + queue, client).push(frame)
        } else {
            sends_of(delivered + queue, client)
        },
{
    let one = seq![(sender, frame)];
    assert(delivered + queue.push((sender, frame)) =~= (delivered + queue) + one);
    lemma_sends_of_add(delivered + queue, one, client);
    lemma_sends_of_singleton((sender, frame), client);
    if client == sender {
        assert(sends_of(delivered + queue, client) + seq![frame] =~= sends_of(
            delivered + queue,
            client,
        ).push(frame));
    } else {
        assert(sends_of(delivered + queue, client) + Seq::<Frame>::empty() =~= sends_of(
            delivered + queue,
            client,
        ));
    }
}

/// Fan-in order law, receive side: the consumer taking the oldest waiting
/// frame leaves every client's total stream (delivered, then waiting)
/// unchanged, and extends what the input side has observed of the taking
/// client by exactly that client's oldest waiting frame. Per-client send
/// order is thus observed byte-for-byte; only the interleaving across
/// clients is open.
pub proof fn lemma_receive_preserves_order(
    delivered: Seq<(u64, Frame)>,
    queue: Seq<(u64, Frame)>,
    client: u64,
)
    requires
        queue.len() > 0,
    ensures
        delivered.push(queue[0]) + queue.drop_first() == delivered + queue,
        sends_of(delivered.push(queue[0]), client) == if queue[0].0 == client {
            sends_of(delivered, client).push(queue[0].1)
        } else {
            sends_of(delivered, client)
        },
{
    assert(delivered.push(queue[0]) + queue.drop_first() =~= delivered + queue);
    let one = seq![queue[0]];
    assert(delivered.push(queue[0]) =~= delivered + one);
    lemma_sends_of_add(delivered, one, client);
    lemma_sends_of_singleton(queue[0], client);
    if queue[0].0 == client {
        assert(sends_of(delivered, client) + seq![queue[0].1] =~= sends_of(
            delivered,
            client,
        ).push(queue[0].1));
    } else {
        assert(sends_of(delivered, client) + Seq::<Frame>::empty() =~= sends_of(
            delivered,
            client,
        ));
    }
}

/// One step of an aggregation channel's life: some client sends a frame, or
/// the consumer takes the oldest one.
pub enum AggregationOp {
    Send(u64, Frame),
    Receive,
}

/// The frames one client sends in a sequence of operations, in its order.
pub open spec fn sent_by(ops: Seq<AggregationOp>, client: u64) -> Seq<Frame>
    decreases ops.len(),
{
    if ops.len() == 0 {
        Seq::empty()
    } else {
        match ops[0] {
            AggregationOp::Send(sender, frame) => {
                if sender == client {
                    seq![frame] + sent_by(ops.drop_first(), client)
                } else {
                    sent_by(ops.drop_first(), client)
                }
            },
            AggregationOp::Receive => sent_by(ops.drop_first(), client),
        }
    }
}

/// Runs sends and receives against the channel: a send at capacity is
/// refused and changes nothing (the producer waits and sends again); a
/// receive on an empty queue returns nothing.
pub open spec fn run_aggregation(
    queue: Seq<(u64, Frame)>,
    delivered: Seq<(u64, Frame)>,
    capacity: nat,
    ops: Seq<AggregationOp>,
) -> (Seq<(u64, Frame)>, Seq<(u64, Frame)>)
    decreases ops.len(),
{
    if ops.len() == 0 {
        (queue, delivered)
    } else {
        match ops[0] {
            AggregationOp::Send(sender, frame) => {
                if queue.len() < capacity {
                    run_aggregation(
                        queue.push((sender, frame)),
                        delivered,
                        capacity,
                        ops.drop_first(),
                    )
                } else {
                    run_aggregation(queue, delivered, capacity, ops.drop_first())
                }
            },
            AggregationOp::Receive => {
                if queue.len() == 0 {
                    run_aggregation(queue, delivered, capacity, ops.drop_first())
                } else {
                    run_aggregation(
                        queue.drop_first(),
                        delivered.push(queue[0]),
                        capacity,
                        ops.drop_first(),
                    )
                }
            },
        }
    }
}

/// Whether no send in the run hits a full queue, i.e. backpressure never
/// makes a producer wait.
pub open spec fn always_room(
    queue: Seq<(u64, Frame)>,
    capacity: nat,
    ops: Seq<AggregationOp>,
) -> bool
    decreases ops.len(),
{
    if ops.len() == 0 {
        true
    } else {
        match ops[0] {
            AggregationOp::Send(sender, frame) => queue.len() < capacity && always_room(
                queue.push((sender, frame)),
                capacity,
                ops.drop_first(),
            ),
            AggregationOp::Receive => {
                if queue.len() == 0 {
                    always_room(queue, capacity, ops.drop_first())
                } else {
                    always_room(queue.drop_first(), capacity, ops.drop_first())
                }
            },
        }
    }
}

/// Fan-in order law over whole runs: however the clients' sends and the
/// consumer's takes interleave (no send refused), each client's frames run
/// through the channel exactly in that client's send order — the stream the
/// input side ends with (delivered, then still waiting), restricted to one
/// client, is what that client had in the channel at the start followed by
/// everything it sent since, byte-for-byte.
pub proof fn lemma_aggregation_run_preserves_client_order(
    queue: Seq<(u64, Frame)>,
    delivered: Seq<(u64, Frame)>,
    capacity: nat,
    ops: Seq<AggregationOp>,
    client: u64,
)
    requires
        always_room(queue, capacity, ops),
    ensures
        ({
            let (q1, d1) = run_aggregation(queue, delivered, capacity, ops);
            sends_of(d1 + q1, client) == sends_of(delivered + queue, client) + sent_by(
                ops,
                client,
            )
        }),
    decreases ops.len(),
{
    if ops.len() == 0 {
        assert(sends_of(delivered + queue, client) + sent_by(ops, client) =~= sends_of(
            delivered + queue,
            client,
        ));
    } else {
        match ops[0] {
            AggregationOp::Send(sender, frame) => {
                lemma_aggregation_run_preserves_client_order(
                    queue.push((sender, frame)),
                    delivered,
                    capacity,
                    ops.drop_first(),
                    client,
                );
                lemma_send_preserves_order(delivered, queue, sender, frame, client);
                let base = sends_of(delivered + queue, client);
                let rest = sent_by(ops.drop_first(), client);
                if sender == client {
                    assert(base.push(frame) + rest =~= base + (seq![frame] + rest));
                }
            },
            AggregationOp::Receive => {
                if queue.len() == 0 {
                    lemma_aggregation_run_preserves_client_order(
                        queue,
                        delivered,
                        capacity,
                        ops.drop_first(),
                        client,
                    );
                } else {
                    lemma_aggregation_run_preserves_client_order(
                        queue.drop_first(),
                        delivered.push(queue[0]),
                        capacity,
                        ops.drop_first(),
                        client,
                    );
                    assert(delivered.push(queue[0]) + queue.drop_first() =~= delivered + queue);
                }
            },
        }
    }
}

/// Shortens one read's buffer to the bytes that were actually read: the
/// frame a publish carries is exactly that prefix.
pub fn frame_prefix(buf: &mut Vec<u8>, len: usize)
    requires
        len <= old(buf)@.len(),
    ensures
        final(buf)@ == old(buf)@.subrange(0, len as int),
{
    buf.truncate(len);
}

} // verus!
