//! The per-client handler state machine of the retransmit server: a private
//! bounded pending-write queue, a slow-write counter, and the decisions that
//! deliver broadcast frames, buffer them under write timeouts, forward the
//! client's own bytes upstream, and evict a client that stays too slow.
//!
//! The handler task owns the client socket and one value of [`ClientState`];
//! it performs each timed write or read and reports the outcome here, then
//! obeys the returned decision. Disconnection is terminal: the handler
//! closes the socket and drops the state.

use vstd::prelude::*;

verus! {

/// Bound of the per-client pending-write queue.
pub const CLIENT_PENDING_WRITE_CAPACITY: usize = 100;

/// Timeout of one write to a client socket, in milliseconds.
pub const WRITE_TIMEOUT_MS: u64 = 5000;

/// Write timeouts a client survives; one more disconnects it.
pub const SLOW_CLIENT_TIMEOUT_CAP: u32 = 10;

/// Every how many write timeouts a warning is logged (counting the first).
pub const SLOW_CLIENT_WARN_EVERY: u32 = 5;

/// The state one handler task keeps for its client.
pub struct ClientState {
    /// Frames that could not be written within the timeout yet, oldest
    /// first. Bounded at [`CLIENT_PENDING_WRITE_CAPACITY`].
    pub pending_writes: Vec<Vec<u8>>,
    /// Write timeouts seen so far for this client.
    pub slow_client_warnings: u32,
}

/// The outcome of one timed write to the client socket.
#[derive(Clone, Copy, PartialEq, Eq, Structural, Debug)]
pub enum WriteStatus {
    /// The whole buffer was written within the timeout.
    Written,
    /// The socket failed.
    Failed,
    /// The timeout elapsed before the write completed.
    TimedOut,
}

/// The decision after one attempt to flush the oldest pending frame.
#[derive(Clone, Copy, PartialEq, Eq, Structural, Debug)]
pub enum FlushStep {
    /// The oldest frame went out and left the queue.
    Flushed,
    /// The client is disconnected: its socket failed, or it exceeded the
    /// timeout cap.
    Disconnect,
    /// The write timed out but the client survives: handle other events
    /// first, then retry the same frame. `warn` marks the timeouts that are
    /// logged (every fifth, counting the first).
    Yield { warn: bool },
}

/// The decision after one broadcast frame arrived for this client.
#[derive(Clone, Copy, PartialEq, Eq, Structural, Debug)]
pub enum DeliveryStep {
    /// The frame was written to the client within the timeout.
    Delivered,
    /// The frame waits in the pending queue. `warn` marks the write
    /// timeouts that are logged (every fifth, counting the first).
    Buffered { warn: bool },
    /// The client is disconnected: its socket failed, its queue is full, or
    /// it exceeded the timeout cap.
    Disconnect,
}

/// The outcome of one read of the client socket, as the handler saw it.
#[derive(Clone, Copy, PartialEq, Eq, Structural, Debug)]
pub enum SocketRead {
    /// The read returned `len` bytes; zero signals an orderly close.
    Bytes { len: usize },
    /// The read failed.
    Failed,
}

/// The decision after one read of the client socket.
#[derive(Clone, Copy, PartialEq, Eq, Structural, Debug)]
pub enum ClientReadStep {
    /// Forward the first `len` bytes read onto the aggregation channel; a
    /// failure to enqueue there (the input side is gone) disconnects the
    /// client.
    Forward { len: usize },
    /// The client closed or failed: disconnect it.
    Disconnect,
}

impl ClientState {
    /// The pending frames, oldest first.
    pub open spec fn pending(self) -> Seq<Vec<u8>> {
        self.pending_writes@
    }

    /// Write timeouts seen so far.
    pub open spec fn warnings(self) -> u32 {
        self.slow_client_warnings
    }

    /// Every live client respects the queue bound and the timeout cap.
    pub open spec fn wf(self) -> bool {
        &&& self.pending().len() <= CLIENT_PENDING_WRITE_CAPACITY
        &&& self.warnings() <= SLOW_CLIENT_TIMEOUT_CAP
    }

    /// Fresh state for a client just accepted: nothing pending, no timeouts.
    pub fn new() -> (st: ClientState)
        ensures
            st.pending() == Seq::<Vec<u8>>::empty(),
            st.warnings() == 0,
            st.wf(),
    {
        ClientState { pending_writes: Vec::new(), slow_client_warnings: 0 }
    }

    /// Whether a flush must be attempted before any new event is handled.
    pub fn has_pending(&self) -> (b: bool)
        ensures
            b == (self.pending().len() > 0),
    {
        self.pending_writes.len() > 0
    }

    /// The oldest pending frame: the one the next flush writes.
    pub fn front_frame(&self) -> (r: &Vec<u8>)
        requires
            self.pending().len() > 0,
        ensures
            r == self.pending()[0],
    {
        &self.pending_writes[0]
    }
}

/// What one more write timeout does to the counter, wherever it occurs:
/// the bumped count, whether the client is now past the cap and evicted,
/// and whether this timeout is logged (every fifth, counting the first).
pub open spec fn timeout_outcome(warnings: u32) -> (u32, bool, bool) {
    let bumped = (warnings + 1) as u32;
    (bumped, bumped > SLOW_CLIENT_TIMEOUT_CAP, bumped % SLOW_CLIENT_WARN_EVERY == 1)
}

/// How one flush attempt on the oldest pending frame changes the state and
/// what the handler does next: a completed write dequeues the frame, a
/// socket failure disconnects, a timeout counts against the cap and either
/// disconnects (past [`SLOW_CLIENT_TIMEOUT_CAP`]) or yields so the client's
/// own reads can interleave, with the same frame retried later.
pub open spec fn flush_step_spec(pending: Seq<Vec<u8>>, warnings: u32, w: WriteStatus) -> (
    Seq<Vec<u8>>,
    u32,
    FlushStep,
) {
    match w {
        WriteStatus::Written => (pending.drop_first(), warnings, FlushStep::Flushed),
        WriteStatus::Failed => (pending, warnings, FlushStep::Disconnect),
        WriteStatus::TimedOut => {
            let (bumped, evict, warn) = timeout_outcome(warnings);
            if evict {
                (pending, bumped, FlushStep::Disconnect)
            } else {
                (pending, bumped, FlushStep::Yield { warn })
            }
        },
    }
}

impl ClientState {
    /// Applies the outcome of one timed write of the oldest pending frame.
    pub fn flush_front_step(&mut self, w: WriteStatus) -> (r: FlushStep)
        requires
            old(self).wf(),
            old(self).pending().len() > 0,
        ensures
            (final(self).pending(), final(self).warnings(), r) == flush_step_spec(
                old(self).pending(),
                old(self).warnings(),
                w,
            ),
            !(r is Disconnect) ==> final(self).wf(),
    {
        match w {
            WriteStatus::Written => {
                self.pending_writes.remove(0);
                proof {
                    assert(self.pending_writes@ =~= old(self).pending().drop_first());
                }
                FlushStep::Flushed
            },
            WriteStatus::Failed => FlushStep::Disconnect,
            WriteStatus::TimedOut => {
                self.slow_client_warnings = self.slow_client_warnings + 1;
                if self.slow_client_warnings > SLOW_CLIENT_TIMEOUT_CAP {
                    FlushStep::Disconnect
                } else {
                    FlushStep::Yield {
                        warn: self.slow_client_warnings % SLOW_CLIENT_WARN_EVERY == 1,
                    }
                }
            },
        }
    }

    /// Applies the outcome of the immediate timed write attempted for a
    /// broadcast frame while nothing was pending. A timeout counts against
    /// the cap like any other write timeout: past it the client is evicted,
    /// otherwise the frame is buffered for a later flush.
    pub fn deliver_when_idle(&mut self, frame: Vec<u8>, w: WriteStatus) -> (r: DeliveryStep)
        requires
            old(self).wf(),
            old(self).pending().len() == 0,
        ensures
            match w {
                WriteStatus::Written => r == DeliveryStep::Delivered && *final(self) == *old(self),
                WriteStatus::Failed => r == DeliveryStep::Disconnect && *final(self) == *old(self),
                WriteStatus::TimedOut => ({
                    let (bumped, evict, warn) = timeout_outcome(old(self).warnings());
                    &&& final(self).warnings() == bumped
                    &&& if evict {
                        r == DeliveryStep::Disconnect && final(self).pending() == old(
                            self,
                        ).pending()
                    } else {
                        r == (DeliveryStep::Buffered { warn }) && final(self).pending() == old(
                            self,
                        ).pending().push(frame)
                    }
                }),
            },
            !(r is Disconnect) ==> final(self).wf(),
    {
        match w {
            WriteStatus::Written => DeliveryStep::Delivered,
            WriteStatus::Failed => DeliveryStep::Disconnect,
            WriteStatus::TimedOut => {
                self.slow_client_warnings = self.slow_client_warnings + 1;
                if self.slow_client_warnings > SLOW_CLIENT_TIMEOUT_CAP {
                    DeliveryStep::Disconnect
                } else {
                    self.pending_writes.push(frame);
                    DeliveryStep::Buffered {
                        warn: self.slow_client_warnings % SLOW_CLIENT_WARN_EVERY == 1,
                    }
                }
            },
        }
    }

    /// Buffers a broadcast frame that arrived while earlier frames were
    /// still pending; a queue already at capacity disconnects the client as
    /// too slow instead.
    pub fn buffer_frame(&mut self, frame: Vec<u8>) -> (r: DeliveryStep)
        requires
            old(self).wf(),
        ensures
            final(self).warnings() == old(self).warnings(),
            if old(self).pending().len() >= CLIENT_PENDING_WRITE_CAPACITY {
                r == DeliveryStep::Disconnect && final(self).pending() == old(self).pending()
            } else {
                r == (DeliveryStep::Buffered { warn: false }) && final(self).pending() == old(
                    self,
                ).pending().push(frame)
            },
            !(r is Disconnect) ==> final(self).wf(),
    {
        if self.pending_writes.len() >= CLIENT_PENDING_WRITE_CAPACITY {
            DeliveryStep::Disconnect
        } else {
            self.pending_writes.push(frame);
            DeliveryStep::Buffered { warn: false }
        }
    }
}

/// Decides what one read of the client socket leads to: bytes are forwarded
/// upstream in the order this client sent them; a close or an error
/// disconnects the client and only it.
pub fn client_read_step(r: SocketRead) -> (s: ClientReadStep)
    ensures
        s == match r {
            SocketRead::Bytes { len } => {
                if len == 0 {
                    ClientReadStep::Disconnect
                } else {
                    ClientReadStep::Forward { len }
                }
            },
            SocketRead::Failed => ClientReadStep::Disconnect,
        },
{
    match r {
        SocketRead::Bytes { len } => {
            if len == 0 {
                ClientReadStep::Disconnect
            } else {
                ClientReadStep::Forward { len }
            }
        },
        SocketRead::Failed => ClientReadStep::Disconnect,
    }
}

/// Whether `k` further write timeouts — flush attempts or immediate writes,
/// every one counts the same — end in a disconnect, starting from
/// `warnings` already counted.
pub open spec fn evicted_after_timeouts(warnings: u32, k: nat) -> bool
    decreases k,
{
    if k == 0 {
        false
    } else {
        let (bumped, evict, _) = timeout_outcome(warnings);
        evict || evicted_after_timeouts(bumped, (k - 1) as nat)
    }
}

proof fn lemma_eviction_from(warnings: u32, k: nat)
    requires
        warnings <= SLOW_CLIENT_TIMEOUT_CAP,
    ensures
        evicted_after_timeouts(warnings, k) <==> warnings + k > SLOW_CLIENT_TIMEOUT_CAP,
    decreases k,
{
    if k > 0 {
        let (bumped, evict, _) = timeout_outcome(warnings);
        if !evict {
            lemma_eviction_from(bumped, (k - 1) as nat);
        }
    }
}

/// Slow-client eviction law: a fresh client survives exactly ten write
/// timeouts, and the eleventh one disconnects it — a client that reads
/// nothing, and so times out every write, is gone after eleven write-timeout
/// spans. The counter read and changed here is this one client's alone, so
/// evicting it blocks no other client's delivery.
pub proof fn lemma_slow_client_eviction(k: nat)
    ensures
        evicted_after_timeouts(0, k) <==> k > SLOW_CLIENT_TIMEOUT_CAP,
{
    lemma_eviction_from(0, k);
}

} // verus!
