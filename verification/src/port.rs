//! The input-port state machine: what each transport's read and write calls
//! mean, and how a server-singleton transport survives the loss of its peer.
//!
//! The surrounding process owns the OS handles and performs the actual I/O;
//! it reports each outcome here as an [`IoEvent`] and obeys the returned
//! decision. The state tracks only what the relay's behaviour depends on:
//! whether the transport is connected, and whether a server-singleton
//! transport currently holds an accepted peer.

use vstd::prelude::*;

use crate::config::TransportConfig;

verus! {

/// What the relay knows of the one input transport.
#[derive(Clone, Copy, PartialEq, Eq, Structural, Debug)]
pub enum PortState {
    /// A dialled TCP connection.
    TcpClient { connected: bool },
    /// A bound TCP listener holding at most one accepted peer.
    TcpServer { bound: bool, peer: bool },
    /// A bound, connectionless UDP socket.
    Udp { bound: bool },
    /// An opened serial stream.
    Serial { connected: bool },
}

/// The outcome of one OS-level read or accept, reported by the I/O layer.
#[derive(Clone, Copy, PartialEq, Eq, Structural, Debug)]
pub enum IoEvent {
    /// A read returned `len` bytes; zero signals an orderly peer close on a
    /// stream transport and an empty datagram on UDP.
    Data { len: usize },
    /// The read or accept failed.
    Failed,
    /// A listening server-singleton transport accepted a new peer.
    AcceptedPeer,
}

/// What one read call reports to the run loop.
#[derive(Clone, Copy, PartialEq, Eq, Structural, Debug)]
pub enum ReadResult {
    /// `len` bytes were read; zero means "no data this iteration" (peer
    /// closed, peer just accepted, or empty datagram) and the caller must
    /// poll again.
    Bytes { len: usize },
    /// The transport was used before it was connected.
    NotConnected,
    /// The underlying read or accept failed.
    IoError,
}

/// What a write call does with the buffer it is handed.
#[derive(Clone, Copy, PartialEq, Eq, Structural, Debug)]
pub enum WriteAction {
    /// The transport was used before it was connected: a typed error.
    Reject,
    /// The bytes are silently discarded and the write reports zero bytes:
    /// UDP (no reply-to-sender), and a server singleton with no peer.
    Discard,
    /// The bytes are written to the underlying stream.
    Send,
}

impl PortState {
    /// A peer can only be held by a bound listener.
    pub open spec fn wf(self) -> bool {
        match self {
            PortState::TcpServer { bound, peer } => peer ==> bound,
            _ => true,
        }
    }

    /// Whether the transport has completed its connect-time handshake.
    pub open spec fn is_connected(self) -> bool {
        match self {
            PortState::TcpClient { connected } => connected,
            PortState::TcpServer { bound, .. } => bound,
            PortState::Udp { bound } => bound,
            PortState::Serial { connected } => connected,
        }
    }

    /// Which events the I/O layer can report in this state: an accepted peer
    /// arrives only on a bound server singleton that holds none.
    pub open spec fn admits(self, ev: IoEvent) -> bool {
        ev is AcceptedPeer ==> self == (PortState::TcpServer { bound: true, peer: false })
    }
}

/// The state of each transport right after a successful connect: dialled,
/// bound, or opened, with no peer accepted yet on a server singleton.
pub open spec fn connected_state_spec(config: TransportConfig) -> PortState {
    match config {
        TransportConfig::TcpClient { .. } => PortState::TcpClient { connected: true },
        TransportConfig::TcpServerSingleton { .. } => PortState::TcpServer {
            bound: true,
            peer: false,
        },
        TransportConfig::Udp { .. } => PortState::Udp { bound: true },
        TransportConfig::Serial { .. } => PortState::Serial { connected: true },
    }
}

/// The port state a successful connect of `config` establishes.
pub fn connected_state(config: &TransportConfig) -> (st: PortState)
    ensures
        st == connected_state_spec(*config),
        st.wf(),
        st.is_connected(),
{
    match config {
        TransportConfig::TcpClient { .. } => PortState::TcpClient { connected: true },
        TransportConfig::TcpServerSingleton { .. } => PortState::TcpServer {
            bound: true,
            peer: false,
        },
        TransportConfig::Udp { .. } => PortState::Udp { bound: true },
        TransportConfig::Serial { .. } => PortState::Serial { connected: true },
    }
}

/// How one read outcome changes the port state and what it reports.
///
/// A server singleton clears its peer on close or error so that the next
/// read accepts a replacement; accepting reports zero bytes so the caller
/// re-polls.
pub open spec fn read_step_spec(st: PortState, ev: IoEvent) -> (PortState, ReadResult) {
    if !st.is_connected() {
        (st, ReadResult::NotConnected)
    } else {
        match st {
            PortState::TcpServer { bound, peer } => {
                if peer {
                    match ev {
                        IoEvent::Data { len } => {
                            if len == 0 {
                                (
                                    PortState::TcpServer { bound, peer: false },
                                    ReadResult::Bytes { len: 0 },
                                )
                            } else {
                                (st, ReadResult::Bytes { len })
                            }
                        },
                        _ => (PortState::TcpServer { bound, peer: false }, ReadResult::IoError),
                    }
                } else {
                    match ev {
                        IoEvent::AcceptedPeer => {
                            (
                                PortState::TcpServer { bound, peer: true },
                                ReadResult::Bytes { len: 0 },
                            )
                        },
                        _ => (st, ReadResult::IoError),
                    }
                }
            },
            _ => {
                match ev {
                    IoEvent::Data { len } => (st, ReadResult::Bytes { len }),
                    _ => (st, ReadResult::IoError),
                }
            },
        }
    }
}

/// Applies one read outcome to the port state and returns what the read
/// call reports.
pub fn read_step(st: &mut PortState, ev: IoEvent) -> (r: ReadResult)
    requires
        old(st).wf(),
        old(st).admits(ev),
    ensures
        (*final(st), r) == read_step_spec(*old(st), ev),
        final(st).wf(),
{
    if !is_connected_exec(st) {
        return ReadResult::NotConnected;
    }
    match *st {
        PortState::TcpServer { bound, peer } => {
            if peer {
                match ev {
                    IoEvent::Data { len } => {
                        if len == 0 {
                            *st = PortState::TcpServer { bound, peer: false };
                            ReadResult::Bytes { len: 0 }
                        } else {
                            ReadResult::Bytes { len }
                        }
                    },
                    _ => {
                        *st = PortState::TcpServer { bound, peer: false };
                        ReadResult::IoError
                    },
                }
            } else {
                match ev {
                    IoEvent::AcceptedPeer => {
                        *st = PortState::TcpServer { bound, peer: true };
                        ReadResult::Bytes { len: 0 }
                    },
                    _ => ReadResult::IoError,
                }
            }
        },
        _ => {
            match ev {
                IoEvent::Data { len } => ReadResult::Bytes { len },
                _ => ReadResult::IoError,
            }
        },
    }
}

fn is_connected_exec(st: &PortState) -> (r: bool)
    ensures
        r == st.is_connected(),
{
    match st {
        PortState::TcpClient { connected } => *connected,
        PortState::TcpServer { bound, .. } => *bound,
        PortState::Udp { bound } => *bound,
        PortState::Serial { connected } => *connected,
    }
}

/// What a write call does in each state: connected streams send, UDP and a
/// peerless server singleton discard, an unconnected stream is a typed
/// error.
pub open spec fn write_action_spec(st: PortState) -> WriteAction {
    match st {
        PortState::TcpClient { connected } => {
            if connected {
                WriteAction::Send
            } else {
                WriteAction::Reject
            }
        },
        PortState::Serial { connected } => {
            if connected {
                WriteAction::Send
            } else {
                WriteAction::Reject
            }
        },
        PortState::TcpServer { peer, .. } => {
            if peer {
                WriteAction::Send
            } else {
                WriteAction::Discard
            }
        },
        PortState::Udp { .. } => WriteAction::Discard,
    }
}

/// Decides what the transport does with one outbound buffer.
pub fn write_action(st: &PortState) -> (a: WriteAction)
    ensures
        a == write_action_spec(*st),
{
    match st {
        PortState::TcpClient { connected } => {
            if *connected {
                WriteAction::Send
            } else {
                WriteAction::Reject
            }
        },
        PortState::Serial { connected } => {
            if *connected {
                WriteAction::Send
            } else {
                WriteAction::Reject
            }
        },
        PortState::TcpServer { peer, .. } => {
            if *peer {
                WriteAction::Send
            } else {
                WriteAction::Discard
            }
        },
        PortState::Udp { .. } => WriteAction::Discard,
    }
}

/// A server-singleton input that loses its peer falls back to an
/// accept-only state, and one accepted replacement restores full relaying
/// in the same process: the next reads deliver data again and writes are
/// sent to the new peer.
pub proof fn lemma_server_singleton_recovers(loss: IoEvent, n: usize)
    requires
        loss == (IoEvent::Data { len: 0 }) || loss is Failed,
    ensures
        ({
            let st0 = PortState::TcpServer { bound: true, peer: true };
            let (st1, _) = read_step_spec(st0, loss);
            let (st2, r2) = read_step_spec(st1, IoEvent::AcceptedPeer);
            let (st3, r3) = read_step_spec(st2, IoEvent::Data { len: n });
            &&& st1 == (PortState::TcpServer { bound: true, peer: false })
            &&& st2 == (PortState::TcpServer { bound: true, peer: true })
            &&& r2 == (ReadResult::Bytes { len: 0 })
            &&& write_action_spec(st2) == WriteAction::Send
            &&& n > 0 ==> (st3 == st2 && r3 == (ReadResult::Bytes { len: n }))
        }),
{
}

} // verus!
