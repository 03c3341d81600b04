//! Transport configuration and the connect-time decisions that depend only on
//! it: which endpoint string each transport dials or binds, and the default
//! serial baud rate.

use vstd::prelude::*;

verus! {

/// Baud rate used for a serial transport when none is given.
pub const DEFAULT_BAUD_RATE: u32 = 9600;

/// Default bound of both relay channels.
pub const CHANNEL_CAPACITY: usize = 32;

/// Largest number of bytes one read call may return.
pub const READ_BUFFER_CAPACITY: usize = 8192;

/// The one input transport a process instance relays. Immutable once the
/// transport is connected.
#[allow(inconsistent_fields)]
pub enum TransportConfig {
    /// Dial a TCP peer. When `port` is `None`, `host` must already carry a
    /// `host:port` pair.
    TcpClient { host: String, port: Option<u16> },
    /// Bind a TCP listener and accept exactly one active peer at a time.
    TcpServerSingleton { port: u16 },
    /// Bind a local UDP socket. Connectionless; writes are discarded.
    Udp { port: u16 },
    /// Open a native serial stream at `baud_rate` (default 9600).
    Serial { device_name: String, baud_rate: Option<u32> },
}

/// The decimal digit character for `d < 10`.
pub open spec fn digit_char(d: nat) -> char {
    if d == 0 {
        '0'
    } else if d == 1 {
        '1'
    } else if d == 2 {
        '2'
    } else if d == 3 {
        '3'
    } else if d == 4 {
        '4'
    } else if d == 5 {
        '5'
    } else if d == 6 {
        '6'
    } else if d == 7 {
        '7'
    } else if d == 8 {
        '8'
    } else {
        '9'
    }
}

/// The decimal digits of `n`, most significant first, with no leading zeros
/// (a lone `0` for zero itself).
pub open spec fn dec_digits(n: nat) -> Seq<char>
    decreases n,
{
    if n < 10 {
        seq![digit_char(n)]
    } else {
        dec_digits(n / 10) + seq![digit_char(n % 10)]
    }
}

fn digit_str(d: u16) -> (s: &'static str)
    requires
        d < 10,
    ensures
        s@ == seq![digit_char(d as nat)],
{
    match d {
        0 => {
            proof {
                reveal_strlit("0");
                assert("0"@ =~= seq![digit_char(0)]);
            }
            "0"
        },
        1 => {
            proof {
                reveal_strlit("1");
                assert("1"@ =~= seq![digit_char(1)]);
            }
            "1"
        },
        2 => {
            proof {
                reveal_strlit("2");
                assert("2"@ =~= seq![digit_char(2)]);
            }
            "2"
        },
        3 => {
            proof {
                reveal_strlit("3");
                assert("3"@ =~= seq![digit_char(3)]);
            }
            "3"
        },
        4 => {
            proof {
                reveal_strlit("4");
                assert("4"@ =~= seq![digit_char(4)]);
            }
            "4"
        },
        5 => {
            proof {
                reveal_strlit("5");
                assert("5"@ =~= seq![digit_char(5)]);
            }
            "5"
        },
        6 => {
            proof {
                reveal_strlit("6");
                assert("6"@ =~= seq![digit_char(6)]);
            }
            "6"
        },
        7 => {
            proof {
                reveal_strlit("7");
                assert("7"@ =~= seq![digit_char(7)]);
            }
            "7"
        },
        8 => {
            proof {
                reveal_strlit("8");
                assert("8"@ =~= seq![digit_char(8)]);
            }
            "8"
        },
        _ => {
            proof {
                reveal_strlit("9");
                assert("9"@ =~= seq![digit_char(9)]);
            }
            "9"
        },
    }
}

/// Appends the decimal digits of `n` to `out`.
pub fn push_dec_digits(n: u16, out: &mut String)
    ensures
        final(out)@ == old(out)@ + dec_digits(n as nat),
    decreases n,
{
    if n >= 10 {
        push_dec_digits(n / 10, out);
    }
    let s = digit_str(n % 10);
    out.append(s);
    proof {
        assert(out@ =~= old(out)@ + dec_digits(n as nat));
    }
}

/// Renders `n` in decimal.
pub fn dec_string(n: u16) -> (s: String)
    ensures
        s@ == dec_digits(n as nat),
{
    let mut s = String::new();
    push_dec_digits(n, &mut s);
    proof {
        assert(s@ =~= dec_digits(n as nat));
    }
    s
}

/// The local address a listening or connectionless transport binds:
/// `0.0.0.0:<port>`.
pub fn bind_endpoint(port: u16) -> (s: String)
    ensures
        s@ == "0.0.0.0:"@ + dec_digits(port as nat),
{
    let mut s = String::from_str("0.0.0.0:");
    push_dec_digits(port, &mut s);
    s
}

/// The address a TCP client transport dials: `host:port` when a port is
/// given, the host string as it stands otherwise.
pub fn dial_endpoint(host: &str, port: Option<u16>) -> (s: String)
    ensures
        match port {
            Some(p) => s@ == host@ + ":"@ + dec_digits(p as nat),
            None => s@ == host@,
        },
{
    match port {
        Some(p) => {
            let mut s = host.to_owned();
            s.append(":");
            push_dec_digits(p, &mut s);
            s
        },
        None => host.to_owned(),
    }
}

/// The baud rate a serial transport is opened with.
pub fn effective_baud_rate(baud_rate: Option<u32>) -> (r: u32)
    ensures
        r == match baud_rate {
            Some(b) => b,
            None => DEFAULT_BAUD_RATE,
        },
{
    match baud_rate {
        Some(b) => b,
        None => DEFAULT_BAUD_RATE,
    }
}

impl TransportConfig {
    /// The socket address this configuration dials or binds at connect time;
    /// `None` for a serial device, which is opened by name instead.
    pub fn endpoint(&self) -> (r: Option<String>)
        ensures
            match self {
                TransportConfig::TcpClient { host, port: Some(p) } => (r matches Some(s)
                    && s@ == host@ + ":"@ + dec_digits(*p as nat)),
                TransportConfig::TcpClient { host, port: None } => (r matches Some(s) && s@
                    == host@),
                TransportConfig::TcpServerSingleton { port } => (r matches Some(s) && s@
                    == "0.0.0.0:"@ + dec_digits(*port as nat)),
                TransportConfig::Udp { port } => (r matches Some(s) && s@ == "0.0.0.0:"@
                    + dec_digits(*port as nat)),
                TransportConfig::Serial { .. } => r is None,
            },
    {
        match self {
            TransportConfig::TcpClient { host, port } => Some(dial_endpoint(host.as_str(), *port)),
            TransportConfig::TcpServerSingleton { port } => Some(bind_endpoint(*port)),
            TransportConfig::Udp { port } => Some(bind_endpoint(*port)),
            TransportConfig::Serial { .. } => None,
        }
    }

    /// The baud rate a serial configuration opens with; `None` for the other
    /// transports.
    pub fn serial_baud_rate(&self) -> (r: Option<u32>)
        ensures
            match self {
                TransportConfig::Serial { baud_rate: Some(b), .. } => r == Some(*b),
                TransportConfig::Serial { baud_rate: None, .. } => r == Some(DEFAULT_BAUD_RATE),
                _ => r is None,
            },
    {
        match self {
            TransportConfig::Serial { baud_rate, .. } => Some(effective_baud_rate(*baud_rate)),
            _ => None,
        }
    }
}

} // verus!
