use port_redirector::config::bind_endpoint;
use port_redirector::config::dec_string;
use port_redirector::config::dial_endpoint;
use port_redirector::config::effective_baud_rate;
use port_redirector::config::TransportConfig;
use port_redirector::config::DEFAULT_BAUD_RATE;
use port_redirector::port::connected_state;
use port_redirector::port::read_step;
use port_redirector::port::write_action;
use port_redirector::port::IoEvent;
use port_redirector::port::PortState;
use port_redirector::port::ReadResult;
use port_redirector::port::WriteAction;

#[test]
fn decimal_rendering_exact() {
    assert_eq!(dec_string(0), "0");
    assert_eq!(dec_string(7), "7");
    assert_eq!(dec_string(9100), "9100");
    assert_eq!(dec_string(65535), "65535");
}

#[test]
fn bind_endpoint_exact() {
    assert_eq!(bind_endpoint(9000), "0.0.0.0:9000");
    assert_eq!(bind_endpoint(80), "0.0.0.0:80");
}

#[test]
fn dial_endpoint_with_and_without_port() {
    assert_eq!(dial_endpoint("192.168.0.1", Some(8080)), "192.168.0.1:8080");
    assert_eq!(dial_endpoint("10.0.0.1:5001", None), "10.0.0.1:5001");
}

#[test]
fn serial_baud_rate_defaults() {
    assert_eq!(effective_baud_rate(None), DEFAULT_BAUD_RATE);
    assert_eq!(effective_baud_rate(Some(115200)), 115200);

    let with_rate = TransportConfig::Serial {
        device_name: String::from("COM6"),
        baud_rate: Some(115200),
    };
    assert_eq!(with_rate.serial_baud_rate(), Some(115200));
    let without_rate = TransportConfig::Serial {
        device_name: String::from("/dev/ttyUSB0"),
        baud_rate: None,
    };
    assert_eq!(without_rate.serial_baud_rate(), Some(9600));
    let not_serial = TransportConfig::Udp { port: 9000 };
    assert_eq!(not_serial.serial_baud_rate(), None);
}

#[test]
fn config_endpoints() {
    let tcp = TransportConfig::TcpClient {
        host: String::from("192.168.42.110"),
        port: Some(5001),
    };
    assert_eq!(tcp.endpoint(), Some(String::from("192.168.42.110:5001")));

    let tcp_joined = TransportConfig::TcpClient {
        host: String::from("192.168.42.110:5001"),
        port: None,
    };
    assert_eq!(tcp_joined.endpoint(), Some(String::from("192.168.42.110:5001")));

    let server = TransportConfig::TcpServerSingleton { port: 9100 };
    assert_eq!(server.endpoint(), Some(String::from("0.0.0.0:9100")));

    let udp = TransportConfig::Udp { port: 9000 };
    assert_eq!(udp.endpoint(), Some(String::from("0.0.0.0:9000")));

    let serial = TransportConfig::Serial {
        device_name: String::from("COM6"),
        baud_rate: None,
    };
    assert_eq!(serial.endpoint(), None);
}

#[test]
fn connected_states() {
    let tcp = TransportConfig::TcpClient {
        host: String::from("h"),
        port: Some(1),
    };
    assert_eq!(connected_state(&tcp), PortState::TcpClient { connected: true });
    let server = TransportConfig::TcpServerSingleton { port: 2 };
    assert_eq!(
        connected_state(&server),
        PortState::TcpServer { bound: true, peer: false }
    );
    let udp = TransportConfig::Udp { port: 3 };
    assert_eq!(connected_state(&udp), PortState::Udp { bound: true });
    let serial = TransportConfig::Serial {
        device_name: String::from("d"),
        baud_rate: None,
    };
    assert_eq!(connected_state(&serial), PortState::Serial { connected: true });
}

#[test]
fn unconnected_transport_is_a_typed_error() {
    let mut st = PortState::TcpClient { connected: false };
    let r = read_step(&mut st, IoEvent::Data { len: 5 });
    assert_eq!(r, ReadResult::NotConnected);
    assert_eq!(st, PortState::TcpClient { connected: false });
    assert_eq!(write_action(&st), WriteAction::Reject);

    let serial = PortState::Serial { connected: false };
    assert_eq!(write_action(&serial), WriteAction::Reject);
}

#[test]
fn udp_reads_and_discards_writes() {
    let mut st = PortState::Udp { bound: true };
    let r = read_step(&mut st, IoEvent::Data { len: 4 });
    assert_eq!(r, ReadResult::Bytes { len: 4 });
    // UDP has no reply-to-sender: every write is a silent no-op.
    assert_eq!(write_action(&st), WriteAction::Discard);
}

#[test]
fn stream_close_and_error() {
    let mut st = PortState::TcpClient { connected: true };
    assert_eq!(
        read_step(&mut st, IoEvent::Data { len: 0 }),
        ReadResult::Bytes { len: 0 }
    );
    assert_eq!(read_step(&mut st, IoEvent::Failed), ReadResult::IoError);
    assert_eq!(write_action(&st), WriteAction::Send);
}

#[test]
fn server_singleton_peer_recovery() {
    // Bound, no peer yet: writes are discarded, a peer is accepted.
    let mut st = connected_state(&TransportConfig::TcpServerSingleton { port: 9100 });
    assert_eq!(write_action(&st), WriteAction::Discard);
    assert_eq!(
        read_step(&mut st, IoEvent::AcceptedPeer),
        ReadResult::Bytes { len: 0 }
    );
    assert_eq!(st, PortState::TcpServer { bound: true, peer: true });

    // Relaying: data flows, writes are sent.
    assert_eq!(
        read_step(&mut st, IoEvent::Data { len: 100 }),
        ReadResult::Bytes { len: 100 }
    );
    assert_eq!(write_action(&st), WriteAction::Send);

    // Peer closes: back to accept-only, without restarting anything.
    assert_eq!(
        read_step(&mut st, IoEvent::Data { len: 0 }),
        ReadResult::Bytes { len: 0 }
    );
    assert_eq!(st, PortState::TcpServer { bound: true, peer: false });
    assert_eq!(write_action(&st), WriteAction::Discard);

    // A replacement peer restores relaying.
    assert_eq!(
        read_step(&mut st, IoEvent::AcceptedPeer),
        ReadResult::Bytes { len: 0 }
    );
    assert_eq!(
        read_step(&mut st, IoEvent::Data { len: 8 }),
        ReadResult::Bytes { len: 8 }
    );
    assert_eq!(write_action(&st), WriteAction::Send);
}

#[test]
fn server_singleton_peer_error_clears_peer() {
    let mut st = PortState::TcpServer { bound: true, peer: true };
    assert_eq!(read_step(&mut st, IoEvent::Failed), ReadResult::IoError);
    assert_eq!(st, PortState::TcpServer { bound: true, peer: false });
}
