//! Tests of the dispatch state machine.

use dnsi::client::{
    Answer, Client, Directive, IpAddr, MultiDirective, Protocol, Server, SocketAddr, Stats,
    Transport,
};
use dnsi::error::ErrorKind;
use dnsi::error::Error;
use dnsi::records::is_truncated;

fn addr(n: u32) -> SocketAddr {
    SocketAddr { ip: IpAddr::V4(n), port: 53 }
}

fn server(n: u32, transport: Transport) -> Server {
    Server {
        addr: addr(n),
        transport,
        timeout_ms: 5000,
        retries: 2,
        udp_payload_size: 1232,
        tls_hostname: None,
    }
}

fn answer_with(msg: Vec<u8>, n: u32, proto: Protocol) -> Answer {
    Answer::new(msg, Stats::new(addr(n), proto))
}

fn clean_msg() -> Vec<u8> {
    vec![0u8; 12]
}

fn truncated_msg() -> Vec<u8> {
    let mut m = vec![0u8; 12];
    m[2] = 2;
    m
}

#[test]
fn truncation_bit_is_read_from_the_header() {
    assert!(is_truncated(&truncated_msg()));
    assert!(!is_truncated(&clean_msg()));
    assert!(!is_truncated(&vec![0u8, 0u8]));
    let mut m = vec![0u8; 12];
    m[2] = 0x85;
    assert!(!is_truncated(&m));
    m[2] = 0x87;
    assert!(is_truncated(&m));
}

#[test]
fn empty_registry_is_a_configuration_error() {
    let client = Client::with_servers(Vec::new());
    match client.request_begin() {
        Err(e) => assert_eq!(e.kind, ErrorKind::Config),
        Ok(_) => panic!("an empty registry must not be attempted"),
    }
    match client.request_multi_begin() {
        Err(e) => assert_eq!(e.kind, ErrorKind::Config),
        Ok(_) => panic!("an empty registry must not be attempted"),
    }
}

#[test]
fn ordered_failover_returns_the_last_servers_answer() {
    let client = Client::with_servers(vec![
        server(1, Transport::Udp),
        server(2, Transport::Udp),
        server(3, Transport::Udp),
    ]);
    let mut st = client.request_begin().unwrap();

    match client.request_directive(&st) {
        Directive::ExchangeUdp { index } => assert_eq!(index, 0),
        _ => panic!("first directive must address the first server over UDP"),
    }
    assert!(client.request_step(&mut st, Err(Error::transport("one"))).is_none());

    match client.request_directive(&st) {
        Directive::ExchangeUdp { index } => assert_eq!(index, 1),
        _ => panic!("failover must move to the second server"),
    }
    assert!(client.request_step(&mut st, Err(Error::transport("two"))).is_none());

    match client.request_directive(&st) {
        Directive::ExchangeUdp { index } => assert_eq!(index, 2),
        _ => panic!("failover must move to the third server"),
    }
    let res = client.request_step(&mut st, Ok(answer_with(clean_msg(), 3, Protocol::Udp)));
    match res {
        Some(Ok(ans)) => {
            assert_eq!(ans.stats().server_addr, addr(3));
            assert_eq!(ans.message(), &clean_msg());
        }
        _ => panic!("the third server's answer must be delivered"),
    }
}

#[test]
fn when_all_servers_fail_the_last_error_surfaces() {
    let client = Client::with_servers(vec![
        server(1, Transport::Tcp),
        server(2, Transport::Tcp),
    ]);
    let mut st = client.request_begin().unwrap();
    assert!(client.request_step(&mut st, Err(Error::transport("first error"))).is_none());
    match client.request_step(&mut st, Err(Error::transport("last error"))) {
        Some(Err(e)) => {
            assert_eq!(e.kind, ErrorKind::Transport);
            assert_eq!(e.message, "last error");
        }
        _ => panic!("the last server's error must surface"),
    }
}

#[test]
fn udptcp_truncation_triggers_exactly_one_tcp_retry() {
    let client = Client::with_servers(vec![server(1, Transport::UdpTcp)]);
    let mut st = client.request_begin().unwrap();

    match client.request_directive(&st) {
        Directive::ExchangeUdp { index } => assert_eq!(index, 0),
        _ => panic!("a UDP-then-TCP attempt starts over UDP"),
    }
    let res = client.request_step(&mut st, Ok(answer_with(truncated_msg(), 1, Protocol::Udp)));
    assert!(res.is_none(), "a truncated response must not be delivered");

    match client.request_directive(&st) {
        Directive::ExchangeTcp { index } => assert_eq!(index, 0),
        _ => panic!("the retry must go over TCP to the same server"),
    }
    let res = client.request_step(&mut st, Ok(answer_with(clean_msg(), 1, Protocol::Tcp)));
    match res {
        Some(Ok(ans)) => assert_eq!(ans.stats().server_proto, Protocol::Tcp),
        _ => panic!("the TCP result must be what is returned"),
    }
}

#[test]
fn udptcp_truncation_retry_failure_is_the_attempts_failure() {
    let client = Client::with_servers(vec![server(1, Transport::UdpTcp)]);
    let mut st = client.request_begin().unwrap();
    let res = client.request_step(&mut st, Ok(answer_with(truncated_msg(), 1, Protocol::Udp)));
    assert!(res.is_none());
    match client.request_step(&mut st, Err(Error::transport("tcp refused"))) {
        Some(Err(e)) => assert_eq!(e.message, "tcp refused"),
        _ => panic!("the TCP failure must be what is returned"),
    }
}

#[test]
fn udptcp_without_truncation_delivers_the_udp_answer() {
    let client = Client::with_servers(vec![server(1, Transport::UdpTcp)]);
    let mut st = client.request_begin().unwrap();
    let res = client.request_step(&mut st, Ok(answer_with(clean_msg(), 1, Protocol::Udp)));
    match res {
        Some(Ok(ans)) => assert_eq!(ans.stats().server_proto, Protocol::Udp),
        _ => panic!("a clean UDP answer is delivered at once"),
    }
}

#[test]
fn tls_without_hostname_is_a_configuration_error() {
    let client = Client::with_servers(vec![server(1, Transport::Tls)]);
    let st = client.request_begin().unwrap();
    match client.request_directive(&st) {
        Directive::FailConfig { error } => assert_eq!(error.kind, ErrorKind::Config),
        _ => panic!("a TLS server without a hostname cannot be attempted"),
    }
}

#[test]
fn tls_with_hostname_is_attempted() {
    let mut s = server(1, Transport::Tls);
    s.tls_hostname = Some("dns.example".to_string());
    let client = Client::with_servers(vec![s]);
    let st = client.request_begin().unwrap();
    match client.request_directive(&st) {
        Directive::ExchangeTls { index } => assert_eq!(index, 0),
        _ => panic!("a TLS server with a hostname is attempted over TLS"),
    }
}

#[test]
fn multi_response_over_udp_fails_before_any_exchange() {
    for transport in [Transport::Udp, Transport::UdpTcp] {
        let client = Client::with_servers(vec![server(1, transport)]);
        let st = client.request_multi_begin().unwrap();
        match client.request_multi_directive(&st) {
            MultiDirective::FailConfig { error } => assert_eq!(error.kind, ErrorKind::Config),
            _ => panic!("a datagram transport cannot carry a response stream"),
        }
    }
}

#[test]
fn multi_response_over_tcp_proceeds_and_fails_over() {
    let client = Client::with_servers(vec![
        server(1, Transport::Tcp),
        server(2, Transport::Tcp),
    ]);
    let mut st = client.request_multi_begin().unwrap();
    match client.request_multi_directive(&st) {
        MultiDirective::ExchangeTcpMulti { index } => assert_eq!(index, 0),
        _ => panic!("a TCP server carries the stream"),
    }
    assert!(client.request_multi_step(&mut st, Err(Error::transport("refused"))).is_none());
    match client.request_multi_directive(&st) {
        MultiDirective::ExchangeTcpMulti { index } => assert_eq!(index, 1),
        _ => panic!("failover must move to the second server"),
    }
    match client.request_multi_step(&mut st, Ok(())) {
        Some(Ok(())) => {}
        _ => panic!("an opened stream finishes the dispatch"),
    }
}

#[test]
fn stats_finalize_keeps_the_attempt_metadata() {
    let mut stats = Stats::new(addr(9), Protocol::Tls);
    assert_eq!(stats.duration_ms, 0);
    stats.finalize();
    assert!(stats.duration_ms >= 0);
    assert_eq!(stats.server_addr, addr(9));
    assert_eq!(stats.server_proto, Protocol::Tls);
}

#[test]
fn protocol_mnemonics() {
    assert_eq!(Protocol::Udp.mnemonic(), "UDP");
    assert_eq!(Protocol::Tcp.mnemonic(), "TCP");
    assert_eq!(Protocol::Tls.mnemonic(), "TLS");
}
