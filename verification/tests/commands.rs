//! Tests of the command layer: validation, defaults and the server
//! builders.

use dnsi::client::{
    Client, IpAddr, SocketAddr, SystemServerEntry, Transport, RequestMessage,
};
use dnsi::commands::{Command, Help, Lookup, Query, ServerName, Xfr};
use dnsi::error::{Error, ErrorKind};
use dnsi::output::{OutputFormat, OutputOptions};
use dnsi::Args;

fn base_query() -> Query {
    Query {
        qname: b"example.com".to_vec(),
        qname_was_addr: false,
        qtype: None,
        server: None,
        port: None,
        ipv4: false,
        ipv6: false,
        tcp: false,
        udp: false,
        tls: false,
        tls_hostname: None,
        timeout_ms: None,
        retries: None,
        udp_payload_size: None,
        ad: false,
        cd: false,
        dnssec_ok: false,
        no_rd: false,
        force: false,
        verify: false,
        output: OutputOptions { format: OutputFormat::Dig },
    }
}

fn base_xfr() -> Xfr {
    Xfr {
        qname: b"example.com".to_vec(),
        ixfr: None,
        server: Some(ServerName::Addr(IpAddr::V4(0x7f000001))),
        port: None,
        ipv4: false,
        ipv6: false,
        udp: false,
        tls: false,
        tls_hostname: None,
        timeout_ms: None,
        force: false,
        output: OutputOptions { format: OutputFormat::Dig },
    }
}

#[test]
fn query_defaults() {
    let q = base_query();
    assert_eq!(q.timeout(), 5000);
    assert_eq!(q.retries(), 2);
    assert_eq!(q.udp_payload_size(), 1232);
    assert_eq!(q.transport(), Transport::UdpTcp);
    assert_eq!(q.qtype(), 28, "names default to AAAA lookups");

    let mut q = base_query();
    q.qname_was_addr = true;
    assert_eq!(q.qtype(), 12, "addresses default to PTR lookups");
    q.qtype = Some(6);
    assert_eq!(q.qtype(), 6);
}

#[test]
fn query_transport_selection() {
    let mut q = base_query();
    q.udp = true;
    assert_eq!(q.transport(), Transport::Udp);
    let mut q = base_query();
    q.tls = true;
    assert_eq!(q.transport(), Transport::Tls);
    let mut q = base_query();
    q.tcp = true;
    assert_eq!(q.transport(), Transport::Tcp);
}

#[test]
fn zone_transfer_types_are_refused_without_force() {
    let mut q = base_query();
    q.qtype = Some(252);
    let err = q.execute().unwrap_err();
    assert_eq!(err.kind, ErrorKind::Config);
    q.qtype = Some(251);
    assert!(q.execute().is_err());
    q.force = true;
    assert!(q.execute().is_ok());
}

#[test]
fn tls_needs_a_hostname_for_an_address_server() {
    let mut q = base_query();
    q.server = Some(ServerName::Addr(IpAddr::V4(0x7f000001)));
    q.tls = true;
    let err = q.execute().unwrap_err();
    assert_eq!(err.kind, ErrorKind::Config);
    assert_eq!(err.message, "--tls-hostname is required for TLS transport");
    q.tls_hostname = Some("dns.example".to_string());
    assert!(q.execute().is_ok());
}

#[test]
fn tls_needs_a_server() {
    let mut q = base_query();
    q.tls = true;
    let err = q.execute().unwrap_err();
    assert_eq!(err.kind, ErrorKind::Config);
    assert_eq!(err.message, "--server is required for TLS transport");
}

#[test]
fn a_named_server_needs_no_tls_hostname_up_front() {
    let mut q = base_query();
    q.server = Some(ServerName::Name(b"dns.example".to_vec()));
    q.tls = true;
    assert!(q.execute().is_ok(), "the host name itself serves for SNI");
}

#[test]
fn addr_server_uses_the_port_defaults() {
    let q = base_query();
    let client = q.addr_server(IpAddr::V4(9));
    assert_eq!(client.servers().len(), 1);
    assert_eq!(client.servers()[0].addr, SocketAddr { ip: IpAddr::V4(9), port: 53 });

    let mut q = base_query();
    q.tls = true;
    q.tls_hostname = Some("dns.example".to_string());
    let client = q.addr_server(IpAddr::V4(9));
    assert_eq!(client.servers()[0].addr.port, 853);
    assert_eq!(client.servers()[0].tls_hostname.as_deref(), Some("dns.example"));

    let mut q = base_query();
    q.port = Some(5353);
    let client = q.addr_server(IpAddr::V4(9));
    assert_eq!(client.servers()[0].addr.port, 5353);
}

#[test]
fn host_server_respects_the_address_family_flags() {
    let addrs = vec![IpAddr::V4(1), IpAddr::V6(2), IpAddr::V4(3)];
    let mut q = base_query();
    q.ipv4 = true;
    let client = q.host_server(&addrs);
    let ips: Vec<IpAddr> = client.servers().iter().map(|s| s.addr.ip).collect();
    assert_eq!(ips, vec![IpAddr::V4(1), IpAddr::V4(3)]);

    let mut q = base_query();
    q.ipv6 = true;
    let client = q.host_server(&addrs);
    let ips: Vec<IpAddr> = client.servers().iter().map(|s| s.addr.ip).collect();
    assert_eq!(ips, vec![IpAddr::V6(2)]);

    let q = base_query();
    assert_eq!(q.host_server(&addrs).servers().len(), 3);
}

#[test]
fn system_servers_keep_their_entries_and_clamp_attempts() {
    let entries = vec![
        SystemServerEntry {
            addr: SocketAddr { ip: IpAddr::V4(1), port: 53 },
            transport: Transport::UdpTcp,
            timeout_ms: 2000,
            udp_payload_size: 1232,
        },
        SystemServerEntry {
            addr: SocketAddr { ip: IpAddr::V6(2), port: 53 },
            transport: Transport::Tcp,
            timeout_ms: 3000,
            udp_payload_size: 512,
        },
    ];
    let client = Client::system(&entries, 3);
    assert_eq!(client.servers().len(), 2);
    assert_eq!(client.servers()[0].retries, 3);
    assert_eq!(client.servers()[0].transport, Transport::UdpTcp);
    assert_eq!(client.servers()[1].transport, Transport::Tcp);
    assert_eq!(client.servers()[1].timeout_ms, 3000);
    assert!(client.servers()[0].tls_hostname.is_none());

    let client = Client::system(&entries, 300);
    assert_eq!(client.servers()[0].retries, 2, "attempt counts above an octet fall back");

    let mut q = base_query();
    q.tcp = true;
    let client = q.system_server(&entries, 3);
    assert_eq!(client.servers()[0].transport, Transport::Tcp, "the command's transport wins");
    assert_eq!(client.servers()[1].transport, Transport::Tcp);
}

#[test]
fn create_request_carries_the_flags() {
    let mut q = base_query();
    q.ad = true;
    q.dnssec_ok = true;
    let r = q.create_request();
    assert_eq!(r.qname, b"example.com".to_vec());
    assert_eq!(r.qtype, 28);
    assert!(r.rd, "recursion is desired by default");
    assert!(r.ad);
    assert!(!r.cd);
    assert!(r.dnssec_ok);

    let mut q = base_query();
    q.no_rd = true;
    assert!(!q.create_request().rd);
}

#[test]
fn plain_query_requests_desire_recursion() {
    let r = RequestMessage::query(b"example.com".to_vec(), 28);
    assert!(r.rd);
    assert!(!r.ad && !r.cd && !r.dnssec_ok);
    assert_eq!(r.qtype, 28);
}

#[test]
fn xfr_udp_is_only_permitted_with_ixfr() {
    let mut x = base_xfr();
    x.udp = true;
    let err = x.execute().unwrap_err();
    assert_eq!(err.kind, ErrorKind::Config);
    assert_eq!(err.message, "UDP is only permitted with IXFR");
    x.ixfr = Some(12);
    assert!(x.execute().is_ok());
}

#[test]
fn xfr_picks_the_transfer_type_and_transport() {
    let x = base_xfr();
    assert_eq!(x.qtype(), 252, "a full transfer is AXFR");
    assert_eq!(x.transport(), Transport::Tcp);
    let mut x = base_xfr();
    x.ixfr = Some(1);
    assert_eq!(x.qtype(), 251, "an incremental transfer is IXFR");
    x.udp = true;
    assert_eq!(x.transport(), Transport::UdpTcp);
}

#[test]
fn help_topics_are_checked() {
    assert!(Help { command: None }.execute().is_ok());
    assert!(Help { command: Some("query".to_string()) }.execute().is_ok());
    let err = Help { command: Some("frobnicate".to_string()) }.execute().unwrap_err();
    assert_eq!(err.kind, ErrorKind::Config);
}

#[test]
fn args_dispatch_to_the_selected_command() {
    let args = Args { command: Command::Lookup(Lookup { names: Vec::new() }) };
    assert!(args.execute().is_ok());

    let mut q = base_query();
    q.tls = true;
    let args = Args { command: Command::Query(q) };
    assert!(args.execute().is_err());

    let mut x = base_xfr();
    x.udp = true;
    let args = Args { command: Command::Xfr(x) };
    assert!(args.execute().is_err());
}

#[test]
fn error_constructors_carry_kind_and_message() {
    assert_eq!(Error::config("a").kind, ErrorKind::Config);
    assert_eq!(Error::transport("b").kind, ErrorKind::Transport);
    assert_eq!(Error::protocol("c").kind, ErrorKind::Protocol);
    let e = Error::verification("no SOA record");
    assert_eq!(e.kind, ErrorKind::Verification);
    assert_eq!(e.message, "no SOA record");
}
