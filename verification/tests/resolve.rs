//! Tests of the authoritative verification chain's pure steps.

use std::str::FromStr;

use domain::base::iana::Class;
use domain::base::message_builder::MessageBuilder;
use domain::base::name::Name;
use domain::base::{Serial, Ttl};
use domain::rdata::{Ns, Soa};

use dnsi::client::{IpAddr, Transport};
use dnsi::commands::Query;
use dnsi::error::ErrorKind;
use dnsi::output::{OutputFormat, OutputOptions};

fn name(s: &str) -> Name<Vec<u8>> {
    Name::from_str(s).unwrap()
}

fn soa_data() -> Soa<Name<Vec<u8>>> {
    Soa::new(
        name("ns1.example.com"),
        name("hostmaster.example.com"),
        Serial(1),
        Ttl::from_secs(3600),
        Ttl::from_secs(600),
        Ttl::from_secs(86400),
        Ttl::from_secs(60),
    )
}

/// A response with the given SOA owners in the answer and authority
/// sections.
fn soa_response(answer_owner: Option<&str>, authority_owner: Option<&str>) -> Vec<u8> {
    let msg = MessageBuilder::new_vec();
    let mut ans = msg.answer();
    if let Some(owner) = answer_owner {
        ans.push((name(owner), Class::IN, 3600, soa_data())).unwrap();
    }
    let mut auth = ans.authority();
    if let Some(owner) = authority_owner {
        auth.push((name(owner), Class::IN, 3600, soa_data())).unwrap();
    }
    auth.finish()
}

/// A response whose answer section holds NS records.
fn ns_response(records: &[(&str, &str)]) -> Vec<u8> {
    let msg = MessageBuilder::new_vec();
    let mut ans = msg.answer();
    for &(owner, nsdname) in records {
        ans.push((name(owner), Class::IN, 3600, Ns::new(name(nsdname)))).unwrap();
    }
    ans.finish()
}

fn query_for(qname: &str) -> Query {
    Query {
        qname: qname.as_bytes().to_vec(),
        qname_was_addr: false,
        qtype: None,
        server: None,
        port: None,
        ipv4: false,
        ipv6: false,
        tcp: false,
        udp: false,
        tls: false,
        tls_hostname: None,
        timeout_ms: None,
        retries: None,
        udp_payload_size: None,
        ad: false,
        cd: false,
        dnssec_ok: false,
        no_rd: false,
        force: false,
        verify: true,
        output: OutputOptions { format: OutputFormat::Dig },
    }
}

#[test]
fn apex_is_taken_from_the_authority_section() {
    let q = query_for("www.example.com");
    let response = soa_response(None, Some("example.com"));
    let apex = q.get_apex(&response).unwrap();
    assert_eq!(apex, b"example.com".to_vec());
}

#[test]
fn apex_is_the_query_name_when_its_soa_answers() {
    let q = query_for("example.com");
    let response = soa_response(Some("example.com"), None);
    let apex = q.get_apex(&response).unwrap();
    assert_eq!(apex, b"example.com".to_vec());
}

#[test]
fn apex_owner_comparison_ignores_case() {
    let q = query_for("Example.COM");
    let response = soa_response(Some("example.com"), None);
    let apex = q.get_apex(&response).unwrap();
    assert_eq!(apex, b"Example.COM".to_vec());
}

#[test]
fn strange_answer_soa_falls_through_to_the_authority() {
    let q = query_for("www.example.com");
    let response = soa_response(Some("other.test"), Some("example.com"));
    let apex = q.get_apex(&response).unwrap();
    assert_eq!(apex, b"example.com".to_vec());
}

#[test]
fn no_soa_anywhere_is_a_verification_error() {
    let q = query_for("www.example.com");
    let response = soa_response(None, None);
    let err = q.get_apex(&response).unwrap_err();
    assert_eq!(err.kind, ErrorKind::Verification);
    assert_eq!(err.message, "no SOA record");
}

#[test]
fn an_unparseable_response_is_a_protocol_error() {
    let q = query_for("www.example.com");
    let err = q.get_apex(&vec![1u8, 2, 3]).unwrap_err();
    assert_eq!(err.kind, ErrorKind::Protocol);
}

#[test]
fn ns_set_keeps_only_records_owned_by_the_apex() {
    let q = query_for("example.com");
    let response = ns_response(&[
        ("example.com", "ns1.example.com"),
        ("other.test", "ns.other.test"),
        ("EXAMPLE.com", "ns2.example.com"),
    ]);
    let apex = b"example.com".to_vec();
    let names = q.get_ns_set(&apex, &response).unwrap();
    // Record data is carried in presentation form, where a name is
    // written absolute, with its trailing dot.
    assert_eq!(
        names,
        vec![b"ns1.example.com.".to_vec(), b"ns2.example.com.".to_vec()]
    );
}

#[test]
fn ns_addrs_merge_into_a_deduplicated_registry() {
    let mut q = query_for("example.com");
    q.timeout_ms = Some(1234);
    q.retries = Some(7);
    let lists = vec![
        vec![IpAddr::V4(0x0a000001), IpAddr::V4(0x0a000002)],
        vec![IpAddr::V4(0x0a000002), IpAddr::V6(1)],
    ];
    let servers = q.get_ns_addrs(&lists);
    assert_eq!(servers.len(), 3);
    let ips: Vec<IpAddr> = servers.iter().map(|s| s.addr.ip).collect();
    assert!(ips.contains(&IpAddr::V4(0x0a000001)));
    assert!(ips.contains(&IpAddr::V4(0x0a000002)));
    assert!(ips.contains(&IpAddr::V6(1)));
    for s in &servers {
        assert_eq!(s.addr.port, 53);
        assert_eq!(s.transport, Transport::UdpTcp);
        assert_eq!(s.timeout_ms, 1234);
        assert_eq!(s.retries, 7);
        assert_eq!(s.udp_payload_size, 1232);
        assert!(s.tls_hostname.is_none());
    }
}
