//! The commands: their configuration, the checks that precede any
//! network work, and the verified parts of their logic.
//!
//! Each command's `execute` performs exactly the validation that must
//! pass before the embedding program starts any I/O; the outcome is
//! pinned by [`Command::spec_check`] and the commands' own `spec_check`
//! functions.  The query command also carries the authoritative
//! verification chain's pure steps: apex discovery, NS-set filtering,
//! and the merge of the looked-up nameserver addresses into a server
//! registry.

use vstd::prelude::*;

use crate::client::{Client, IpAddr, Server, SocketAddr, SystemServerEntry, Transport};
use crate::client::{servers_from_entries, spec_system_server, RequestMessage};
use crate::error::{Error, ErrorKind};
use crate::output::OutputOptions;
use crate::records::{
    copy_bytes, name_eq, parse_answer, parse_authority, answer_records, authority_records,
    record_views, spec_name_eq, RecordRepr, RecordView, CLASS_IN, RTYPE_AAAA, RTYPE_AXFR,
    RTYPE_IXFR, RTYPE_NS, RTYPE_PTR, RTYPE_SOA,
};

verus! {

//------------ ServerName ----------------------------------------------------

/// A server given on the command line: a host name to resolve, or an
/// address to use as it stands.
#[derive(Clone, Debug)]
pub enum ServerName {
    Name(Vec<u8>),
    Addr(IpAddr),
}

//------------ Small helpers -------------------------------------------------

/// The text of an optional hostname.
pub open spec fn hostname_view(h: Option<String>) -> Option<Seq<char>> {
    match h {
        Some(s) => Some(s@),
        None => None,
    }
}

/// Copies an optional hostname.
fn clone_hostname(h: &Option<String>) -> (r: Option<String>)
    ensures
        hostname_view(r) == hostname_view(*h),
{
    match h {
        Some(s) => Some(s.clone()),
        None => None,
    }
}

/// Whether an address passes the address-family restriction.
pub open spec fn spec_keep_addr(a: IpAddr, ipv4_only: bool, ipv6_only: bool) -> bool {
    !((a is V4 && ipv6_only) || (a is V6 && ipv4_only))
}

/// The addresses that pass the restriction, in order.
pub open spec fn spec_kept_addrs(addrs: Seq<IpAddr>, ipv4_only: bool, ipv6_only: bool) -> Seq<
    IpAddr,
>
    decreases addrs.len(),
{
    if addrs.len() == 0 {
        Seq::empty()
    } else {
        let rest = spec_kept_addrs(addrs.drop_last(), ipv4_only, ipv6_only);
        if spec_keep_addr(addrs.last(), ipv4_only, ipv6_only) {
            rest.push(addrs.last())
        } else {
            rest
        }
    }
}

/// Builds one server per kept address, all sharing the given
/// configuration.
fn build_servers(
    addrs: &Vec<IpAddr>,
    ipv4: bool,
    ipv6: bool,
    port: u16,
    transport: Transport,
    timeout_ms: u64,
    retries: u8,
    udp_payload_size: u16,
    tls_hostname: &Option<String>,
) -> (r: Vec<Server>)
    ensures
        r@.len() == spec_kept_addrs(addrs@, ipv4, ipv6).len(),
        forall|j: int|
            0 <= j < r@.len() ==> {
                let s = #[trigger] r@[j];
                &&& s.addr == (SocketAddr { ip: spec_kept_addrs(addrs@, ipv4, ipv6)[j], port })
                &&& s.transport == transport
                &&& s.timeout_ms == timeout_ms
                &&& s.retries == retries
                &&& s.udp_payload_size == udp_payload_size
                &&& hostname_view(s.tls_hostname) == hostname_view(*tls_hostname)
            },
{
    let mut r: Vec<Server> = Vec::new();
    let mut i: usize = 0;
    while i < addrs.len()
        invariant
            0 <= i <= addrs@.len(),
            r@.len() == spec_kept_addrs(addrs@.take(i as int), ipv4, ipv6).len(),
            forall|j: int|
                0 <= j < r@.len() ==> {
                    let s = #[trigger] r@[j];
                    &&& s.addr == (SocketAddr {
                        ip: spec_kept_addrs(addrs@.take(i as int), ipv4, ipv6)[j],
                        port,
                    })
                    &&& s.transport == transport
                    &&& s.timeout_ms == timeout_ms
                    &&& s.retries == retries
                    &&& s.udp_payload_size == udp_payload_size
                    &&& hostname_view(s.tls_hostname) == hostname_view(*tls_hostname)
                },
        decreases addrs@.len() - i,
    {
        let a = addrs[i];
        let keep = match a {
            IpAddr::V4(_) => !ipv6,
            IpAddr::V6(_) => !ipv4,
        };
        if keep {
            r.push(
                Server {
                    addr: SocketAddr { ip: a, port },
                    transport,
                    timeout_ms,
                    retries,
                    udp_payload_size,
                    tls_hostname: clone_hostname(tls_hostname),
                },
            );
        }
        i = i + 1;
        proof {
            assert(addrs@.take(i as int).drop_last() =~= addrs@.take(i - 1));
            assert(addrs@.take(i as int).last() == addrs@[i - 1]);
        }
    }
    proof {
        assert(addrs@.take(addrs@.len() as int) =~= addrs@);
    }
    r
}

//------------ Query ---------------------------------------------------------

/// The query command's configuration, as plain values.
#[derive(Clone, Debug)]
pub struct Query {
    /// The name the records of which are looked up, in presentation
    /// form.
    pub qname: Vec<u8>,
    /// Whether the name stands for an address (a reverse lookup).
    pub qname_was_addr: bool,
    /// The record type to look up; a default applies when unset.
    pub qtype: Option<u16>,
    /// The server to send the query to; the system servers when unset.
    pub server: Option<ServerName>,
    /// The port of the server to send the query to.
    pub port: Option<u16>,
    /// Use only IPv4 for communication.
    pub ipv4: bool,
    /// Use only IPv6 for communication.
    pub ipv6: bool,
    /// Use only TCP.
    pub tcp: bool,
    /// Use only UDP.
    pub udp: bool,
    /// Use TLS.
    pub tls: bool,
    /// The name of the server for SNI and certificate verification.
    pub tls_hostname: Option<String>,
    /// The timeout for a query, in milliseconds.
    pub timeout_ms: Option<u64>,
    /// The number of retries over UDP.
    pub retries: Option<u8>,
    /// The advertised UDP payload size.
    pub udp_payload_size: Option<u16>,
    /// Set the authentic-data flag in the request.
    pub ad: bool,
    /// Set the checking-disabled flag in the request.
    pub cd: bool,
    /// Set the DNSSEC OK flag in the request.
    pub dnssec_ok: bool,
    /// Leave the recursion-desired flag unset.
    pub no_rd: bool,
    /// Disable all sanity checks.
    pub force: bool,
    /// Verify the answer against an authoritative server.
    pub verify: bool,
    /// Output options.
    pub output: OutputOptions,
}

impl Query {
    /// The timeout for one attempt, in milliseconds.
    pub open spec fn spec_timeout(&self) -> u64 {
        match self.timeout_ms {
            Some(t) => t,
            None => 5000,
        }
    }

    /// The number of datagram retries.
    pub open spec fn spec_retries(&self) -> u8 {
        match self.retries {
            Some(n) => n,
            None => 2,
        }
    }

    /// The advertised UDP payload size.
    pub open spec fn spec_udp_payload_size(&self) -> u16 {
        match self.udp_payload_size {
            Some(n) => n,
            None => 1232,
        }
    }

    /// The transport the flags select.
    pub open spec fn spec_transport(&self) -> Transport {
        if self.udp {
            Transport::Udp
        } else if self.tls {
            Transport::Tls
        } else if self.tcp {
            Transport::Tcp
        } else {
            Transport::UdpTcp
        }
    }

    /// The record type queried: as given, or the default for the kind
    /// of name.
    pub open spec fn spec_qtype(&self) -> u16 {
        match self.qtype {
            Some(t) => t,
            None => if self.qname_was_addr {
                RTYPE_PTR
            } else {
                RTYPE_AAAA
            },
        }
    }

    /// The port servers are contacted on.
    pub open spec fn spec_port(&self) -> u16 {
        match self.port {
            Some(p) => p,
            None => if self.tls {
                853
            } else {
                53
            },
        }
    }

    pub fn timeout(&self) -> (r: u64)
        ensures
            r == self.spec_timeout(),
    {
        match self.timeout_ms {
            Some(t) => t,
            None => 5000,
        }
    }

    pub fn retries(&self) -> (r: u8)
        ensures
            r == self.spec_retries(),
    {
        match self.retries {
            Some(n) => n,
            None => 2,
        }
    }

    pub fn udp_payload_size(&self) -> (r: u16)
        ensures
            r == self.spec_udp_payload_size(),
    {
        match self.udp_payload_size {
            Some(n) => n,
            None => 1232,
        }
    }

    pub fn transport(&self) -> (r: Transport)
        ensures
            r == self.spec_transport(),
    {
        if self.udp {
            Transport::Udp
        } else if self.tls {
            Transport::Tls
        } else if self.tcp {
            Transport::Tcp
        } else {
            Transport::UdpTcp
        }
    }

    pub fn qtype(&self) -> (r: u16)
        ensures
            r == self.spec_qtype(),
    {
        match self.qtype {
            Some(t) => t,
            None => if self.qname_was_addr {
                RTYPE_PTR
            } else {
                RTYPE_AAAA
            },
        }
    }

    fn port_value(&self) -> (r: u16)
        ensures
            r == self.spec_port(),
    {
        match self.port {
            Some(p) => p,
            None => if self.tls {
                853
            } else {
                53
            },
        }
    }
}

/// # Validation before any I/O
impl Query {
    /// The first configuration fault, as its error message; none when
    /// the command may proceed.
    pub open spec fn spec_check(&self) -> Option<Seq<char>> {
        if !self.force && (self.spec_qtype() == RTYPE_AXFR || self.spec_qtype() == RTYPE_IXFR) {
            Some("AXFR and IXFR invoke a zone transfer; use the xfr command, or --force"@)
        } else if (self.server matches Some(ServerName::Addr(_))) && self.tls
            && self.tls_hostname is None {
            Some("--tls-hostname is required for TLS transport"@)
        } else if self.server is None && self.tls {
            Some("--server is required for TLS transport"@)
        } else {
            None
        }
    }

    /// Checks the configuration.  Every fault found here is a
    /// configuration error, raised before any network work.
    pub fn execute(&self) -> (r: Result<(), Error>)
        ensures
            match self.spec_check() {
                None => r is Ok,
                Some(m) => r matches Err(e) && e.kind == ErrorKind::Config && e.message@ == m,
            },
    {
        let qtype = self.qtype();
        if !self.force && (qtype == RTYPE_AXFR || qtype == RTYPE_IXFR) {
            return Err(
                Error::config("AXFR and IXFR invoke a zone transfer; use the xfr command, or --force"),
            );
        }
        let server_is_addr = match &self.server {
            Some(ServerName::Addr(_)) => true,
            _ => false,
        };
        if server_is_addr && self.tls && self.tls_hostname.is_none() {
            return Err(Error::config("--tls-hostname is required for TLS transport"));
        }
        if self.server.is_none() && self.tls {
            return Err(Error::config("--server is required for TLS transport"));
        }
        Ok(())
    }
}

/// # Resolving the server set
impl Query {
    /// The client for the addresses a provided server name resolved
    /// to, restricted to the allowed address families.
    pub fn host_server(&self, addrs: &Vec<IpAddr>) -> (r: Client)
        ensures
            r.spec_servers().len() == spec_kept_addrs(addrs@, self.ipv4, self.ipv6).len(),
            forall|j: int|
                0 <= j < r.spec_servers().len() ==> {
                    let s = #[trigger] r.spec_servers()[j];
                    &&& s.addr == (SocketAddr {
                        ip: spec_kept_addrs(addrs@, self.ipv4, self.ipv6)[j],
                        port: self.spec_port(),
                    })
                    &&& s.transport == self.spec_transport()
                    &&& s.timeout_ms == self.spec_timeout()
                    &&& s.retries == self.spec_retries()
                    &&& s.udp_payload_size == self.spec_udp_payload_size()
                    &&& hostname_view(s.tls_hostname) == hostname_view(self.tls_hostname)
                },
    {
        Client::with_servers(
            build_servers(
                addrs,
                self.ipv4,
                self.ipv6,
                self.port_value(),
                self.transport(),
                self.timeout(),
                self.retries(),
                self.udp_payload_size(),
                &self.tls_hostname,
            ),
        )
    }

    /// The client for a server given by address.
    pub fn addr_server(&self, addr: IpAddr) -> (r: Client)
        ensures
            r.spec_servers().len() == 1,
            ({
                let s = r.spec_servers()[0];
                &&& s.addr == (SocketAddr { ip: addr, port: self.spec_port() })
                &&& s.transport == self.spec_transport()
                &&& s.timeout_ms == self.spec_timeout()
                &&& s.retries == self.spec_retries()
                &&& s.udp_payload_size == self.spec_udp_payload_size()
                &&& hostname_view(s.tls_hostname) == hostname_view(self.tls_hostname)
            }),
    {
        let server = Server {
            addr: SocketAddr { ip: addr, port: self.port_value() },
            transport: self.transport(),
            timeout_ms: self.timeout(),
            retries: self.retries(),
            udp_payload_size: self.udp_payload_size(),
            tls_hostname: clone_hostname(&self.tls_hostname),
        };
        let mut servers: Vec<Server> = Vec::new();
        servers.push(server);
        Client::with_servers(servers)
    }

    /// The client built from the system configuration entries, with
    /// this command's transport on every server.
    pub fn system_server(&self, entries: &Vec<SystemServerEntry>, attempts: usize) -> (r: Client)
        ensures
            r.spec_servers() == entries@.map_values(
                |e: SystemServerEntry|
                    spec_system_server(e, attempts, Some(self.spec_transport())),
            ),
    {
        Client::with_servers(servers_from_entries(entries, attempts, Some(self.transport())))
    }
}

/// # Creating the request
impl Query {
    /// The request message this command dispatches.
    pub fn create_request(&self) -> (r: RequestMessage)
        ensures
            r.qname@ == self.qname@,
            r.qtype == self.spec_qtype(),
            r.rd == !self.no_rd,
            r.ad == self.ad,
            r.cd == self.cd,
            r.dnssec_ok == self.dnssec_ok,
    {
        RequestMessage {
            qname: copy_bytes(&self.qname),
            qtype: self.qtype(),
            rd: !self.no_rd,
            ad: self.ad,
            cd: self.cd,
            dnssec_ok: self.dnssec_ok,
        }
    }
}

//------------ Apex discovery ------------------------------------------------

/// The owner of the first IN SOA record of a section.
pub open spec fn first_soa_owner(recs: Seq<RecordView>) -> Option<Seq<u8>>
    decreases recs.len(),
{
    if recs.len() == 0 {
        None
    } else if recs[0].rtype == RTYPE_SOA && recs[0].class == CLASS_IN {
        Some(recs[0].owner)
    } else {
        first_soa_owner(recs.drop_first())
    }
}

/// Finds the owner of the first IN SOA record in a record list.
fn find_first_soa(recs: &Vec<RecordRepr>) -> (r: Option<Vec<u8>>)
    ensures
        match r {
            Some(o) => first_soa_owner(record_views(recs@)) == Some(o@),
            None => first_soa_owner(record_views(recs@)) is None,
        },
{
    let ghost rv = record_views(recs@);
    proof {
        assert(rv.skip(0) =~= rv);
    }
    let mut i: usize = 0;
    while i < recs.len()
        invariant
            0 <= i <= recs@.len(),
            rv == record_views(recs@),
            first_soa_owner(rv) == first_soa_owner(rv.skip(i as int)),
        decreases recs@.len() - i,
    {
        proof {
            assert(rv.skip(i as int)[0] == rv[i as int]);
            assert(rv[i as int] == recs@[i as int]@);
        }
        if recs[i].rtype == RTYPE_SOA && recs[i].class == CLASS_IN {
            return Some(copy_bytes(&recs[i].owner));
        }
        i = i + 1;
        proof {
            assert(rv.skip(i - 1).drop_first() =~= rv.skip(i as int));
        }
    }
    proof {
        assert(rv.skip(recs@.len() as int).len() == 0);
    }
    None
}

/// # The authoritative verification chain
impl Query {
    /// Determines the apex of the zone the requested records live in,
    /// from the response to a SOA query for the query name.
    ///
    /// When the answer section's first IN SOA record carries the query
    /// name itself, the apex is the query name.  Otherwise the
    /// authority section's first IN SOA record names the apex.  With
    /// neither, there is no SOA to go by.
    pub fn get_apex(&self, response: &Vec<u8>) -> (r: Result<Vec<u8>, Error>)
        ensures
            ({
                let ans = answer_records(response@);
                if ans is None {
                    r matches Err(e) && e.kind == ErrorKind::Protocol
                } else {
                    let first = first_soa_owner(ans->Some_0);
                    if first is Some && spec_name_eq(first->Some_0, self.qname@) {
                        r matches Ok(apex) && apex@ == self.qname@
                    } else {
                        let auth = authority_records(response@);
                        if auth is None {
                            r matches Err(e) && e.kind == ErrorKind::Protocol
                        } else {
                            let afirst = first_soa_owner(auth->Some_0);
                            if afirst is Some {
                                r matches Ok(apex) && apex@ == afirst->Some_0
                            } else {
                                r matches Err(e) && e.kind == ErrorKind::Verification
                                    && e.message@ == "no SOA record"@
                            }
                        }
                    }
                }
            }),
    {
        let ans = match parse_answer(response) {
            Some(v) => v,
            None => {
                return Err(Error::protocol("message parse error"));
            },
        };
        if let Some(owner) = find_first_soa(&ans) {
            if name_eq(&owner, &self.qname) {
                return Ok(copy_bytes(&self.qname));
            }
        }
        let auth = match parse_authority(response) {
            Some(v) => v,
            None => {
                return Err(Error::protocol("message parse error"));
            },
        };
        match find_first_soa(&auth) {
            Some(owner) => Ok(owner),
            None => Err(Error::verification("no SOA record")),
        }
    }
}

//------------ NS-set discovery ----------------------------------------------

/// The nameserver names of the IN NS records owned by the apex, in
/// record order.  Glue for other owners is discarded.
pub open spec fn ns_names_in(recs: Seq<RecordView>, apex: Seq<u8>) -> Seq<Seq<u8>>
    decreases recs.len(),
{
    if recs.len() == 0 {
        Seq::empty()
    } else {
        let rest = ns_names_in(recs.drop_last(), apex);
        let last = recs.last();
        if last.rtype == RTYPE_NS && last.class == CLASS_IN && spec_name_eq(last.owner, apex) {
            rest.push(last.data)
        } else {
            rest
        }
    }
}

impl Query {
    /// Extracts the NS set for the apex from the response to an NS
    /// query: the nameserver names of those IN NS records whose owner
    /// is exactly the apex.
    pub fn get_ns_set(&self, apex: &Vec<u8>, response: &Vec<u8>) -> (r: Result<Vec<Vec<u8>>, Error>)
        ensures
            ({
                let ans = answer_records(response@);
                match ans {
                    None => r matches Err(e) && e.kind == ErrorKind::Protocol,
                    Some(recs) => r matches Ok(names) && names@.map_values(|n: Vec<u8>| n@)
                        == ns_names_in(recs, apex@),
                }
            }),
    {
        let recs = match parse_answer(response) {
            Some(v) => v,
            None => {
                return Err(Error::protocol("message parse error"));
            },
        };
        let ghost rv = record_views(recs@);
        let mut names: Vec<Vec<u8>> = Vec::new();
        let mut i: usize = 0;
        while i < recs.len()
            invariant
                0 <= i <= recs@.len(),
                rv == record_views(recs@),
                names@.map_values(|n: Vec<u8>| n@) =~= ns_names_in(rv.take(i as int), apex@),
            decreases recs@.len() - i,
        {
            proof {
                assert(rv[i as int] == recs@[i as int]@);
            }
            let rec = &recs[i];
            if rec.rtype == RTYPE_NS && rec.class == CLASS_IN && name_eq(&rec.owner, apex) {
                names.push(copy_bytes(&rec.data));
            }
            i = i + 1;
            proof {
                assert(rv.take(i as int).drop_last() =~= rv.take(i - 1));
                assert(rv.take(i as int).last() == rv[i - 1]);
                assert(names@.map_values(|n: Vec<u8>| n@) =~= ns_names_in(
                    rv.take(i as int),
                    apex@,
                ));
            }
        }
        proof {
            assert(rv.take(recs@.len() as int) =~= rv);
        }
        Ok(names)
    }
}

//------------ Address discovery ---------------------------------------------

/// Whether an address occurs in the lookup results before position
/// `(i, k)`: in a whole earlier list, or earlier in list `i`.
pub open spec fn spec_addr_seen(lists: Seq<Vec<IpAddr>>, i: int, k: int, ip: IpAddr) -> bool {
    exists|i0: int, k0: int|
        #![trigger lists[i0]@[k0]]
        0 <= i0 < lists.len() && 0 <= k0 < lists[i0]@.len() && (i0 < i || (i0 == i && k0 < k))
            && lists[i0]@[k0] == ip
}

/// Whether a server list already carries this address.
fn contains_ip(servers: &Vec<Server>, a: IpAddr) -> (r: bool)
    ensures
        r == exists|j: int| 0 <= j < servers@.len() && (#[trigger] servers@[j]).addr.ip == a,
{
    let mut i: usize = 0;
    while i < servers.len()
        invariant
            0 <= i <= servers@.len(),
            forall|j: int| 0 <= j < i ==> (#[trigger] servers@[j]).addr.ip != a,
        decreases servers@.len() - i,
    {
        if servers[i].addr.ip == a {
            return true;
        }
        i = i + 1;
    }
    false
}

impl Query {
    /// Merges the per-nameserver address lookups into the server
    /// registry for the verification dispatch: one server per distinct
    /// address, on the standard DNS port, over UDP-then-TCP, with this
    /// command's timeout, retry count and payload size.
    ///
    /// The lookups are independent of one another; the merge treats
    /// their union as a set, so no order among them carries meaning.
    #[verifier::loop_isolation(false)]
    pub fn get_ns_addrs(&self, addr_lists: &Vec<Vec<IpAddr>>) -> (r: Vec<Server>)
        ensures
            forall|j1: int, j2: int|
                0 <= j1 < j2 < r@.len()
                    ==> (#[trigger] r@[j1]).addr.ip != (#[trigger] r@[j2]).addr.ip,
            forall|j: int|
                0 <= j < r@.len() ==> spec_addr_seen(
                    addr_lists@,
                    addr_lists@.len() as int,
                    0,
                    (#[trigger] r@[j]).addr.ip,
                ),
            forall|i0: int, k0: int|
                #![trigger addr_lists@[i0]@[k0]]
                0 <= i0 < addr_lists@.len() && 0 <= k0 < addr_lists@[i0]@.len() ==> exists|j: int|
                    0 <= j < r@.len() && (#[trigger] r@[j]).addr.ip == addr_lists@[i0]@[k0],
            forall|j: int|
                0 <= j < r@.len() ==> {
                    let s = #[trigger] r@[j];
                    &&& s.addr.port == 53
                    &&& s.transport == Transport::UdpTcp
                    &&& s.timeout_ms == self.spec_timeout()
                    &&& s.retries == self.spec_retries()
                    &&& s.udp_payload_size == self.spec_udp_payload_size()
                    &&& s.tls_hostname is None
                },
    {
        let timeout_ms = self.timeout();
        let retries = self.retries();
        let udp_payload_size = self.udp_payload_size();
        let mut r: Vec<Server> = Vec::new();
        let mut i: usize = 0;
        while i < addr_lists.len()
            invariant
                0 <= i <= addr_lists@.len(),
                forall|j1: int, j2: int|
                    0 <= j1 < j2 < r@.len()
                        ==> (#[trigger] r@[j1]).addr.ip != (#[trigger] r@[j2]).addr.ip,
                forall|j: int|
                    0 <= j < r@.len() ==> spec_addr_seen(
                        addr_lists@,
                        i as int,
                        0,
                        (#[trigger] r@[j]).addr.ip,
                    ),
                forall|i0: int, k0: int|
                    #![trigger addr_lists@[i0]@[k0]]
                    0 <= i0 < i && 0 <= k0 < addr_lists@[i0]@.len() ==> exists|j: int|
                        0 <= j < r@.len() && (#[trigger] r@[j]).addr.ip == addr_lists@[i0]@[k0],
                forall|j: int|
                    0 <= j < r@.len() ==> {
                        let s = #[trigger] r@[j];
                        &&& s.addr.port == 53
                        &&& s.transport == Transport::UdpTcp
                        &&& s.timeout_ms == self.spec_timeout()
                        &&& s.retries == self.spec_retries()
                        &&& s.udp_payload_size == self.spec_udp_payload_size()
                        &&& s.tls_hostname is None
                    },
            decreases addr_lists@.len() - i,
        {
            let mut k: usize = 0;
            while k < addr_lists[i].len()
                invariant
                    0 <= i < addr_lists@.len(),
                    0 <= k <= addr_lists@[i as int]@.len(),
                    forall|j1: int, j2: int|
                        0 <= j1 < j2 < r@.len()
                            ==> (#[trigger] r@[j1]).addr.ip != (#[trigger] r@[j2]).addr.ip,
                    forall|j: int|
                        0 <= j < r@.len() ==> spec_addr_seen(
                            addr_lists@,
                            i as int,
                            k as int,
                            (#[trigger] r@[j]).addr.ip,
                        ),
                    forall|i0: int, k0: int|
                        #![trigger addr_lists@[i0]@[k0]]
                        0 <= i0 < addr_lists@.len() && 0 <= k0 < addr_lists@[i0]@.len() && (i0 < i
                            || (i0 == i && k0 < k)) ==> exists|j: int|
                            0 <= j < r@.len() && (#[trigger] r@[j]).addr.ip == addr_lists@[i0]@[k0],
                    forall|j: int|
                        0 <= j < r@.len() ==> {
                            let s = #[trigger] r@[j];
                            &&& s.addr.port == 53
                            &&& s.transport == Transport::UdpTcp
                            &&& s.timeout_ms == self.spec_timeout()
                            &&& s.retries == self.spec_retries()
                            &&& s.udp_payload_size == self.spec_udp_payload_size()
                            &&& s.tls_hostname is None
                        },
                decreases addr_lists@[i as int]@.len() - k,
            {
                let ghost prevr = r@;
                let a = addr_lists[i][k];
                let present = contains_ip(&r, a);
                if !present {
                    r.push(
                        Server {
                            addr: SocketAddr { ip: a, port: 53 },
                            transport: Transport::UdpTcp,
                            timeout_ms,
                            retries,
                            udp_payload_size,
                            tls_hostname: None,
                        },
                    );
                }
                k = k + 1;
                proof {
                    assert forall|i0: int, k0: int|
                        #![trigger addr_lists@[i0]@[k0]]
                        0 <= i0 < addr_lists@.len() && 0 <= k0 < addr_lists@[i0]@.len() && (i0 < i
                            || (i0 == i && k0 < k)) implies exists|j: int|
                        0 <= j < r@.len() && (#[trigger] r@[j]).addr.ip == addr_lists@[i0]@[k0] by {
                        if i0 == i && k0 == k - 1 {
                            if present {
                                let j = choose|j: int|
                                    0 <= j < prevr.len() && (#[trigger] prevr[j]).addr.ip == a;
                                assert(r@[j].addr.ip == addr_lists@[i0]@[k0]);
                            } else {
                                assert(r@[r@.len() - 1].addr.ip == addr_lists@[i0]@[k0]);
                            }
                        } else {
                            let j = choose|j: int|
                                0 <= j < prevr.len() && (#[trigger] prevr[j]).addr.ip
                                    == addr_lists@[i0]@[k0];
                            assert(r@[j].addr.ip == addr_lists@[i0]@[k0]);
                        }
                    }
                }
            }
            i = i + 1;
        }
        r
    }
}

//------------ Lookup --------------------------------------------------------

/// The lookup command's configuration: the hosts or addresses to look
/// up.
#[derive(Clone, Debug)]
pub struct Lookup {
    pub names: Vec<ServerName>,
}

impl Lookup {
    /// The lookup command has no configuration to fault.
    pub open spec fn spec_check(&self) -> Option<Seq<char>> {
        None
    }

    /// Checks the configuration; a lookup always may proceed.
    pub fn execute(&self) -> (r: Result<(), Error>)
        ensures
            r is Ok,
    {
        Ok(())
    }
}

//------------ Xfr -----------------------------------------------------------

/// The zone-transfer command's configuration, as plain values.
#[derive(Clone, Debug)]
pub struct Xfr {
    /// The zone to transfer, in presentation form.
    pub qname: Vec<u8>,
    /// The serial for an incremental transfer; a full transfer when
    /// unset.
    pub ixfr: Option<u32>,
    /// The server to send the query to; the system servers when unset.
    pub server: Option<ServerName>,
    /// The port of the server to send the query to.
    pub port: Option<u16>,
    /// Use only IPv4 for communication.
    pub ipv4: bool,
    /// Use only IPv6 for communication.
    pub ipv6: bool,
    /// Try UDP first with fallback to TCP; only permitted with an
    /// incremental transfer.
    pub udp: bool,
    /// Use TLS.
    pub tls: bool,
    /// The name of the server for SNI and certificate verification.
    pub tls_hostname: Option<String>,
    /// The timeout for a query, in milliseconds.
    pub timeout_ms: Option<u64>,
    /// Disable all sanity checks.
    pub force: bool,
    /// Output options.
    pub output: OutputOptions,
}

impl Xfr {
    /// The timeout for one attempt, in milliseconds.
    pub open spec fn spec_timeout(&self) -> u64 {
        match self.timeout_ms {
            Some(t) => t,
            None => 5000,
        }
    }

    /// The transport the flags select.
    pub open spec fn spec_transport(&self) -> Transport {
        if self.tls {
            Transport::Tls
        } else if self.udp {
            Transport::UdpTcp
        } else {
            Transport::Tcp
        }
    }

    /// The record type of the transfer query.
    pub open spec fn spec_qtype(&self) -> u16 {
        if self.ixfr is Some {
            RTYPE_IXFR
        } else {
            RTYPE_AXFR
        }
    }

    /// The port servers are contacted on.
    pub open spec fn spec_port(&self) -> u16 {
        match self.port {
            Some(p) => p,
            None => if self.tls {
                853
            } else {
                53
            },
        }
    }

    pub fn timeout(&self) -> (r: u64)
        ensures
            r == self.spec_timeout(),
    {
        match self.timeout_ms {
            Some(t) => t,
            None => 5000,
        }
    }

    pub fn retries(&self) -> (r: u8)
        ensures
            r == 2,
    {
        2
    }

    pub fn udp_payload_size(&self) -> (r: u16)
        ensures
            r == 1232,
    {
        1232
    }

    pub fn transport(&self) -> (r: Transport)
        ensures
            r == self.spec_transport(),
    {
        if self.tls {
            Transport::Tls
        } else if self.udp {
            Transport::UdpTcp
        } else {
            Transport::Tcp
        }
    }

    pub fn qtype(&self) -> (r: u16)
        ensures
            r == self.spec_qtype(),
    {
        if self.ixfr.is_some() {
            RTYPE_IXFR
        } else {
            RTYPE_AXFR
        }
    }

    fn port_value(&self) -> (r: u16)
        ensures
            r == self.spec_port(),
    {
        match self.port {
            Some(p) => p,
            None => if self.tls {
                853
            } else {
                53
            },
        }
    }

    /// The first configuration fault, as its error message; none when
    /// the command may proceed.  A full transfer is never carried over
    /// UDP.
    pub open spec fn spec_check(&self) -> Option<Seq<char>> {
        if self.udp && self.ixfr is None {
            Some("UDP is only permitted with IXFR"@)
        } else if (self.server matches Some(ServerName::Addr(_))) && self.tls
            && self.tls_hostname is None {
            Some("--tls-hostname is required for TLS transport"@)
        } else if self.server is None && self.tls {
            Some("--server is required for TLS transport"@)
        } else {
            None
        }
    }

    /// Checks the configuration.  Every fault found here is a
    /// configuration error, raised before any network work.
    pub fn execute(&self) -> (r: Result<(), Error>)
        ensures
            match self.spec_check() {
                None => r is Ok,
                Some(m) => r matches Err(e) && e.kind == ErrorKind::Config && e.message@ == m,
            },
    {
        if self.udp && self.ixfr.is_none() {
            return Err(Error::config("UDP is only permitted with IXFR"));
        }
        let server_is_addr = match &self.server {
            Some(ServerName::Addr(_)) => true,
            _ => false,
        };
        if server_is_addr && self.tls && self.tls_hostname.is_none() {
            return Err(Error::config("--tls-hostname is required for TLS transport"));
        }
        if self.server.is_none() && self.tls {
            return Err(Error::config("--server is required for TLS transport"));
        }
        Ok(())
    }

    /// The client for the addresses a provided server name resolved
    /// to, restricted to the allowed address families.
    pub fn host_server(&self, addrs: &Vec<IpAddr>) -> (r: Client)
        ensures
            r.spec_servers().len() == spec_kept_addrs(addrs@, self.ipv4, self.ipv6).len(),
            forall|j: int|
                0 <= j < r.spec_servers().len() ==> {
                    let s = #[trigger] r.spec_servers()[j];
                    &&& s.addr == (SocketAddr {
                        ip: spec_kept_addrs(addrs@, self.ipv4, self.ipv6)[j],
                        port: self.spec_port(),
                    })
                    &&& s.transport == self.spec_transport()
                    &&& s.timeout_ms == self.spec_timeout()
                    &&& s.retries == 2
                    &&& s.udp_payload_size == 1232
                    &&& hostname_view(s.tls_hostname) == hostname_view(self.tls_hostname)
                },
    {
        Client::with_servers(
            build_servers(
                addrs,
                self.ipv4,
                self.ipv6,
                self.port_value(),
                self.transport(),
                self.timeout(),
                2,
                1232,
                &self.tls_hostname,
            ),
        )
    }

    /// The client for a server given by address.
    pub fn addr_server(&self, addr: IpAddr) -> (r: Client)
        ensures
            r.spec_servers().len() == 1,
            ({
                let s = r.spec_servers()[0];
                &&& s.addr == (SocketAddr { ip: addr, port: self.spec_port() })
                &&& s.transport == self.spec_transport()
                &&& s.timeout_ms == self.spec_timeout()
                &&& s.retries == 2
                &&& s.udp_payload_size == 1232
                &&& hostname_view(s.tls_hostname) == hostname_view(self.tls_hostname)
            }),
    {
        let server = Server {
            addr: SocketAddr { ip: addr, port: self.port_value() },
            transport: self.transport(),
            timeout_ms: self.timeout(),
            retries: 2,
            udp_payload_size: 1232,
            tls_hostname: clone_hostname(&self.tls_hostname),
        };
        let mut servers: Vec<Server> = Vec::new();
        servers.push(server);
        Client::with_servers(servers)
    }

    /// The client built from the system configuration entries, with
    /// this command's transport on every server.
    pub fn system_server(&self, entries: &Vec<SystemServerEntry>, attempts: usize) -> (r: Client)
        ensures
            r.spec_servers() == entries@.map_values(
                |e: SystemServerEntry|
                    spec_system_server(e, attempts, Some(self.spec_transport())),
            ),
    {
        Client::with_servers(servers_from_entries(entries, attempts, Some(self.transport())))
    }
}

//------------ Help ----------------------------------------------------------

/// The help command's configuration: the command to show the manual
/// page for.
#[derive(Clone, Debug)]
pub struct Help {
    pub command: Option<String>,
}

impl Help {
    /// The only topics with a page are the program itself and the
    /// query command.
    pub open spec fn spec_check(&self) -> Option<Seq<char>> {
        match self.command {
            None => None,
            Some(c) => if c@ == "query"@ {
                None
            } else {
                Some("unknown help topic"@)
            },
        }
    }

    /// Checks that the requested topic exists.
    pub fn execute(&self) -> (r: Result<(), Error>)
        ensures
            match self.spec_check() {
                None => r is Ok,
                Some(m) => r matches Err(e) && e.kind == ErrorKind::Config && e.message@ == m,
            },
    {
        match &self.command {
            None => Ok(()),
            Some(c) => {
                let topic = String::from_str("query");
                if c.eq(&topic) {
                    Ok(())
                } else {
                    Err(Error::config("unknown help topic"))
                }
            },
        }
    }
}

//------------ Command -------------------------------------------------------

/// The commands of the program.
#[derive(Clone, Debug)]
pub enum Command {
    /// Query the DNS.
    Query(Query),
    /// Lookup a host or address.
    Lookup(Lookup),
    /// Transfer a zone.
    Xfr(Xfr),
    /// Show the manual pages.
    Help(Help),
}

impl Command {
    /// The first configuration fault of the selected command.
    pub open spec fn spec_check(&self) -> Option<Seq<char>> {
        match self {
            Command::Query(q) => q.spec_check(),
            Command::Lookup(l) => l.spec_check(),
            Command::Xfr(x) => x.spec_check(),
            Command::Help(h) => h.spec_check(),
        }
    }

    /// Checks the selected command's configuration.
    pub fn execute(&self) -> (r: Result<(), Error>)
        ensures
            match self.spec_check() {
                None => r is Ok,
                Some(m) => r matches Err(e) && e.kind == ErrorKind::Config && e.message@ == m,
            },
    {
        match self {
            Command::Query(q) => q.execute(),
            Command::Lookup(l) => l.execute(),
            Command::Xfr(x) => x.execute(),
            Command::Help(h) => h.execute(),
        }
    }
}

} // verus!
