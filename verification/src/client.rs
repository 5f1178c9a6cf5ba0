//! The DNS client: servers, answers, and the dispatch state machine.
//!
//! Network exchanges are suspension points that the embedding program
//! performs.  The dispatcher here is therefore a state machine: it hands
//! out a [`Directive`] saying which exchange to make against which
//! server, and [`Client::request_step`] folds the outcome of that
//! exchange back in, either finishing the request or moving on —
//! to a TCP retry after a truncated UDP response, or to the next server
//! after a failure.

use vstd::prelude::*;

use crate::error::{Error, ErrorKind};
use crate::records::spec_truncated;

verus! {

//------------ Transport -----------------------------------------------------

/// How a server is to be contacted.
#[derive(Clone, Copy, Debug, PartialEq, Eq, Structural)]
pub enum Transport {
    /// A single datagram exchange.
    Udp,
    /// A datagram exchange first, retried over TCP when truncated.
    UdpTcp,
    /// A stream connection.
    Tcp,
    /// A stream connection under TLS.
    Tls,
}

//------------ Protocol ------------------------------------------------------

/// The protocol an exchange actually used.
#[derive(Clone, Copy, Debug, PartialEq, Eq, Structural)]
pub enum Protocol {
    Udp,
    Tcp,
    Tls,
}

impl Protocol {
    /// The protocol's display name.
    pub fn mnemonic(&self) -> (r: &'static str)
        ensures
            match self {
                Protocol::Udp => r@ == "UDP"@,
                Protocol::Tcp => r@ == "TCP"@,
                Protocol::Tls => r@ == "TLS"@,
            },
    {
        match self {
            Protocol::Udp => "UDP",
            Protocol::Tcp => "TCP",
            Protocol::Tls => "TLS",
        }
    }
}

//------------ Addresses -----------------------------------------------------

/// An IP address as a plain value: the address bits.
#[derive(Clone, Copy, Debug, PartialEq, Eq, Structural)]
pub enum IpAddr {
    V4(u32),
    V6(u128),
}

/// An address and port to contact a server on.
#[derive(Clone, Copy, Debug, PartialEq, Eq, Structural)]
pub struct SocketAddr {
    pub ip: IpAddr,
    pub port: u16,
}

//------------ Server --------------------------------------------------------

/// One candidate server: where and how to reach it.
#[derive(Clone, Debug)]
pub struct Server {
    pub addr: SocketAddr,
    pub transport: Transport,
    /// The read or response timeout for one attempt, in milliseconds.
    pub timeout_ms: u64,
    /// How often the datagram transport retransmits.
    pub retries: u8,
    /// The advertised UDP payload size.
    pub udp_payload_size: u16,
    /// The name used for SNI and certificate validation over TLS.
    pub tls_hostname: Option<String>,
}

impl Server {
    /// A TLS server can only be attempted with a configured hostname.
    pub open spec fn tls_ready(&self) -> bool {
        self.transport == Transport::Tls ==> self.tls_hostname is Some
    }
}

//------------ SystemServerEntry ---------------------------------------------

/// One entry of the system resolver configuration, as the loading
/// collaborator hands it over.
#[derive(Clone, Copy, Debug)]
pub struct SystemServerEntry {
    pub addr: SocketAddr,
    pub transport: Transport,
    pub timeout_ms: u64,
    pub udp_payload_size: u16,
}

/// The retry count taken from a configured attempt count: kept when it
/// fits an octet, two otherwise.
pub open spec fn spec_attempts_to_retries(attempts: usize) -> u8 {
    if attempts <= 255 {
        attempts as u8
    } else {
        2
    }
}

/// The server built from one system configuration entry.  A transport
/// given by the caller overrides the entry's; the hostname is left
/// unset, as the system list never carries one.
pub open spec fn spec_system_server(
    e: SystemServerEntry,
    attempts: usize,
    transport: Option<Transport>,
) -> Server {
    Server {
        addr: e.addr,
        transport: match transport {
            Some(t) => t,
            None => e.transport,
        },
        timeout_ms: e.timeout_ms,
        retries: spec_attempts_to_retries(attempts),
        udp_payload_size: e.udp_payload_size,
        tls_hostname: None,
    }
}

/// Builds the server list from the system configuration entries.
pub fn servers_from_entries(
    entries: &Vec<SystemServerEntry>,
    attempts: usize,
    transport: Option<Transport>,
) -> (r: Vec<Server>)
    ensures
        r@ == entries@.map_values(|e: SystemServerEntry| spec_system_server(e, attempts, transport)),
{
    let retries: u8 = if attempts <= 255 {
        attempts as u8
    } else {
        2
    };
    let mut r: Vec<Server> = Vec::new();
    let mut i: usize = 0;
    while i < entries.len()
        invariant
            0 <= i <= entries.len(),
            retries == spec_attempts_to_retries(attempts),
            r@ =~= entries@.take(i as int).map_values(
                |e: SystemServerEntry| spec_system_server(e, attempts, transport),
            ),
        decreases entries.len() - i,
    {
        let e = entries[i];
        r.push(Server {
            addr: e.addr,
            transport: match transport {
                Some(t) => t,
                None => e.transport,
            },
            timeout_ms: e.timeout_ms,
            retries,
            udp_payload_size: e.udp_payload_size,
            tls_hostname: None,
        });
        i = i + 1;
        proof {
            assert(entries@.take(i as int).drop_last() =~= entries@.take(i - 1));
            assert(r@ =~= entries@.take(i as int).map_values(
                |e: SystemServerEntry| spec_system_server(e, attempts, transport),
            ));
        }
    }
    proof {
        assert(entries@.take(entries@.len() as int) =~= entries@);
    }
    r
}

//------------ Stats ---------------------------------------------------------

/// Timing and metadata of one attempt.
#[derive(Clone, Copy, Debug)]
pub struct Stats {
    /// When the attempt started, in milliseconds since the Unix epoch.
    pub start_ms: i64,
    /// How long the attempt took; zero until finalized.
    pub duration_ms: i64,
    /// The server the attempt went to.
    pub server_addr: SocketAddr,
    /// The protocol the attempt used.
    pub server_proto: Protocol,
}

/// Relies on chrono's local clock for the current time.  The reading
/// depends on the machine and the moment, so nothing is promised of it.
#[verifier::external_body]
fn now_unix_millis() -> i64 {
    chrono::Local::now().timestamp_millis()
}

impl Stats {
    /// Starts the clock for one attempt.
    pub fn new(server_addr: SocketAddr, server_proto: Protocol) -> (r: Stats)
        ensures
            r.server_addr == server_addr,
            r.server_proto == server_proto,
            r.duration_ms == 0,
    {
        Stats { start_ms: now_unix_millis(), duration_ms: 0, server_addr, server_proto }
    }

    /// Stops the clock.  The duration is never negative, whatever the
    /// wall clock did in between.
    pub fn finalize(&mut self)
        ensures
            final(self).start_ms == old(self).start_ms,
            final(self).server_addr == old(self).server_addr,
            final(self).server_proto == old(self).server_proto,
            final(self).duration_ms >= 0,
    {
        let now = now_unix_millis();
        let d: i128 = now as i128 - self.start_ms as i128;
        self.duration_ms = if d < 0 {
            0
        } else if d > i64::MAX as i128 {
            i64::MAX
        } else {
            d as i64
        };
    }
}

//------------ Answer --------------------------------------------------------

/// A received response: its bytes and the stats of the attempt that
/// produced it.
#[derive(Debug)]
pub struct Answer {
    message: Vec<u8>,
    stats: Stats,
}

impl Answer {
    /// The message bytes.
    pub closed spec fn spec_message(&self) -> Seq<u8> {
        self.message@
    }

    /// The attempt's stats.
    pub closed spec fn spec_stats(&self) -> Stats {
        self.stats
    }

    pub fn new(message: Vec<u8>, stats: Stats) -> (r: Answer)
        ensures
            r.spec_message() == message@,
            r.spec_stats() == stats,
    {
        Answer { message, stats }
    }

    pub fn stats(&self) -> (r: Stats)
        ensures
            r == self.spec_stats(),
    {
        self.stats
    }

    pub fn message(&self) -> (r: &Vec<u8>)
        ensures
            r@ == self.spec_message(),
    {
        &self.message
    }

    /// Whether the response's truncation flag is set.
    pub fn is_truncated(&self) -> (r: bool)
        ensures
            r == spec_truncated(self.spec_message()),
    {
        crate::records::is_truncated(&self.message)
    }
}

//------------ Client --------------------------------------------------------

/// The ordered, immutable list of candidate servers.
#[derive(Clone, Debug)]
pub struct Client {
    servers: Vec<Server>,
}

impl Client {
    pub closed spec fn spec_servers(&self) -> Seq<Server> {
        self.servers@
    }

    /// Creates a client for the given servers.
    pub fn with_servers(servers: Vec<Server>) -> (r: Client)
        ensures
            r.spec_servers() == servers@,
    {
        Client { servers }
    }

    /// Creates a client from the system resolver configuration, handed
    /// over as plain entries by the configuration-loading collaborator.
    pub fn system(entries: &Vec<SystemServerEntry>, attempts: usize) -> (r: Client)
        ensures
            r.spec_servers() == entries@.map_values(
                |e: SystemServerEntry| spec_system_server(e, attempts, None),
            ),
    {
        Client { servers: servers_from_entries(entries, attempts, None) }
    }

    /// The candidate servers, in dispatch order.
    pub fn servers(&self) -> (r: &Vec<Server>)
        ensures
            r@ == self.spec_servers(),
    {
        &self.servers
    }
}

//------------ Directives ----------------------------------------------------

/// What the dispatcher asks the embedding program to do next.
#[derive(Debug)]
pub enum Directive {
    /// Perform one datagram exchange with the indexed server.
    ExchangeUdp { index: usize },
    /// Perform one stream exchange with the indexed server.
    ExchangeTcp { index: usize },
    /// Perform one stream exchange under TLS with the indexed server.
    ExchangeTls { index: usize },
    /// Stop before any network work: the configuration is at fault.
    FailConfig { error: Error },
}

/// The shape of the directive for one server, at the spec level.
#[derive(Clone, Copy, Debug, PartialEq, Eq, Structural)]
pub enum DirectiveKind {
    Udp,
    Tcp,
    Tls,
    MissingTlsHostname,
}

/// Which exchange the dispatcher asks for when it stands at server `s`:
/// a TCP retry while one is pending; otherwise whatever the server's
/// transport begins with.  A TLS server without a hostname cannot be
/// attempted at all.
pub open spec fn spec_directive(s: Server, retrying_tcp: bool) -> DirectiveKind {
    if retrying_tcp {
        DirectiveKind::Tcp
    } else {
        match s.transport {
            Transport::Udp => DirectiveKind::Udp,
            Transport::UdpTcp => DirectiveKind::Udp,
            Transport::Tcp => DirectiveKind::Tcp,
            Transport::Tls => if s.tls_hostname is Some {
                DirectiveKind::Tls
            } else {
                DirectiveKind::MissingTlsHostname
            },
        }
    }
}

//------------ DispatchState -------------------------------------------------

/// Where a request stands: which server is being attempted, and whether
/// a TCP retry after truncation is pending.
#[derive(Clone, Copy, Debug)]
pub struct DispatchState {
    index: usize,
    retrying_tcp: bool,
}

impl DispatchState {
    pub closed spec fn spec_index(&self) -> usize {
        self.index
    }

    pub closed spec fn spec_retrying(&self) -> bool {
        self.retrying_tcp
    }

    /// The state points at a server, and a pending TCP retry only ever
    /// belongs to a UDP-then-TCP server.
    pub open spec fn wf(&self, c: &Client) -> bool {
        self.spec_index() < c.spec_servers().len() && (self.spec_retrying()
            ==> c.spec_servers()[self.spec_index() as int].transport == Transport::UdpTcp)
    }
}

/// One step of the dispatcher: from the server index, the pending-retry
/// flag and the outcome of the exchange just made, to the next index,
/// the next flag, and the finished result if there is one.
///
/// A success is delivered at once — unless it is a truncated response
/// to the datagram half of a UDP-then-TCP attempt, which schedules the
/// TCP retry instead and discards the truncated answer.  A failure at
/// the last server is surfaced as the request's failure; a failure
/// earlier moves on to the next server.
pub open spec fn spec_step(
    servers: Seq<Server>,
    index: int,
    retrying_tcp: bool,
    outcome: Result<Answer, Error>,
) -> (int, bool, Option<Result<Answer, Error>>) {
    let s = servers[index];
    match outcome {
        Ok(a) => {
            if !retrying_tcp && s.transport == Transport::UdpTcp && spec_truncated(
                a.spec_message(),
            ) {
                (index, true, None)
            } else {
                (index, retrying_tcp, Some(Ok(a)))
            }
        },
        Err(e) => {
            if index + 1 == servers.len() {
                (index, retrying_tcp, Some(Err(e)))
            } else {
                (index + 1, false, None)
            }
        },
    }
}

/// How a whole request run ends.
pub enum RunOutcome {
    /// A server's answer was delivered.
    Delivered(Answer),
    /// Every remaining server failed; this is the last server's error.
    Failed(Error),
    /// A TLS server without a hostname was reached: a configuration
    /// error, raised before connecting.
    FailedConfig,
    /// The event sequence ended before the run did.
    Incomplete,
    /// The state did not point at a server.
    Stuck,
}

/// The dispatcher folded over a sequence of exchange outcomes.
pub open spec fn spec_run(
    servers: Seq<Server>,
    index: int,
    retrying_tcp: bool,
    events: Seq<Result<Answer, Error>>,
) -> RunOutcome
    decreases events.len(),
{
    if !(0 <= index < servers.len()) {
        RunOutcome::Stuck
    } else if spec_directive(servers[index], retrying_tcp) == DirectiveKind::MissingTlsHostname {
        RunOutcome::FailedConfig
    } else if events.len() == 0 {
        RunOutcome::Incomplete
    } else {
        let t = spec_step(servers, index, retrying_tcp, events[0]);
        match t.2 {
            Some(res) => match res {
                Ok(a) => RunOutcome::Delivered(a),
                Err(e) => RunOutcome::Failed(e),
            },
            None => spec_run(servers, t.0, t.1, events.drop_first()),
        }
    }
}

//------------ The request machine -------------------------------------------

impl Client {
    /// Starts a request.  An empty server list is a configuration
    /// error, never attempted.
    pub fn request_begin(&self) -> (r: Result<DispatchState, Error>)
        ensures
            self.spec_servers().len() == 0 ==> (r matches Err(e) && e.kind == ErrorKind::Config),
            self.spec_servers().len() > 0 ==> (r matches Ok(st) && st.spec_index() == 0
                && !st.spec_retrying() && st.wf(self)),
    {
        if self.servers.len() == 0 {
            Err(Error::config("no servers to query"))
        } else {
            Ok(DispatchState { index: 0, retrying_tcp: false })
        }
    }

    /// What to do now: the exchange to perform, or the configuration
    /// error that ends the request before any network work.
    pub fn request_directive(&self, st: &DispatchState) -> (d: Directive)
        requires
            st.wf(self),
        ensures
            ({
                let i = st.spec_index();
                match spec_directive(self.spec_servers()[i as int], st.spec_retrying()) {
                    DirectiveKind::Udp => d == (Directive::ExchangeUdp { index: i }),
                    DirectiveKind::Tcp => d == (Directive::ExchangeTcp { index: i }),
                    DirectiveKind::Tls => d == (Directive::ExchangeTls { index: i }),
                    DirectiveKind::MissingTlsHostname => d matches Directive::FailConfig { error }
                        && error.kind == ErrorKind::Config,
                }
            }),
    {
        let index = st.index;
        if st.retrying_tcp {
            return Directive::ExchangeTcp { index };
        }
        let s = &self.servers[index];
        match s.transport {
            Transport::Udp => Directive::ExchangeUdp { index },
            Transport::UdpTcp => Directive::ExchangeUdp { index },
            Transport::Tcp => Directive::ExchangeTcp { index },
            Transport::Tls => {
                if s.tls_hostname.is_some() {
                    Directive::ExchangeTls { index }
                } else {
                    Directive::FailConfig {
                        error: Error::config("tls-hostname is required for TLS transport"),
                    }
                }
            },
        }
    }

    /// Folds the outcome of the directed exchange back in.  Returns the
    /// finished result, or `None` when another exchange is needed.
    pub fn request_step(&self, st: &mut DispatchState, outcome: Result<Answer, Error>) -> (r:
        Option<Result<Answer, Error>>)
        requires
            old(st).wf(self),
        ensures
            ({
                let t = spec_step(
                    self.spec_servers(),
                    old(st).spec_index() as int,
                    old(st).spec_retrying(),
                    outcome,
                );
                final(st).spec_index() == t.0 && final(st).spec_retrying() == t.1 && r == t.2
            }),
            r is None ==> final(st).wf(self),
    {
        match outcome {
            Ok(a) => {
                let s = &self.servers[st.index];
                if !st.retrying_tcp && s.transport == Transport::UdpTcp && a.is_truncated() {
                    st.retrying_tcp = true;
                    None
                } else {
                    Some(Ok(a))
                }
            },
            Err(e) => {
                let n = self.servers.len();
                assert(st.index < n);
                if st.index + 1 == n {
                    Some(Err(e))
                } else {
                    st.index = st.index + 1;
                    st.retrying_tcp = false;
                    None
                }
            },
        }
    }
}

//------------ The multi-response machine ------------------------------------

/// Where a multi-response request stands.
#[derive(Clone, Copy, Debug)]
pub struct MultiDispatchState {
    index: usize,
}

impl MultiDispatchState {
    pub closed spec fn spec_index(&self) -> usize {
        self.index
    }

    pub open spec fn wf(&self, c: &Client) -> bool {
        self.spec_index() < c.spec_servers().len()
    }
}

/// What the dispatcher asks for next on a multi-response request.
#[derive(Debug)]
pub enum MultiDirective {
    /// Open a stream connection to the indexed server and send the
    /// request, keeping the connection for further responses.
    ExchangeTcpMulti { index: usize },
    /// As above, under TLS.
    ExchangeTlsMulti { index: usize },
    /// Stop before any network work: the configuration is at fault.
    FailConfig { error: Error },
}

/// The spec-level shape of a multi-response directive.
#[derive(Clone, Copy, Debug, PartialEq, Eq, Structural)]
pub enum MultiDirectiveKind {
    Tcp,
    Tls,
    /// The server's transport cannot carry a response stream.
    NotStream,
    MissingTlsHostname,
}

/// A multi-response request is valid only for stream transports;
/// reaching a UDP or UDP-then-TCP server is a configuration error,
/// raised before any exchange.
pub open spec fn spec_multi_directive(s: Server) -> MultiDirectiveKind {
    match s.transport {
        Transport::Udp => MultiDirectiveKind::NotStream,
        Transport::UdpTcp => MultiDirectiveKind::NotStream,
        Transport::Tcp => MultiDirectiveKind::Tcp,
        Transport::Tls => if s.tls_hostname is Some {
            MultiDirectiveKind::Tls
        } else {
            MultiDirectiveKind::MissingTlsHostname
        },
    }
}

/// One step of the multi-response dispatcher.
pub open spec fn spec_multi_step(
    servers: Seq<Server>,
    index: int,
    outcome: Result<(), Error>,
) -> (int, Option<Result<(), Error>>) {
    match outcome {
        Ok(u) => (index, Some(Ok(u))),
        Err(e) => {
            if index + 1 == servers.len() {
                (index, Some(Err(e)))
            } else {
                (index + 1, None)
            }
        },
    }
}

/// How a whole multi-response run ends.
pub enum MultiRunOutcome {
    /// A stream was opened; the caller now pulls responses from it.
    Delivered,
    /// Every remaining server failed; this is the last server's error.
    Failed(Error),
    /// A server that cannot carry the request was reached: a
    /// configuration error, raised before any exchange with it.
    FailedConfig,
    /// The event sequence ended before the run did.
    Incomplete,
    /// The state did not point at a server.
    Stuck,
}

/// The multi-response dispatcher folded over exchange outcomes.
pub open spec fn spec_multi_run(
    servers: Seq<Server>,
    index: int,
    events: Seq<Result<(), Error>>,
) -> MultiRunOutcome
    decreases events.len(),
{
    if !(0 <= index < servers.len()) {
        MultiRunOutcome::Stuck
    } else if spec_multi_directive(servers[index]) == MultiDirectiveKind::NotStream
        || spec_multi_directive(servers[index]) == MultiDirectiveKind::MissingTlsHostname {
        MultiRunOutcome::FailedConfig
    } else if events.len() == 0 {
        MultiRunOutcome::Incomplete
    } else {
        let t = spec_multi_step(servers, index, events[0]);
        match t.1 {
            Some(res) => match res {
                Ok(_) => MultiRunOutcome::Delivered,
                Err(e) => MultiRunOutcome::Failed(e),
            },
            None => spec_multi_run(servers, t.0, events.drop_first()),
        }
    }
}

impl Client {
    /// Starts a multi-response request.
    pub fn request_multi_begin(&self) -> (r: Result<MultiDispatchState, Error>)
        ensures
            self.spec_servers().len() == 0 ==> (r matches Err(e) && e.kind == ErrorKind::Config),
            self.spec_servers().len() > 0 ==> (r matches Ok(st) && st.spec_index() == 0
                && st.wf(self)),
    {
        if self.servers.len() == 0 {
            Err(Error::config("no servers to query"))
        } else {
            Ok(MultiDispatchState { index: 0 })
        }
    }

    /// What to do now on a multi-response request.
    pub fn request_multi_directive(&self, st: &MultiDispatchState) -> (d: MultiDirective)
        requires
            st.wf(self),
        ensures
            ({
                let i = st.spec_index();
                match spec_multi_directive(self.spec_servers()[i as int]) {
                    MultiDirectiveKind::Tcp => d == (MultiDirective::ExchangeTcpMulti { index: i }),
                    MultiDirectiveKind::Tls => d == (MultiDirective::ExchangeTlsMulti { index: i }),
                    MultiDirectiveKind::NotStream => d matches MultiDirective::FailConfig { error }
                        && error.kind == ErrorKind::Config,
                    MultiDirectiveKind::MissingTlsHostname => d matches MultiDirective::FailConfig {
                        error,
                    } && error.kind == ErrorKind::Config,
                }
            }),
    {
        let index = st.index;
        let s = &self.servers[index];
        match s.transport {
            Transport::Udp => MultiDirective::FailConfig {
                error: Error::config("multiple responses require TCP or TLS transport"),
            },
            Transport::UdpTcp => MultiDirective::FailConfig {
                error: Error::config("multiple responses require TCP or TLS transport"),
            },
            Transport::Tcp => MultiDirective::ExchangeTcpMulti { index },
            Transport::Tls => {
                if s.tls_hostname.is_some() {
                    MultiDirective::ExchangeTlsMulti { index }
                } else {
                    MultiDirective::FailConfig {
                        error: Error::config("tls-hostname is required for TLS transport"),
                    }
                }
            },
        }
    }

    /// Folds the outcome of the directed stream opening back in.
    pub fn request_multi_step(&self, st: &mut MultiDispatchState, outcome: Result<(), Error>) -> (r:
        Option<Result<(), Error>>)
        requires
            old(st).wf(self),
        ensures
            ({
                let t = spec_multi_step(
                    self.spec_servers(),
                    old(st).spec_index() as int,
                    outcome,
                );
                final(st).spec_index() == t.0 && r == t.1
            }),
            r is None ==> final(st).wf(self),
    {
        match outcome {
            Ok(u) => Some(Ok(u)),
            Err(e) => {
                let n = self.servers.len();
                assert(st.index < n);
                if st.index + 1 == n {
                    Some(Err(e))
                } else {
                    st.index = st.index + 1;
                    None
                }
            },
        }
    }
}

//------------ Laws of the dispatcher ----------------------------------------

/// A sequence of failure events, one per server attempt.
pub open spec fn err_events(errs: Seq<Error>) -> Seq<Result<Answer, Error>> {
    errs.map_values(|e: Error| Result::<Answer, Error>::Err(e))
}

proof fn lemma_run_skips_failures(
    servers: Seq<Server>,
    index: int,
    errs: Seq<Error>,
    a: Answer,
)
    requires
        0 <= index,
        index + errs.len() + 1 == servers.len(),
        forall|i: int| index <= i < servers.len() ==> (#[trigger] servers[i]).tls_ready(),
        !(servers[servers.len() - 1].transport == Transport::UdpTcp && spec_truncated(
            a.spec_message(),
        )),
    ensures
        spec_run(servers, index, false, err_events(errs).push(Ok(a))) == RunOutcome::Delivered(a),
    decreases errs.len(),
{
    let events = err_events(errs).push(Ok(a));
    assert(servers[index].tls_ready());
    if errs.len() == 0 {
        assert(events[0] == Result::<Answer, Error>::Ok(a));
        assert(index == servers.len() - 1);
    } else {
        assert(events[0] == Result::<Answer, Error>::Err(errs[0]));
        assert(events.drop_first() =~= err_events(errs.drop_first()).push(Ok(a)));
        lemma_run_skips_failures(servers, index + 1, errs.drop_first(), a);
    }
}

/// Ordered failover: when every server before the last fails, one
/// attempt each, and the last server answers — with a response that
/// does not itself call for a TCP retry — the request delivers exactly
/// that answer.  No server is skipped and no second pass is made.
pub proof fn lemma_request_ordered_failover(servers: Seq<Server>, errs: Seq<Error>, a: Answer)
    requires
        servers.len() == errs.len() + 1,
        forall|i: int| 0 <= i < servers.len() ==> (#[trigger] servers[i]).tls_ready(),
        !(servers[servers.len() - 1].transport == Transport::UdpTcp && spec_truncated(
            a.spec_message(),
        )),
    ensures
        spec_run(servers, 0, false, err_events(errs).push(Ok(a))) == RunOutcome::Delivered(a),
{
    lemma_run_skips_failures(servers, 0, errs, a);
}

proof fn lemma_run_fails_with_last(servers: Seq<Server>, index: int, errs: Seq<Error>)
    requires
        0 <= index,
        index + errs.len() == servers.len(),
        errs.len() > 0,
        forall|i: int| index <= i < servers.len() ==> (#[trigger] servers[i]).tls_ready(),
    ensures
        spec_run(servers, index, false, err_events(errs)) == RunOutcome::Failed(errs.last()),
    decreases errs.len(),
{
    let events = err_events(errs);
    assert(servers[index].tls_ready());
    assert(events[0] == Result::<Answer, Error>::Err(errs[0]));
    if errs.len() == 1 {
        assert(index + 1 == servers.len());
    } else {
        assert(events.drop_first() =~= err_events(errs.drop_first()));
        lemma_run_fails_with_last(servers, index + 1, errs.drop_first());
        assert(errs.drop_first().last() == errs.last());
    }
}

/// When every server fails, one attempt each, the request surfaces the
/// last server's error — not an earlier one.
pub proof fn lemma_request_surfaces_last_error(servers: Seq<Server>, errs: Seq<Error>)
    requires
        servers.len() == errs.len(),
        errs.len() > 0,
        forall|i: int| 0 <= i < servers.len() ==> (#[trigger] servers[i]).tls_ready(),
    ensures
        spec_run(servers, 0, false, err_events(errs)) == RunOutcome::Failed(errs.last()),
{
    lemma_run_fails_with_last(servers, 0, errs);
}

/// A truncated response over the datagram half of a UDP-then-TCP
/// attempt triggers exactly one retry, over TCP, and whatever that
/// retry yields — success or failure — is the request's result; the
/// truncated answer is discarded.
pub proof fn lemma_udptcp_retries_once_over_tcp(
    s: Server,
    first: Answer,
    second: Result<Answer, Error>,
)
    requires
        s.transport == Transport::UdpTcp,
        spec_truncated(first.spec_message()),
    ensures
        spec_step(seq![s], 0, false, Ok(first)) == (0int, true, None::<Result<Answer, Error>>),
        spec_directive(s, true) == DirectiveKind::Tcp,
        spec_run(seq![s], 0, false, seq![Ok(first), second]) == (match second {
            Ok(b) => RunOutcome::Delivered(b),
            Err(e) => RunOutcome::Failed(e),
        }),
{
    let events: Seq<Result<Answer, Error>> = seq![Ok(first), second];
    assert(events[0] == Result::<Answer, Error>::Ok(first));
    assert(events.drop_first() =~= seq![second]);
    assert(events.drop_first()[0] == second);
    reveal_with_fuel(spec_run, 3);
}

/// A multi-response request that reaches a UDP or UDP-then-TCP server
/// fails at once with a configuration error, whatever exchanges might
/// have followed: no event is consumed, so no network work is done.
pub proof fn lemma_request_multi_rejects_datagram(
    servers: Seq<Server>,
    events: Seq<Result<(), Error>>,
)
    requires
        servers.len() > 0,
        servers[0].transport == Transport::Udp || servers[0].transport == Transport::UdpTcp,
    ensures
        spec_multi_run(servers, 0, events) == MultiRunOutcome::FailedConfig,
{
}

//------------ RequestMessage ------------------------------------------------

/// A request ready for dispatch: the question and the query-level
/// flags.  The codec encodes it at the network edge; each server
/// attempt works from its own copy.
#[derive(Clone, Debug)]
pub struct RequestMessage {
    pub qname: Vec<u8>,
    pub qtype: u16,
    /// Recursion desired.
    pub rd: bool,
    /// Authentic data.
    pub ad: bool,
    /// Checking disabled.
    pub cd: bool,
    /// DNSSEC OK, carried in the EDNS option record.
    pub dnssec_ok: bool,
}

impl RequestMessage {
    /// A plain query for one question, recursion desired.
    pub fn query(qname: Vec<u8>, qtype: u16) -> (r: RequestMessage)
        ensures
            r.qname@ == qname@,
            r.qtype == qtype,
            r.rd,
            !r.ad,
            !r.cd,
            !r.dnssec_ok,
    {
        RequestMessage { qname, qtype, rd: true, ad: false, cd: false, dnssec_ok: false }
    }
}

} // verus!
