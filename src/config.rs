//! Node roles, their listen endpoints and the textual addresses they bind.

use vstd::prelude::*;

verus! {

/// Default port of the reliable stream (TCP) listener.
pub const DEFAULT_TCP_PORT: u16 = 9091;

/// Default port of the browser-compatible (WebRTC direct) listener.
pub const DEFAULT_SIGNALING_PORT: u16 = 9090;

/// Default port of the HTTP health-check responder.
pub const DEFAULT_HTTP_HEALTH_PORT: u16 = 8080;

/// Default idle-connection timeout, in seconds.
pub const DEFAULT_IDLE_TIMEOUT_SECS: u64 = 5;

/// Default gossip heartbeat interval, in seconds.
pub const DEFAULT_HEARTBEAT_INTERVAL_SECS: u64 = 1;

/// Default interval between liveness probes, in seconds.
pub const DEFAULT_PING_INTERVAL_SECS: u64 = 1;

/// Network family of a listen endpoint.
#[derive(Clone, Copy, Debug, PartialEq, Eq, Structural)]
pub enum Family {
    Ip4,
    Ip6,
}

/// Transport kind of a listen endpoint.
#[derive(Clone, Copy, Debug, PartialEq, Eq, Structural)]
pub enum TransportKind {
    Tcp,
    WebRtcDirect,
}

/// An address specification a node binds to, on all interfaces of its family.
#[derive(Clone, Copy, Debug, PartialEq, Eq, Structural)]
pub struct ListenEndpoint {
    pub family: Family,
    pub kind: TransportKind,
    pub port: u16,
}

/// The three roles a node can take.
#[derive(Clone, Copy, Debug, PartialEq, Eq, Structural)]
pub enum Role {
    /// Listens on TCP and on WebRTC direct.
    DualTransport,
    /// Listens on WebRTC direct over both families and answers health checks.
    Signaling,
    /// Runs in a host page: no listener, driven by host commands.
    BrowserClient,
}

/// Process configuration of a node.
#[derive(Clone, Debug)]
pub struct NodeConfig {
    pub tcp_port: u16,
    pub signaling_port: u16,
    pub http_health_port: u16,
    pub idle_timeout_secs: u64,
    pub heartbeat_interval_secs: u64,
    pub ping_interval_secs: u64,
    pub topic_name: String,
}

/// Everything that tells the roles apart, so that one assembly serves all three.
#[derive(Clone, Debug)]
pub struct RoleDescriptor {
    pub endpoints: Vec<ListenEndpoint>,
    pub accepts_commands: bool,
    pub health_port: Option<u16>,
    pub gossip_enabled: bool,
    pub ping_enabled: bool,
    /// Gossip drops messages without a valid signature from a known originator.
    pub strict_validation: bool,
}

/// The endpoints a role listens on, in binding order.
pub open spec fn role_endpoints(role: Role, tcp_port: u16, signaling_port: u16) -> Seq<ListenEndpoint> {
    match role {
        Role::DualTransport => seq![
            ListenEndpoint { family: Family::Ip4, kind: TransportKind::Tcp, port: tcp_port },
            ListenEndpoint { family: Family::Ip4, kind: TransportKind::WebRtcDirect, port: signaling_port },
        ],
        Role::Signaling => seq![
            ListenEndpoint { family: Family::Ip4, kind: TransportKind::WebRtcDirect, port: signaling_port },
            ListenEndpoint { family: Family::Ip6, kind: TransportKind::WebRtcDirect, port: signaling_port },
        ],
        Role::BrowserClient => seq![],
    }
}

/// Text of one decimal digit.
pub open spec fn digit_text(d: nat) -> Seq<char> {
    if d == 0 { "0"@ }
    else if d == 1 { "1"@ }
    else if d == 2 { "2"@ }
    else if d == 3 { "3"@ }
    else if d == 4 { "4"@ }
    else if d == 5 { "5"@ }
    else if d == 6 { "6"@ }
    else if d == 7 { "7"@ }
    else if d == 8 { "8"@ }
    else { "9"@ }
}

/// Decimal notation of a natural number, without leading zeros.
pub open spec fn decimal(n: nat) -> Seq<char>
    decreases n,
{
    if n < 10 {
        digit_text(n)
    } else {
        decimal(n / 10) + digit_text(n % 10)
    }
}

/// The unspecified address of a family.
pub open spec fn family_text(f: Family) -> Seq<char> {
    match f {
        Family::Ip4 => "/ip4/0.0.0.0"@,
        Family::Ip6 => "/ip6/::"@,
    }
}

/// The multiaddress text a listen endpoint binds.
pub open spec fn endpoint_text(ep: ListenEndpoint) -> Seq<char> {
    match ep.kind {
        TransportKind::Tcp => family_text(ep.family) + "/tcp/"@ + decimal(ep.port as nat),
        TransportKind::WebRtcDirect => family_text(ep.family) + "/udp/"@ + decimal(ep.port as nat)
            + "/webrtc-direct"@,
    }
}

fn digit_str(d: u64) -> (r: &'static str)
    requires
        d < 10,
    ensures
        r@ == digit_text(d as nat),
{
    if d == 0 { "0" }
    else if d == 1 { "1" }
    else if d == 2 { "2" }
    else if d == 3 { "3" }
    else if d == 4 { "4" }
    else if d == 5 { "5" }
    else if d == 6 { "6" }
    else if d == 7 { "7" }
    else if d == 8 { "8" }
    else { "9" }
}

/// Appends the decimal notation of `n` to `out`.
pub fn push_decimal(out: &mut String, n: u64)
    ensures
        final(out)@ == old(out)@ + decimal(n as nat),
    decreases n,
{
    if n >= 10 {
        push_decimal(out, n / 10);
    }
    out.append(digit_str(n % 10));
    assert(final(out)@ =~= old(out)@ + decimal(n as nat));
}

/// The multiaddress text that `ep` binds, e.g. `/ip6/::/udp/9090/webrtc-direct`.
pub fn endpoint_address(ep: &ListenEndpoint) -> (r: String)
    ensures
        r@ == endpoint_text(*ep),
{
    let mut s = match ep.family {
        Family::Ip4 => String::from_str("/ip4/0.0.0.0"),
        Family::Ip6 => String::from_str("/ip6/::"),
    };
    match ep.kind {
        TransportKind::Tcp => {
            s.append("/tcp/");
            push_decimal(&mut s, ep.port as u64);
        },
        TransportKind::WebRtcDirect => {
            s.append("/udp/");
            push_decimal(&mut s, ep.port as u64);
            s.append("/webrtc-direct");
        },
    }
    s
}

/// The descriptor of `role` under `config`: its endpoints in binding order,
/// whether it takes host commands, and whether it answers health checks.
pub open spec fn descriptor_matches(d: RoleDescriptor, role: Role, config: NodeConfig) -> bool {
    &&& d.endpoints@ == role_endpoints(role, config.tcp_port, config.signaling_port)
    &&& d.accepts_commands == (role == Role::BrowserClient)
    &&& d.health_port == (if role == Role::Signaling { Some(config.http_health_port) } else { None::<u16> })
    &&& d.gossip_enabled
    &&& d.ping_enabled
    &&& d.strict_validation
}

/// Builds the descriptor of `role` under `config`.
pub fn describe_role(role: Role, config: &NodeConfig) -> (r: RoleDescriptor)
    ensures
        descriptor_matches(r, role, *config),
{
    let mut endpoints: Vec<ListenEndpoint> = Vec::new();
    match role {
        Role::DualTransport => {
            endpoints.push(ListenEndpoint { family: Family::Ip4, kind: TransportKind::Tcp, port: config.tcp_port });
            endpoints.push(
                ListenEndpoint { family: Family::Ip4, kind: TransportKind::WebRtcDirect, port: config.signaling_port },
            );
        },
        Role::Signaling => {
            endpoints.push(
                ListenEndpoint { family: Family::Ip4, kind: TransportKind::WebRtcDirect, port: config.signaling_port },
            );
            endpoints.push(
                ListenEndpoint { family: Family::Ip6, kind: TransportKind::WebRtcDirect, port: config.signaling_port },
            );
        },
        Role::BrowserClient => {},
    }
    assert(endpoints@ =~= role_endpoints(role, config.tcp_port, config.signaling_port));
    let health_port = match role {
        Role::Signaling => Some(config.http_health_port),
        _ => None,
    };
    let accepts_commands = match role {
        Role::BrowserClient => true,
        _ => false,
    };
    RoleDescriptor { endpoints, accepts_commands, health_port, gossip_enabled: true, ping_enabled: true, strict_validation: true }
}

impl RoleDescriptor {
    /// Whether some endpoint of the descriptor listens on `kind`, so that the
    /// node's transport must support it.
    pub fn uses_kind(&self, kind: TransportKind) -> (r: bool)
        ensures
            r == exists|i: int| 0 <= i < self.endpoints@.len() && #[trigger] self.endpoints@[i].kind == kind,
    {
        let n = self.endpoints.len();
        let mut i: usize = 0;
        while i < n
            invariant
                n == self.endpoints@.len(),
                i <= n,
                forall|k: int| 0 <= k < i ==> #[trigger] self.endpoints@[k].kind != kind,
            decreases n - i,
        {
            if self.endpoints[i].kind == kind {
                return true;
            }
            i = i + 1;
        }
        false
    }
}

impl NodeConfig {
    /// The configuration a node runs with when nothing else is given.
    pub fn defaults() -> (r: NodeConfig)
        ensures
            r.tcp_port == DEFAULT_TCP_PORT,
            r.signaling_port == DEFAULT_SIGNALING_PORT,
            r.http_health_port == DEFAULT_HTTP_HEALTH_PORT,
            r.idle_timeout_secs == DEFAULT_IDLE_TIMEOUT_SECS,
            r.heartbeat_interval_secs == DEFAULT_HEARTBEAT_INTERVAL_SECS,
            r.ping_interval_secs == DEFAULT_PING_INTERVAL_SECS,
            r.topic_name@ == "chat"@,
    {
        NodeConfig {
            tcp_port: DEFAULT_TCP_PORT,
            signaling_port: DEFAULT_SIGNALING_PORT,
            http_health_port: DEFAULT_HTTP_HEALTH_PORT,
            idle_timeout_secs: DEFAULT_IDLE_TIMEOUT_SECS,
            heartbeat_interval_secs: DEFAULT_HEARTBEAT_INTERVAL_SECS,
            ping_interval_secs: DEFAULT_PING_INTERVAL_SECS,
            topic_name: String::from_str("chat"),
        }
    }
}

} // verus!
