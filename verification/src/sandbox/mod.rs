//! The sandbox data model the TUI's state machine works on: sandbox
//! snapshots, metrics, filesystem entries, and the network-rule, mount and
//! secret settings collected by the "New Sandbox" dialog.
//!
//! The SDK calls themselves (listing, lifecycle, logs, metrics, volumes)
//! are I/O and are performed by the application around this library; they
//! hand their results to the library as the plain values defined here.
use vstd::prelude::*;

use crate::text::{
    ascii_lower, ascii_lower_spec, chars_eq, chars_of, copy_string, decimal, is_ascii_alpha,
    is_ascii_alpha_spec, push_all, push_char, push_decimal, push_str, starts_with,
    starts_with_chars, string_from_chars, subvec, to_string, trim_end_char, trim_end_char_chars,
    trim_start_char, trim_start_char_chars, lemma_trim_end_char, lemma_trim_start_char,
};

verus! {

//----------------------------------------------------------------------
// Sandbox snapshots
//----------------------------------------------------------------------

/// Lifecycle state of a sandbox as reported by the backend. States other
/// than running, stopped and crashed (transitional ones) are all `Other`.
#[derive(Debug, Clone, Copy, PartialEq, Eq, Structural)]
pub enum SandboxStatus {
    Running,
    Stopped,
    Crashed,
    Other,
}

impl SandboxStatus {
    pub open spec fn name_spec(self) -> Seq<char> {
        match self {
            SandboxStatus::Running => "Running"@,
            SandboxStatus::Stopped => "Stopped"@,
            SandboxStatus::Crashed => "Crashed"@,
            SandboxStatus::Other => "Other"@,
        }
    }

    /// The status's name as its `Debug` form prints it, e.g. `"Running"`.
    pub fn name(self) -> (r: &'static str)
        ensures
            r@ == self.name_spec(),
    {
        match self {
            SandboxStatus::Running => "Running",
            SandboxStatus::Stopped => "Stopped",
            SandboxStatus::Crashed => "Crashed",
            SandboxStatus::Other => "Other",
        }
    }
}

/// Local snapshot of a sandbox's state used to drive the TUI.
///
/// Timestamps are seconds since the Unix epoch.
#[derive(Debug, Clone)]
pub struct SandboxInfo {
    pub name: String,
    pub status: SandboxStatus,
    pub image: String,
    pub cpus: u8,
    pub memory_mib: u32,
    pub created_at: Option<i64>,
    pub updated_at: Option<i64>,
    /// The sandbox's working directory, when known.
    pub workdir: Option<String>,
}

/// A point-in-time metrics snapshot for a sandbox.
///
/// CPU usage is kept in hundredths of a percent (`7550` is 75.5%).
#[derive(Debug, Clone, Copy, Default, PartialEq, Eq)]
pub struct MetricsSnapshot {
    pub cpu_percent_x100: u64,
    pub memory_bytes: u64,
    pub disk_read_bytes: u64,
    pub disk_write_bytes: u64,
    pub net_rx_bytes: u64,
    pub net_tx_bytes: u64,
    /// Writable-overlay filesystem used bytes, when reported.
    pub disk_used_bytes: Option<u64>,
    /// Writable-overlay filesystem free bytes, when reported.
    pub disk_free_bytes: Option<u64>,
    pub uptime_secs: u64,
}

/// A filesystem entry inside a running sandbox.
#[derive(Debug, Clone)]
pub struct FsEntry {
    pub path: String,
    pub kind: LocalFsEntryKind,
    pub size: u64,
}

#[derive(Debug, Clone, Copy, PartialEq, Eq, Structural)]
pub enum LocalFsEntryKind {
    File,
    Directory,
    Symlink,
    Other,
}

//----------------------------------------------------------------------
// Network rules
//----------------------------------------------------------------------

/// Whether a [`NetworkRule`] permits or blocks matching traffic.
#[derive(Debug, Clone, Copy, PartialEq, Eq, Structural)]
pub enum NetRuleAction {
    Allow,
    Deny,
}

impl NetRuleAction {
    pub open spec fn label_spec(self) -> Seq<char> {
        match self {
            NetRuleAction::Allow => "ALLOW"@,
            NetRuleAction::Deny => "DENY"@,
        }
    }

    pub open spec fn next(self) -> Self {
        match self {
            NetRuleAction::Allow => NetRuleAction::Deny,
            NetRuleAction::Deny => NetRuleAction::Allow,
        }
    }

    /// The default action of a new rule.
    pub fn default() -> (r: Self)
        ensures
            r == NetRuleAction::Allow,
    {
        NetRuleAction::Allow
    }

    pub fn label(self) -> (r: &'static str)
        ensures
            r@ == self.label_spec(),
    {
        match self {
            NetRuleAction::Allow => "ALLOW",
            NetRuleAction::Deny => "DENY",
        }
    }

    /// Cycle to the next value, wrapping around.
    pub fn cycle(self) -> (r: Self)
        ensures
            r == self.next(),
    {
        match self {
            NetRuleAction::Allow => NetRuleAction::Deny,
            NetRuleAction::Deny => NetRuleAction::Allow,
        }
    }
}

/// Traffic direction a [`NetworkRule`] applies to. `Any` applies the rule
/// in both the egress and ingress evaluators.
#[derive(Debug, Clone, Copy, PartialEq, Eq, Structural)]
pub enum NetRuleDirection {
    Egress,
    Ingress,
    Any,
}

impl NetRuleDirection {
    pub open spec fn label_spec(self) -> Seq<char> {
        match self {
            NetRuleDirection::Egress => "EGRESS"@,
            NetRuleDirection::Ingress => "INGRESS"@,
            NetRuleDirection::Any => "ANY"@,
        }
    }

    pub open spec fn next(self) -> Self {
        match self {
            NetRuleDirection::Egress => NetRuleDirection::Ingress,
            NetRuleDirection::Ingress => NetRuleDirection::Any,
            NetRuleDirection::Any => NetRuleDirection::Egress,
        }
    }

    /// The default direction of a new rule.
    pub fn default() -> (r: Self)
        ensures
            r == NetRuleDirection::Egress,
    {
        NetRuleDirection::Egress
    }

    pub fn label(self) -> (r: &'static str)
        ensures
            r@ == self.label_spec(),
    {
        match self {
            NetRuleDirection::Egress => "EGRESS",
            NetRuleDirection::Ingress => "INGRESS",
            NetRuleDirection::Any => "ANY",
        }
    }

    /// Cycle to the next value, wrapping around.
    pub fn cycle(self) -> (r: Self)
        ensures
            r == self.next(),
    {
        match self {
            NetRuleDirection::Egress => NetRuleDirection::Ingress,
            NetRuleDirection::Ingress => NetRuleDirection::Any,
            NetRuleDirection::Any => NetRuleDirection::Egress,
        }
    }
}

/// A transport/network-layer protocol filter for a [`NetworkRule`]. ICMP
/// protocols are egress-only.
#[derive(Debug, Clone, Copy, PartialEq, Eq, Structural)]
pub enum NetRuleProtocol {
    Tcp,
    Udp,
    Icmpv4,
    Icmpv6,
}

impl NetRuleProtocol {
    pub const ALL: [NetRuleProtocol; 4] = [
        NetRuleProtocol::Tcp,
        NetRuleProtocol::Udp,
        NetRuleProtocol::Icmpv4,
        NetRuleProtocol::Icmpv6,
    ];

    pub open spec fn label_spec(self) -> Seq<char> {
        match self {
            NetRuleProtocol::Tcp => "TCP"@,
            NetRuleProtocol::Udp => "UDP"@,
            NetRuleProtocol::Icmpv4 => "ICMPv4"@,
            NetRuleProtocol::Icmpv6 => "ICMPv6"@,
        }
    }

    pub open spec fn is_icmp_spec(self) -> bool {
        self == NetRuleProtocol::Icmpv4 || self == NetRuleProtocol::Icmpv6
    }

    /// The protocol at position `i` of [`Self::ALL`].
    pub open spec fn at(i: usize) -> Self {
        if i == 0 {
            NetRuleProtocol::Tcp
        } else if i == 1 {
            NetRuleProtocol::Udp
        } else if i == 2 {
            NetRuleProtocol::Icmpv4
        } else {
            NetRuleProtocol::Icmpv6
        }
    }

    /// The protocol at position `i` of [`Self::ALL`].
    pub fn nth(i: usize) -> (r: Self)
        requires
            i < 4,
        ensures
            r == Self::at(i),
    {
        if i == 0 {
            NetRuleProtocol::Tcp
        } else if i == 1 {
            NetRuleProtocol::Udp
        } else if i == 2 {
            NetRuleProtocol::Icmpv4
        } else {
            NetRuleProtocol::Icmpv6
        }
    }

    pub fn label(self) -> (r: &'static str)
        ensures
            r@ == self.label_spec(),
    {
        match self {
            NetRuleProtocol::Tcp => "TCP",
            NetRuleProtocol::Udp => "UDP",
            NetRuleProtocol::Icmpv4 => "ICMPv4",
            NetRuleProtocol::Icmpv6 => "ICMPv6",
        }
    }

    /// True for the two ICMP variants, which are only allowed on egress
    /// (or "any"-direction) rules.
    pub fn is_icmp(self) -> (r: bool)
        ensures
            r == self.is_icmp_spec(),
    {
        match self {
            NetRuleProtocol::Icmpv4 | NetRuleProtocol::Icmpv6 => true,
            _ => false,
        }
    }
}

/// One of the pre-defined destination groups.
#[derive(Debug, Clone, Copy, PartialEq, Eq, Structural)]
pub enum NetRuleDestGroup {
    Public,
    Loopback,
    Private,
    LinkLocal,
    Metadata,
    Multicast,
    Host,
}

impl NetRuleDestGroup {
    pub const ALL: [NetRuleDestGroup; 7] = [
        NetRuleDestGroup::Public,
        NetRuleDestGroup::Loopback,
        NetRuleDestGroup::Private,
        NetRuleDestGroup::LinkLocal,
        NetRuleDestGroup::Metadata,
        NetRuleDestGroup::Multicast,
        NetRuleDestGroup::Host,
    ];

    pub open spec fn label_spec(self) -> Seq<char> {
        match self {
            NetRuleDestGroup::Public => "Public"@,
            NetRuleDestGroup::Loopback => "Loopback"@,
            NetRuleDestGroup::Private => "Private"@,
            NetRuleDestGroup::LinkLocal => "Link-Local"@,
            NetRuleDestGroup::Metadata => "Metadata"@,
            NetRuleDestGroup::Multicast => "Multicast"@,
            NetRuleDestGroup::Host => "Host"@,
        }
    }

    /// The successor in [`Self::ALL`], wrapping around.
    pub open spec fn next(self) -> Self {
        match self {
            NetRuleDestGroup::Public => NetRuleDestGroup::Loopback,
            NetRuleDestGroup::Loopback => NetRuleDestGroup::Private,
            NetRuleDestGroup::Private => NetRuleDestGroup::LinkLocal,
            NetRuleDestGroup::LinkLocal => NetRuleDestGroup::Metadata,
            NetRuleDestGroup::Metadata => NetRuleDestGroup::Multicast,
            NetRuleDestGroup::Multicast => NetRuleDestGroup::Host,
            NetRuleDestGroup::Host => NetRuleDestGroup::Public,
        }
    }

    /// The default group of a new rule.
    pub fn default() -> (r: Self)
        ensures
            r == NetRuleDestGroup::Public,
    {
        NetRuleDestGroup::Public
    }

    pub fn label(self) -> (r: &'static str)
        ensures
            r@ == self.label_spec(),
    {
        match self {
            NetRuleDestGroup::Public => "Public",
            NetRuleDestGroup::Loopback => "Loopback",
            NetRuleDestGroup::Private => "Private",
            NetRuleDestGroup::LinkLocal => "Link-Local",
            NetRuleDestGroup::Metadata => "Metadata",
            NetRuleDestGroup::Multicast => "Multicast",
            NetRuleDestGroup::Host => "Host",
        }
    }

    /// Cycle to the next value, wrapping around.
    pub fn cycle(self) -> (r: Self)
        ensures
            r == self.next(),
    {
        match self {
            NetRuleDestGroup::Public => NetRuleDestGroup::Loopback,
            NetRuleDestGroup::Loopback => NetRuleDestGroup::Private,
            NetRuleDestGroup::Private => NetRuleDestGroup::LinkLocal,
            NetRuleDestGroup::LinkLocal => NetRuleDestGroup::Metadata,
            NetRuleDestGroup::Metadata => NetRuleDestGroup::Multicast,
            NetRuleDestGroup::Multicast => NetRuleDestGroup::Host,
            NetRuleDestGroup::Host => NetRuleDestGroup::Public,
        }
    }
}

/// What kind of destination a [`NetworkRule`] matches against.
#[derive(Debug, Clone, Copy, PartialEq, Eq, Structural)]
pub enum NetRuleDestKind {
    /// Matches any destination.
    Any,
    /// A single IP address.
    Ip,
    /// A CIDR block.
    Cidr,
    /// An exact domain name.
    Domain,
    /// A domain and all of its subdomains.
    DomainSuffix,
    /// A pre-defined destination group (see [`NetRuleDestGroup`]).
    Group,
}

impl NetRuleDestKind {
    pub const ALL: [NetRuleDestKind; 6] = [
        NetRuleDestKind::Any,
        NetRuleDestKind::Ip,
        NetRuleDestKind::Cidr,
        NetRuleDestKind::Domain,
        NetRuleDestKind::DomainSuffix,
        NetRuleDestKind::Group,
    ];

    pub open spec fn label_spec(self) -> Seq<char> {
        match self {
            NetRuleDestKind::Any => "Any"@,
            NetRuleDestKind::Ip => "IP"@,
            NetRuleDestKind::Cidr => "CIDR"@,
            NetRuleDestKind::Domain => "Domain"@,
            NetRuleDestKind::DomainSuffix => "Domain Suffix"@,
            NetRuleDestKind::Group => "Group"@,
        }
    }

    /// The successor in [`Self::ALL`], wrapping around.
    pub open spec fn next(self) -> Self {
        match self {
            NetRuleDestKind::Any => NetRuleDestKind::Ip,
            NetRuleDestKind::Ip => NetRuleDestKind::Cidr,
            NetRuleDestKind::Cidr => NetRuleDestKind::Domain,
            NetRuleDestKind::Domain => NetRuleDestKind::DomainSuffix,
            NetRuleDestKind::DomainSuffix => NetRuleDestKind::Group,
            NetRuleDestKind::Group => NetRuleDestKind::Any,
        }
    }

    pub open spec fn needs_text_spec(self) -> bool {
        self == NetRuleDestKind::Ip || self == NetRuleDestKind::Cidr || self
            == NetRuleDestKind::Domain || self == NetRuleDestKind::DomainSuffix
    }

    /// The default destination kind of a new rule.
    pub fn default() -> (r: Self)
        ensures
            r == NetRuleDestKind::Any,
    {
        NetRuleDestKind::Any
    }

    pub fn label(self) -> (r: &'static str)
        ensures
            r@ == self.label_spec(),
    {
        match self {
            NetRuleDestKind::Any => "Any",
            NetRuleDestKind::Ip => "IP",
            NetRuleDestKind::Cidr => "CIDR",
            NetRuleDestKind::Domain => "Domain",
            NetRuleDestKind::DomainSuffix => "Domain Suffix",
            NetRuleDestKind::Group => "Group",
        }
    }

    /// Cycle to the next value, wrapping around.
    pub fn cycle(self) -> (r: Self)
        ensures
            r == self.next(),
    {
        match self {
            NetRuleDestKind::Any => NetRuleDestKind::Ip,
            NetRuleDestKind::Ip => NetRuleDestKind::Cidr,
            NetRuleDestKind::Cidr => NetRuleDestKind::Domain,
            NetRuleDestKind::Domain => NetRuleDestKind::DomainSuffix,
            NetRuleDestKind::DomainSuffix => NetRuleDestKind::Group,
            NetRuleDestKind::Group => NetRuleDestKind::Any,
        }
    }

    /// True when this kind needs a free-text value (IP/CIDR/domain name).
    pub fn needs_text_value(self) -> (r: bool)
        ensures
            r == self.needs_text_spec(),
    {
        match self {
            NetRuleDestKind::Ip
            | NetRuleDestKind::Cidr
            | NetRuleDestKind::Domain
            | NetRuleDestKind::DomainSuffix => true,
            _ => false,
        }
    }
}

/// Cycling through every destination kind returns to the starting kind:
/// `cycle` visits the whole of [`NetRuleDestKind::ALL`] in order.
pub proof fn law_dest_kind_cycle(k: NetRuleDestKind)
    ensures
        k.next().next().next().next().next().next() == k,
        k.next() != k,
{
}

/// Cycling through every destination group returns to the starting group.
pub proof fn law_dest_group_cycle(g: NetRuleDestGroup)
    ensures
        g.next().next().next().next().next().next().next() == g,
        g.next() != g,
{
}

/// Cycling the direction three times, or the action twice, is the identity.
pub proof fn law_direction_action_cycle(d: NetRuleDirection, a: NetRuleAction)
    ensures
        d.next().next().next() == d,
        a.next().next() == a,
        d.next() != d,
        a.next() != a,
{
}

/// A single network policy rule configured at sandbox-creation time.
#[derive(Debug, Clone, PartialEq)]
pub struct NetworkRule {
    pub direction: NetRuleDirection,
    pub action: NetRuleAction,
    pub dest_kind: NetRuleDestKind,
    /// Free-text destination value, used when `dest_kind` is `Ip`, `Cidr`,
    /// `Domain`, or `DomainSuffix`.
    pub dest_value: String,
    /// Destination group, used when `dest_kind` is `Group`.
    pub dest_group: NetRuleDestGroup,
    /// Protocol filter; empty means "any protocol".
    pub protocols: Vec<NetRuleProtocol>,
    /// Guest-side port or port range filter; `None` means "any port".
    pub port_range: Option<(u16, u16)>,
}

/// Protocol labels joined with `+`.
pub open spec fn join_protocols(ps: Seq<NetRuleProtocol>) -> Seq<char>
    decreases ps.len(),
{
    if ps.len() == 0 {
        seq![]
    } else if ps.len() == 1 {
        ps[0].label_spec()
    } else {
        join_protocols(ps.drop_last()) + "+"@ + ps.last().label_spec()
    }
}

/// The port part of a rule summary.
pub open spec fn ports_text(port_range: Option<(u16, u16)>) -> Seq<char> {
    match port_range {
        None => "any port"@,
        Some((lo, hi)) => if lo == hi {
            "port "@ + decimal(lo as nat)
        } else {
            "ports "@ + decimal(lo as nat) + "-"@ + decimal(hi as nat)
        },
    }
}

/// A port filter as the rule editor shows it: `"lo"`, `"lo-hi"`, or empty.
pub open spec fn port_range_text(p: Option<(u16, u16)>) -> Seq<char> {
    match p {
        None => seq![],
        Some((lo, hi)) => if lo == hi {
            decimal(lo as nat)
        } else {
            decimal(lo as nat) + "-"@ + decimal(hi as nat)
        },
    }
}

/// Appends [`port_range_text`] of `p` to `s`.
pub fn push_port_range(s: &mut String, p: Option<(u16, u16)>)
    ensures
        final(s)@ == old(s)@ + port_range_text(p),
{
    match p {
        None => {
            assert(s@ =~= old(s)@ + port_range_text(p));
        },
        Some((lo, hi)) => {
            push_decimal(s, lo as u64);
            if lo != hi {
                push_str(s, "-");
                push_decimal(s, hi as u64);
            }
            assert(s@ =~= old(s)@ + port_range_text(p));
        },
    }
}

impl NetworkRule {
    /// The destination part of a rule summary.
    pub open spec fn dest_text(self) -> Seq<char> {
        match self.dest_kind {
            NetRuleDestKind::Any => "any"@,
            NetRuleDestKind::Group => self.dest_group.label_spec(),
            _ => self.dest_value@,
        }
    }

    pub open spec fn summary_spec(self) -> Seq<char> {
        self.direction.label_spec() + " "@ + self.action.label_spec() + " "@ + self.dest_text()
            + " ["@ + (if self.protocols@.len() == 0 {
            "any proto"@
        } else {
            join_protocols(self.protocols@)
        }) + ", "@ + ports_text(self.port_range) + "]"@
    }

    /// One-line human-readable summary shown in the create-dialog's
    /// network-rules list, e.g. `EGRESS ALLOW Public [TCP, port 443]`.
    pub fn summary(&self) -> (r: String)
        ensures
            r@ == self.summary_spec(),
    {
        let mut s = String::new();
        push_str(&mut s, self.direction.label());
        push_str(&mut s, " ");
        push_str(&mut s, self.action.label());
        push_str(&mut s, " ");
        self.push_dest(&mut s);
        push_str(&mut s, " [");
        push_protocols(&mut s, &self.protocols);
        push_str(&mut s, ", ");
        push_ports_text(&mut s, self.port_range);
        push_str(&mut s, "]");
        assert(s@ =~= self.summary_spec());
        s
    }

    fn push_dest(&self, s: &mut String)
        ensures
            final(s)@ == old(s)@ + self.dest_text(),
    {
        match self.dest_kind {
            NetRuleDestKind::Any => push_str(s, "any"),
            NetRuleDestKind::Group => push_str(s, self.dest_group.label()),
            _ => push_str(s, self.dest_value.as_str()),
        }
    }
}

/// Appends the protocol part of a rule summary.
fn push_protocols(s: &mut String, protocols: &Vec<NetRuleProtocol>)
    ensures
        final(s)@ == old(s)@ + if protocols@.len() == 0 {
            "any proto"@
        } else {
            join_protocols(protocols@)
        },
{
    if protocols.len() == 0 {
        push_str(s, "any proto");
        return;
    }
    let n = protocols.len();
    for i in 0..n
        invariant
            n == protocols@.len(),
            n > 0,
            s@ == old(s)@ + join_protocols(protocols@.take(i as int)),
    {
        if i > 0 {
            push_str(s, "+");
        }
        push_str(s, protocols[i].label());
        proof {
            let t = protocols@.take(i + 1);
            assert(t.drop_last() =~= protocols@.take(i as int));
            if i == 0 {
                assert(protocols@.take(0) =~= Seq::<NetRuleProtocol>::empty());
            }
            assert(s@ =~= old(s)@ + join_protocols(t));
        }
    }
    assert(protocols@.take(n as int) =~= protocols@);
}

/// Appends [`ports_text`] of `p`.
fn push_ports_text(s: &mut String, p: Option<(u16, u16)>)
    ensures
        final(s)@ == old(s)@ + ports_text(p),
{
    match p {
        None => push_str(s, "any port"),
        Some((lo, hi)) => {
            if lo == hi {
                push_str(s, "port ");
                push_decimal(s, lo as u64);
            } else {
                push_str(s, "ports ");
                push_decimal(s, lo as u64);
                push_str(s, "-");
                push_decimal(s, hi as u64);
            }
            assert(s@ =~= old(s)@ + ports_text(p));
        },
    }
}

//----------------------------------------------------------------------
// Mounts
//----------------------------------------------------------------------

/// Where a volume mount's data comes from.
#[derive(Debug, Clone, PartialEq, Eq)]
pub enum MountSource {
    /// Bind-mount a host directory.
    Bind(String),
    /// Mount a pre-existing named volume.
    Named(String),
}

/// A single guest-path mount configured at sandbox-creation time.
#[derive(Debug, Clone, PartialEq, Eq)]
pub struct VolumeMountConfig {
    pub guest_path: String,
    pub source: MountSource,
}

/// `host.replace('\\', "/")`.
pub open spec fn backslashes_to_slashes(s: Seq<char>) -> Seq<char> {
    s.map_values(|c: char| if c == '\\' { '/' } else { c })
}

/// Convert a host filesystem path into the corresponding guest path used
/// when bind-mounting it into a sandbox at "the same" location.
///
/// POSIX-style paths are kept, trailing slashes stripped; the root, or a
/// path made of slashes alone, is the root `/`. Windows drive-letter paths
/// (`D:\foo\bar` or `D:/foo/bar`) become `/d/foo/bar`, the drive letter
/// lower-cased.
pub open spec fn guest_path_spec(host: Seq<char>) -> Seq<char> {
    let n = backslashes_to_slashes(host);
    if n.len() >= 2 && is_ascii_alpha_spec(n[0]) && n[1] == ':' {
        let drive = ascii_lower_spec(n[0]);
        let rest = trim_end_char(trim_start_char(n.skip(2), '/'), '/');
        if rest.len() == 0 {
            seq!['/', drive]
        } else {
            seq!['/', drive, '/'] + rest
        }
    } else if n.len() > 1 {
        let t = trim_end_char(n, '/');
        if t.len() == 0 {
            seq!['/']
        } else {
            t
        }
    } else {
        n
    }
}

pub fn host_path_to_guest_path(host_path: &str) -> (r: String)
    ensures
        r@ == guest_path_spec(host_path@),
{
    let cs = chars_of(host_path);
    let mut normalized: Vec<char> = Vec::new();
    let len = cs.len();
    for i in 0..len
        invariant
            len == cs@.len(),
            normalized@ == backslashes_to_slashes(cs@.take(i as int)),
    {
        let c = cs[i];
        normalized.push(if c == '\\' { '/' } else { c });
        assert(normalized@ =~= backslashes_to_slashes(cs@.take(i + 1)));
    }
    assert(cs@.take(len as int) =~= cs@);
    let n = normalized.len();
    if n >= 2 && is_ascii_alpha(normalized[0]) && normalized[1] == ':' {
        let drive = ascii_lower(normalized[0]);
        let tail = subvec(&normalized, 2, n);
        assert(tail@ =~= normalized@.skip(2));
        let a = trim_start_char_chars(&tail, '/');
        let rest = trim_end_char_chars(&a, '/');
        let mut out = String::new();
        push_char(&mut out, '/');
        push_char(&mut out, drive);
        if rest.len() > 0 {
            push_char(&mut out, '/');
            push_all(&mut out, &rest);
        }
        assert(out@ =~= guest_path_spec(host_path@));
        out
    } else if n > 1 {
        let t = trim_end_char_chars(&normalized, '/');
        if t.len() == 0 {
            let mut out = String::new();
            push_char(&mut out, '/');
            assert(out@ =~= seq!['/']);
            out
        } else {
            string_from_chars(&t)
        }
    } else {
        string_from_chars(&normalized)
    }
}

/// A guest path is in normal form: it holds no backslash, ends in a slash
/// only when it is the root `/`, and converting it again gives it back
/// unchanged. A non-empty host path made of slashes and backslashes alone
/// becomes the root.
pub proof fn law_guest_path_normal_form(host: Seq<char>)
    ensures
        !guest_path_spec(host).contains('\\'),
        guest_path_spec(host).len() > 0 && guest_path_spec(host).last() == '/'
            ==> guest_path_spec(host) == seq!['/'],
        guest_path_spec(guest_path_spec(host)) == guest_path_spec(host),
        host.len() > 0 && (forall|i: int| 0 <= i < host.len() ==> host[i] == '/' || host[i] == '\\')
            ==> guest_path_spec(host) == seq!['/'],
{
    let n = backslashes_to_slashes(host);
    let g = guest_path_spec(host);
    assert(forall|i: int| 0 <= i < n.len() ==> n[i] != '\\');
    if n.len() >= 2 && is_ascii_alpha_spec(n[0]) && n[1] == ':' {
        let drive = ascii_lower_spec(n[0]);
        let a = trim_start_char(n.skip(2), '/');
        let rest = trim_end_char(a, '/');
        lemma_trim_start_char(n.skip(2), '/');
        lemma_trim_end_char(a, '/');
        assert(forall|i: int| 0 <= i < rest.len() ==> rest[i] == n[2 + (n.len() - 2 - a.len()) + i]);
        assert(is_ascii_alpha_spec(drive));
        assert(forall|i: int| 0 <= i < g.len() ==> g[i] != '\\');
        assert(backslashes_to_slashes(g) =~= g);
        assert(g[0] == '/');
        assert(g.last() != '/');
        assert(trim_end_char(g, '/') == g);
        if host.len() > 0 && (forall|i: int| 0 <= i < host.len() ==> host[i] == '/' || host[i] == '\\') {
            assert(n[0] == '/');
        }
    } else if n.len() > 1 {
        let t = trim_end_char(n, '/');
        lemma_trim_end_char(n, '/');
        if t.len() == 0 {
            assert(backslashes_to_slashes(seq!['/']) =~= seq!['/']);
        } else {
            assert(forall|i: int| 0 <= i < t.len() ==> t[i] == n[i]);
            assert(backslashes_to_slashes(t) =~= t);
            if t.len() > 1 {
                assert(trim_end_char(t, '/') == t);
            }
            if host.len() > 0 && (forall|i: int| 0 <= i < host.len() ==> host[i] == '/' || host[i] == '\\') {
                assert(n[t.len() - 1] == '/');
            }
        }
    } else {
        assert(backslashes_to_slashes(n) =~= n);
        if host.len() > 0 && (forall|i: int| 0 <= i < host.len() ==> host[i] == '/' || host[i] == '\\') {
            assert(n =~= seq!['/']);
        }
    }
}

/// A mount of an existing sandbox as the backend reports it: a bind mount
/// from a host directory, or some other kind of mount.
#[derive(Debug, Clone)]
pub enum MountBacking {
    Bind { host: String, guest: String },
    Other,
}

/// The host path a single mount gives for a (normalized) workdir, if the
/// mount is a bind mount at or above it.
pub open spec fn mount_host_path(workdir: Seq<char>, m: MountBacking) -> Option<Seq<char>> {
    match m {
        MountBacking::Bind { host, guest } => {
            let g = trim_end_char(guest@, '/');
            if workdir == g {
                Some(host@)
            } else if starts_with(workdir, g) && workdir.len() > g.len() && workdir[g.len() as int]
                == '/' {
                Some(host@ + seq!['/'] + workdir.skip(g.len() as int + 1))
            } else {
                None
            }
        },
        MountBacking::Other => None,
    }
}

/// The host path of the first mount that covers `workdir`, or `workdir`
/// itself when none does.
pub open spec fn resolve_workdir_spec(workdir: Seq<char>, mounts: Seq<MountBacking>) -> Seq<char>
    decreases mounts.len(),
{
    if mounts.len() == 0 {
        workdir
    } else {
        match mount_host_path(trim_end_char(workdir, '/'), mounts[0]) {
            Some(p) => p,
            None => resolve_workdir_spec(workdir, mounts.drop_first()),
        }
    }
}

/// Given a sandbox's guest workdir and its mounts, find the host path
/// bind-mounted at (or as an ancestor of) that guest path, so the workdir
/// can be shown as it appears on the host. Falls back to the guest path
/// unchanged when no bind mount covers it.
pub fn resolve_workdir_host_path(workdir: &str, mounts: &Vec<MountBacking>) -> (r: String)
    ensures
        r@ == resolve_workdir_spec(workdir@, mounts@),
{
    let wcs = chars_of(workdir);
    let w = trim_end_char_chars(&wcs, '/');
    let n = mounts.len();
    assert(mounts@.skip(0) =~= mounts@);
    for i in 0..n
        invariant
            n == mounts@.len(),
            w@ == trim_end_char(workdir@, '/'),
            resolve_workdir_spec(workdir@, mounts@) == resolve_workdir_spec(
                workdir@,
                mounts@.skip(i as int),
            ),
    {
        proof {
            assert(mounts@.skip(i as int)[0] == mounts@[i as int]);
            assert(mounts@.skip(i as int).drop_first() =~= mounts@.skip(i + 1));
        }
        match &mounts[i] {
            MountBacking::Bind { host, guest } => {
                let gcs = chars_of(guest.as_str());
                let g = trim_end_char_chars(&gcs, '/');
                if chars_eq(&w, &g) {
                    return copy_string(host);
                }
                if starts_with_chars(&w, &g) && w.len() > g.len() && w[g.len()] == '/' {
                    let mut out = copy_string(host);
                    push_char(&mut out, '/');
                    let rest = subvec(&w, g.len() + 1, w.len());
                    push_all(&mut out, &rest);
                    assert(rest@ =~= w@.skip(g@.len() as int + 1));
                    assert(out@ =~= host@ + seq!['/'] + w@.skip(g@.len() as int + 1));
                    return out;
                }
            },
            MountBacking::Other => {},
        }
    }
    assert(mounts@.skip(n as int) =~= Seq::<MountBacking>::empty());
    to_string(workdir)
}

//----------------------------------------------------------------------
// Volumes
//----------------------------------------------------------------------

/// How a named volume stores its data.
#[derive(Debug, Clone, Copy, PartialEq, Eq, Structural)]
pub enum VolumeKind {
    Directory,
    Disk,
}

/// Summary of a named volume, as shown in the Volumes view.
#[derive(Debug, Clone)]
pub struct VolumeInfo {
    pub name: String,
    pub kind: VolumeKind,
    pub quota_mib: Option<u32>,
    pub used_bytes: u64,
}

//----------------------------------------------------------------------
// Secrets
//----------------------------------------------------------------------

/// Which kind of host pattern an allowed-host entry uses.
#[derive(Debug, Clone, Copy, PartialEq, Eq, Structural)]
pub enum SecretHostKind {
    /// Exact hostname match.
    Exact,
    /// Wildcard suffix match, e.g. `*.example.com`.
    Wildcard,
    /// Matches every host. Dangerous — disables host-based protection.
    Any,
}

/// One allowed-host entry for a [`SecretConfig`].
#[derive(Debug, Clone, PartialEq, Eq)]
pub struct SecretHostPattern {
    pub kind: SecretHostKind,
    /// Hostname or wildcard pattern. Empty when `kind` is `Any`.
    pub value: String,
}

/// A single secret configured at sandbox-creation time: an environment
/// variable holding a placeholder inside the guest, the real value it is
/// substituted for, the hosts allowed to receive it, and the injection
/// scopes.
#[derive(Debug, Clone, PartialEq, Eq)]
pub struct SecretConfig {
    /// Environment variable name the guest sees the placeholder as.
    pub env_var: String,
    /// The real secret value, never exposed to the guest.
    pub value: String,
    /// Hosts allowed to receive the real value. At least one is required.
    pub allowed_hosts: Vec<SecretHostPattern>,
    pub inject_headers: bool,
    pub inject_basic_auth: bool,
    pub inject_query: bool,
    pub inject_body: bool,
    pub require_tls_identity: bool,
}

/// How an allowed host is displayed: `*` for "any host", else its pattern.
pub open spec fn host_text(h: SecretHostPattern) -> Seq<char> {
    match h.kind {
        SecretHostKind::Any => "*"@,
        _ => h.value@,
    }
}

/// Display forms of the allowed hosts joined with `sep`.
pub open spec fn join_hosts(hs: Seq<SecretHostPattern>, sep: Seq<char>) -> Seq<char>
    decreases hs.len(),
{
    if hs.len() == 0 {
        seq![]
    } else if hs.len() == 1 {
        host_text(hs[0])
    } else {
        join_hosts(hs.drop_last(), sep) + sep + host_text(hs.last())
    }
}

/// Appends the display forms of `hosts` joined with `sep` to `s`.
pub fn push_hosts(s: &mut String, hosts: &Vec<SecretHostPattern>, sep: &str)
    ensures
        final(s)@ == old(s)@ + join_hosts(hosts@, sep@),
{
    let n = hosts.len();
    for i in 0..n
        invariant
            n == hosts@.len(),
            s@ == old(s)@ + join_hosts(hosts@.take(i as int), sep@),
    {
        if i > 0 {
            push_str(s, sep);
        }
        match hosts[i].kind {
            SecretHostKind::Any => push_str(s, "*"),
            _ => push_str(s, hosts[i].value.as_str()),
        }
        proof {
            let t = hosts@.take(i + 1);
            assert(t.drop_last() =~= hosts@.take(i as int));
            assert(t.last() == hosts@[i as int]);
            if i == 0 {
                assert(hosts@.take(0) =~= Seq::<SecretHostPattern>::empty());
            }
            assert(s@ =~= old(s)@ + join_hosts(t, sep@));
        }
    }
    assert(hosts@.take(n as int) =~= hosts@);
}

impl SecretConfig {
    pub open spec fn summary_spec(self) -> Seq<char> {
        self.env_var@ + "=****** -> "@ + join_hosts(self.allowed_hosts@, ","@)
    }

    /// One-line summary shown in the create-dialog's secrets list. The
    /// secret value itself is shown masked.
    pub fn summary(&self) -> (r: String)
        ensures
            r@ == self.summary_spec(),
    {
        let mut s = copy_string(&self.env_var);
        push_str(&mut s, "=****** -> ");
        push_hosts(&mut s, &self.allowed_hosts, ",");
        s
    }
}

//----------------------------------------------------------------------
// Creation parameters
//----------------------------------------------------------------------

/// All parameters for creating a new sandbox via the TUI dialog.
#[derive(Debug, Clone)]
pub struct CreateConfig {
    pub name: String,
    pub image: String,
    pub cpus: u8,
    pub memory_mib: u32,
    pub ports: Vec<(u16, u16)>,
    pub env_vars: Vec<(String, String)>,
    pub hostname: Option<String>,
    pub workdir: Option<String>,
    pub user: Option<String>,
    pub shell: Option<String>,
    pub max_cpus: Option<u8>,
    pub max_memory_mib: Option<u32>,
    pub disable_network: bool,
    /// Network policy rules applied at creation time; ignored when
    /// `disable_network` is set.
    pub network_rules: Vec<NetworkRule>,
    /// Volume mounts applied at creation time.
    pub mounts: Vec<VolumeMountConfig>,
    /// Secrets injected at creation time via the TLS proxy.
    pub secrets: Vec<SecretConfig>,
}

} // verus!
