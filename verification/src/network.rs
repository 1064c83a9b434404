//! Network interface inventory and bounded TCP socket analysis.

use vstd::prelude::*;
use crate::text::{
    chars_of, concat_str, decimal, decimal_string, split_once, split_once_spec,
    split_words, str_eq, string_from_chars, views, without_plus, words,
};
use crate::process::{parse_u32, parse_u32_spec};
use crate::ranking::{
    key_le, key_view, key_views, lemma_ranked_in_key_order, lemma_ranked_positions_in_range, rank,
    ranked_positions, KeyView, RankKey,
};

verus! {

#[derive(Debug)]
pub enum NetworkStatusError {
    Read(std::io::Error),
}

#[derive(Debug, Clone, PartialEq, Eq)]
pub struct NetworkInterface {
    pub name: String,
    pub is_up: bool,
    pub rx_bytes: u64,
    pub tx_bytes: u64,
}

#[derive(Debug)]
pub enum NetworkIntelligenceError {
    Read { path: String, source: std::io::Error },
}

#[derive(Debug, Clone, Copy, PartialEq, Eq, Structural)]
pub enum SocketProtocol {
    Tcp,
    Tcp6,
}

#[derive(Debug, Clone, PartialEq, Eq)]
pub struct SocketObservation {
    pub protocol: SocketProtocol,
    pub local_address: String,
    pub local_port: u16,
    pub remote_address: String,
    pub remote_port: u16,
    pub state: String,
    pub uid: u32,
}

#[derive(Debug, Clone, PartialEq, Eq)]
pub struct NetworkAnomaly {
    pub kind: String,
    pub description: String,
}

#[derive(Debug, Clone, PartialEq, Eq)]
pub struct NetworkAnalysis {
    pub sockets_scanned: usize,
    pub skipped_entries: usize,
    pub truncated: bool,
    pub listening_ports: Vec<SocketObservation>,
    pub established_connections: usize,
    pub anomalies: Vec<NetworkAnomaly>,
}

#[derive(Debug, Clone, Copy, PartialEq, Eq, Structural)]
pub struct AnalysisLimits {
    pub max_sockets: usize,
    pub top_n: usize,
}

impl Default for AnalysisLimits {
    fn default() -> (limits: Self)
        ensures
            limits.max_sockets == 1000,
            limits.top_n == 20,
    {
        AnalysisLimits { max_sockets: 1000, top_n: 20 }
    }
}

// ------------------------------------------------------- /proc/net/tcp text

pub open spec fn hex_digit_value(c: char) -> Option<nat> {
    if '0' <= c && c <= '9' {
        Some((c as u32 - '0' as u32) as nat)
    } else if 'a' <= c && c <= 'f' {
        Some((c as u32 - 'a' as u32 + 10) as nat)
    } else if 'A' <= c && c <= 'F' {
        Some((c as u32 - 'A' as u32 + 10) as nat)
    } else {
        None
    }
}

/// The number that a sequence of hexadecimal digits denotes.
pub open spec fn hex_value(d: Seq<char>) -> nat
    decreases d.len(),
{
    if d.len() == 0 {
        0
    } else {
        hex_value(d.drop_last()) * 16 + match hex_digit_value(d.last()) {
            Some(v) => v,
            None => 0,
        }
    }
}

/// What `from_str_radix(s, 16)` reads, before the check that the value fits
/// its type: an optional `+` and one or more hexadecimal digits.
pub open spec fn parse_hex_spec(s: Seq<char>) -> Option<nat> {
    let d = without_plus(s);
    if d.len() > 0 && (forall|i: int| 0 <= i < d.len() ==> (#[trigger] hex_digit_value(d[i])) is Some) {
        Some(hex_value(d))
    } else {
        None
    }
}

/// The text is a hexadecimal number no larger than `max`.
pub open spec fn hex_fits(s: Seq<char>, max: nat) -> bool {
    parse_hex_spec(s) is Some && parse_hex_spec(s)->0 <= max
}

proof fn lemma_hex_value_grows(d: Seq<char>, k: int)
    requires
        0 <= k <= d.len(),
    ensures
        hex_value(d.take(k)) <= hex_value(d),
    decreases d.len() - k,
{
    if k < d.len() {
        lemma_hex_value_grows(d, k + 1);
        assert(d.take(k + 1).drop_last() =~= d.take(k));
    } else {
        assert(d.take(k) =~= d);
    }
}

fn hex_digit(c: char) -> (v: Option<u64>)
    ensures
        match hex_digit_value(c) {
            Some(w) => v == Some(w as u64) && w < 16,
            None => v is None,
        },
{
    if '0' <= c && c <= '9' {
        Some((c as u32 - '0' as u32) as u64)
    } else if 'a' <= c && c <= 'f' {
        Some((c as u32 - 'a' as u32 + 10) as u64)
    } else if 'A' <= c && c <= 'F' {
        Some((c as u32 - 'A' as u32 + 10) as u64)
    } else {
        None
    }
}

/// Reads a hexadecimal number as `from_str_radix(s, 16)` does for an
/// unsigned type whose largest value is `max`.
pub fn parse_hex(s: &str, max: u64) -> (value: Option<u64>)
    ensures
        match parse_hex_spec(s@) {
            Some(v) => if v <= max { value == Some(v as u64) } else { value is None },
            None => value is None,
        },
{
    let chars = chars_of(s);
    let mut i: usize = 0;
    if chars.len() > 0 && chars[0] == '+' {
        i = 1;
    }
    let ghost d = without_plus(s@);
    let ghost start = i as int;
    assert(d =~= chars@.skip(start));
    if i == chars.len() {
        return None;
    }
    let mut acc: u64 = 0;
    while i < chars.len()
        invariant
            chars@ == s@,
            d == without_plus(s@),
            d == chars@.skip(start),
            0 <= start <= 1,
            start <= i <= chars@.len(),
            acc == hex_value(d.take(i - start)),
            forall|j: int| 0 <= j < i - start ==> (#[trigger] hex_digit_value(d[j])) is Some,
        decreases chars@.len() - i,
    {
        assert(d[i - start] == chars@[i as int]);
        let digit = match hex_digit(chars[i]) {
            Some(v) => v,
            None => {
                assert(hex_digit_value(d[i - start]) is None);
                return None;
            },
        };
        assert(d.take(i - start + 1).drop_last() =~= d.take(i - start));
        assert(hex_value(d.take(i - start + 1)) == acc * 16 + digit);
        match acc.checked_mul(16) {
            Some(m) => match m.checked_add(digit) {
                Some(next) => {
                    acc = next;
                },
                None => {
                    proof {
                        lemma_hex_value_grows(d, i - start + 1);
                    }
                    return None;
                },
            },
            None => {
                proof {
                    lemma_hex_value_grows(d, i - start + 1);
                }
                return None;
            },
        }
        i = i + 1;
    }
    assert(d.take(i - start) =~= d);
    if acc <= max {
        Some(acc)
    } else {
        None
    }
}

/// The host part of an endpoint: IPv4 in dotted-decimal text, IPv6 as its
/// sixteen bytes (written out by the standard library where shown).
#[derive(Debug, Clone, PartialEq, Eq)]
pub enum EndpointAddress {
    V4(String),
    V6(Vec<u8>),
}

/// An IPv4 address stored as a little-endian number, in dotted decimal.
pub open spec fn ipv4_text(v: nat) -> Seq<char> {
    decimal(v % 256) + "."@ + decimal((v / 256) % 256) + "."@ + decimal((v / 65536) % 256) + "."@
        + decimal((v / 16777216) % 256)
}

fn ipv4_from_le(v: u64) -> (text: String)
    requires
        v <= 0xffff_ffff,
    ensures
        text@ == ipv4_text(v as nat),
{
    let mut text = decimal_string(v % 256);
    text.append(".");
    text.append(decimal_string((v / 256) % 256).as_str());
    text.append(".");
    text.append(decimal_string((v / 65536) % 256).as_str());
    text.append(".");
    text.append(decimal_string((v / 16777216) % 256).as_str());
    text
}

/// The bytes of a 32-digit IPv6 address, two hexadecimal digits each.
pub open spec fn ipv6_bytes(address: Seq<char>) -> Option<Seq<u8>> {
    if address.len() == 32 && (forall|k: int| 0 <= k < 16 ==> #[trigger] hex_fits(address.subrange(2 * k, 2 * k + 2), 255)) {
        Some(Seq::new(16, |k: int| parse_hex_spec(address.subrange(2 * k, 2 * k + 2))->0 as u8))
    } else {
        None
    }
}

/// The address and port of a `/proc/net/tcp` endpoint (`ADDRESS:PORT`, both
/// hexadecimal): an IPv4 address is eight digits of a little-endian number,
/// an IPv6 address 32 digits; anything else, or a port beyond 65535, is
/// not an endpoint.
pub open spec fn endpoint_spec(value: Seq<char>, protocol: SocketProtocol) -> Option<(Result<Seq<char>, Seq<u8>>, u16)> {
    match split_once_spec(value, ':') {
        Some((address, port)) => match parse_hex_spec(port) {
            Some(p) if p <= 0xffff => match protocol {
                SocketProtocol::Tcp => if address.len() == 8 && hex_fits(address, 0xffff_ffff) {
                    Some((Ok(ipv4_text(parse_hex_spec(address)->0)), p as u16))
                } else {
                    None
                },
                SocketProtocol::Tcp6 => match ipv6_bytes(address) {
                    Some(b) => Some((Err(b), p as u16)),
                    None => None,
                },
            },
            _ => None,
        },
        None => None,
    }
}

pub open spec fn address_view(a: EndpointAddress) -> Result<Seq<char>, Seq<u8>> {
    match a {
        EndpointAddress::V4(t) => Ok(t@),
        EndpointAddress::V6(b) => Err(b@),
    }
}

fn parse_ipv6(address: &str) -> (bytes: Option<Vec<u8>>)
    ensures
        match (bytes, ipv6_bytes(address@)) {
            (Some(b), Some(c)) => b@ == c,
            (None, None) => true,
            _ => false,
        },
{
    let chars = chars_of(address);
    if chars.len() != 32 {
        return None;
    }
    let mut bytes: Vec<u8> = Vec::new();
    let mut k: usize = 0;
    while k < 16
        invariant
            chars@ == address@,
            chars@.len() == 32,
            k <= 16,
            bytes@.len() == k,
            forall|j: int| 0 <= j < k ==> #[trigger] hex_fits(address@.subrange(2 * j, 2 * j + 2), 255),
            forall|j: int| 0 <= j < k ==> bytes@[j] == (parse_hex_spec(address@.subrange(2 * j, 2 * j + 2))->0 as u8),
        decreases 16 - k,
    {
        let pair = string_from_chars(&chars, 2 * k, 2 * k + 2);
        match parse_hex(pair.as_str(), 255) {
            Some(v) => {
                bytes.push(v as u8);
            },
            None => {
                assert(pair@ == address@.subrange(2 * k as int, 2 * k as int + 2));
                assert(!hex_fits(address@.subrange(2 * k as int, 2 * k as int + 2), 255));
                return None;
            },
        }
        k = k + 1;
    }
    assert(bytes@ =~= Seq::new(16, |k: int| parse_hex_spec(address@.subrange(2 * k, 2 * k + 2))->0 as u8));
    Some(bytes)
}

/// Reads an endpoint of `/proc/net/tcp` or `/proc/net/tcp6`.
pub fn parse_endpoint(value: &str, protocol: SocketProtocol) -> (endpoint: Option<(EndpointAddress, u16)>)
    ensures
        match (endpoint, endpoint_spec(value@, protocol)) {
            (Some((a, p)), Some((b, q))) => address_view(a) == b && p == q,
            (None, None) => true,
            _ => false,
        },
{
    let (address, port) = match split_once(value, ':') {
        Some(parts) => parts,
        None => return None,
    };
    let port = match parse_hex(port.as_str(), 0xffff) {
        Some(p) => p as u16,
        None => return None,
    };
    match protocol {
        SocketProtocol::Tcp => {
            if address.unicode_len() != 8 {
                return None;
            }
            match parse_hex(address.as_str(), 0xffff_ffff) {
                Some(v) => Some((EndpointAddress::V4(ipv4_from_le(v)), port)),
                None => None,
            }
        },
        SocketProtocol::Tcp6 => match parse_ipv6(address.as_str()) {
            Some(bytes) => Some((EndpointAddress::V6(bytes), port)),
            None => None,
        },
    }
}

/// A socket as one line of `/proc/net/tcp` or `/proc/net/tcp6` describes it.
#[derive(Debug, Clone, PartialEq, Eq)]
pub struct RawSocket {
    pub protocol: SocketProtocol,
    pub local_address: EndpointAddress,
    pub local_port: u16,
    pub remote_address: EndpointAddress,
    pub remote_port: u16,
    pub state: String,
    pub uid: u32,
}

/// A socket table line: at least eight whitespace-separated fields, the
/// second and third the local and remote endpoints, the fourth the state and
/// the eighth the owner's uid.
pub open spec fn socket_line_spec(line: Seq<char>, protocol: SocketProtocol, socket: RawSocket) -> bool {
    let f = words(line);
    &&& f.len() >= 8
    &&& endpoint_spec(f[1], protocol) matches Some((a, p)) && address_view(socket.local_address) == a && socket.local_port == p
    &&& endpoint_spec(f[2], protocol) matches Some((b, q)) && address_view(socket.remote_address) == b && socket.remote_port == q
    &&& parse_u32_spec(f[7]) == Some(socket.uid)
    &&& socket.state@ == f[3]
    &&& socket.protocol == protocol
}

/// Whether a line describes a socket at all.
pub open spec fn is_socket_line(line: Seq<char>, protocol: SocketProtocol) -> bool {
    let f = words(line);
    &&& f.len() >= 8
    &&& endpoint_spec(f[1], protocol) is Some
    &&& endpoint_spec(f[2], protocol) is Some
    &&& parse_u32_spec(f[7]) is Some
}

/// Reads one line of a socket table.
pub fn parse_socket_line(line: &str, protocol: SocketProtocol) -> (socket: Option<RawSocket>)
    ensures
        socket is Some <==> is_socket_line(line@, protocol),
        socket matches Some(s) ==> socket_line_spec(line@, protocol, s),
{
    let fields = split_words(line);
    if fields.len() < 8 {
        return None;
    }
    assert(fields@[1]@ == views(fields@)[1]);
    assert(fields@[2]@ == views(fields@)[2]);
    assert(fields@[3]@ == views(fields@)[3]);
    assert(fields@[7]@ == views(fields@)[7]);
    let (local_address, local_port) = match parse_endpoint(fields[1].as_str(), protocol) {
        Some(e) => e,
        None => return None,
    };
    let (remote_address, remote_port) = match parse_endpoint(fields[2].as_str(), protocol) {
        Some(e) => e,
        None => return None,
    };
    let uid = match parse_u32(fields[7].as_str()) {
        Some(u) => u,
        None => return None,
    };
    Some(
        RawSocket {
            protocol,
            local_address,
            local_port,
            remote_address,
            remote_port,
            state: fields[3].clone(),
            uid,
        },
    )
}

/// The sockets read so far across the socket tables.
#[derive(Debug)]
pub struct NetworkScan {
    pub limits: AnalysisLimits,
    pub observations: Vec<SocketObservation>,
    pub skipped_entries: usize,
    pub truncated: bool,
}

impl NetworkScan {
    pub fn new(limits: AnalysisLimits) -> (scan: Self)
        ensures
            scan.limits == limits,
            scan.observations@.len() == 0,
            scan.skipped_entries == 0,
            !scan.truncated,
    {
        NetworkScan { limits, observations: Vec::new(), skipped_entries: 0, truncated: false }
    }

    /// Whether another line may be read: not once `max_sockets` sockets are
    /// held, and the scan is then truncated.
    pub fn may_continue(&mut self) -> (go_on: bool)
        ensures
            go_on == (old(self).observations@.len() < old(self).limits.max_sockets),
            final(self).truncated == (old(self).truncated || !go_on),
            final(self).limits == old(self).limits,
            final(self).observations@ == old(self).observations@,
            final(self).skipped_entries == old(self).skipped_entries,
    {
        if self.observations.len() >= self.limits.max_sockets {
            self.truncated = true;
            false
        } else {
            true
        }
    }

    /// Keeps a socket that was read, while there is room for it.
    pub fn keep(&mut self, observation: SocketObservation)
        requires
            old(self).observations@.len() < old(self).limits.max_sockets,
        ensures
            final(self).observations@ == old(self).observations@.push(observation),
            final(self).limits == old(self).limits,
            final(self).skipped_entries == old(self).skipped_entries,
            final(self).truncated == old(self).truncated,
    {
        self.observations.push(observation);
    }

    /// Counts a line that does not describe a socket.
    pub fn skip(&mut self)
        requires
            old(self).skipped_entries < usize::MAX,
        ensures
            final(self).skipped_entries == old(self).skipped_entries + 1,
            final(self).limits == old(self).limits,
            final(self).observations@ == old(self).observations@,
            final(self).truncated == old(self).truncated,
    {
        self.skipped_entries = self.skipped_entries + 1;
    }
}

/// The sockets in the state with code `state` (`01` established, `0A` listening).
pub open spec fn in_state(observations: Seq<SocketObservation>, state: Seq<char>) -> Seq<SocketObservation>
    decreases observations.len(),
{
    if observations.len() == 0 {
        seq![]
    } else {
        let before = in_state(observations.drop_last(), state);
        if observations.last().state@ == state {
            before.push(observations.last())
        } else {
            before
        }
    }
}

fn clone_observation(o: &SocketObservation) -> (c: SocketObservation)
    ensures
        c == *o,
{
    SocketObservation {
        protocol: o.protocol,
        local_address: o.local_address.clone(),
        local_port: o.local_port,
        remote_address: o.remote_address.clone(),
        remote_port: o.remote_port,
        state: o.state.clone(),
        uid: o.uid,
    }
}

fn select_state(observations: &Vec<SocketObservation>, state: &str) -> (selected: Vec<SocketObservation>)
    ensures
        selected@ == in_state(observations@, state@),
{
    let mut out: Vec<SocketObservation> = Vec::new();
    let mut i: usize = 0;
    while i < observations.len()
        invariant
            i <= observations@.len(),
            out@ == in_state(observations@.take(i as int), state@),
        decreases observations@.len() - i,
    {
        assert(observations@.take(i + 1).drop_last() =~= observations@.take(i as int));
        if str_eq(observations[i].state.as_str(), state) {
            out.push(clone_observation(&observations[i]));
        }
        i = i + 1;
    }
    assert(observations@.take(i as int) =~= observations@);
    out
}

/// Listening sockets by port, then by local address.
pub open spec fn listener_keys(listeners: Seq<SocketObservation>) -> Seq<KeyView> {
    Seq::new(
        listeners.len(),
        |i: int| (listeners[i].local_port as u64, 0u64, listeners[i].local_address@.map_values(|c: char| c as u32), i as usize),
    )
}

/// The kind and description of an anomaly.
pub open spec fn network_anomaly_view(a: NetworkAnomaly) -> (Seq<char>, Seq<char>) {
    (a.kind@, a.description@)
}

/// The anomalies of a scan: a listener on port 0 among those reported, and
/// more established connections than ten times `top_n`; at most `top_n`.
pub open spec fn network_anomalies_spec(port_zero: bool, established: nat, top_n: nat) -> Seq<(Seq<char>, Seq<char>)> {
    let first: Seq<(Seq<char>, Seq<char>)> = if port_zero {
        seq![("invalid-listener"@, "A listening socket reported port 0."@)]
    } else {
        seq![]
    };
    let second: Seq<(Seq<char>, Seq<char>)> = if established > top_n * 10 {
        seq![(
            "connection-volume"@,
            "Observed "@ + decimal(established) + " established TCP connections in the bounded scan."@,
        )]
    } else {
        seq![]
    };
    let all = first + second;
    if all.len() > top_n {
        all.take(top_n as int)
    } else {
        all
    }
}

pub open spec fn picked_sockets(items: Seq<SocketObservation>, positions: Seq<usize>) -> Seq<SocketObservation> {
    positions.map_values(|p: usize| items[p as int])
}

fn top_listeners(listeners: &Vec<SocketObservation>, limit: usize) -> (top: Vec<SocketObservation>)
    ensures
        top@ == picked_sockets(listeners@, ranked_positions(listener_keys(listeners@), limit as nat)),
        top@.len() <= limit,
{
    let mut keys: Vec<RankKey> = Vec::new();
    let mut i: usize = 0;
    while i < listeners.len()
        invariant
            i <= listeners@.len(),
            key_views(keys@) == listener_keys(listeners@).take(i as int),
        decreases listeners@.len() - i,
    {
        let chars = chars_of(listeners[i].local_address.as_str());
        let mut text: Vec<u32> = Vec::new();
        let mut k: usize = 0;
        while k < chars.len()
            invariant
                k <= chars@.len(),
                text@ == chars@.map_values(|c: char| c as u32).take(k as int),
            decreases chars@.len() - k,
        {
            text.push(chars[k] as u32);
            assert(text@ =~= chars@.map_values(|c: char| c as u32).take(k + 1));
            k = k + 1;
        }
        assert(text@ =~= chars@.map_values(|c: char| c as u32));
        let key = RankKey { major: listeners[i].local_port as u64, minor: 0, text, position: i };
        let ghost before = keys@;
        assert(key_view(key) == listener_keys(listeners@)[i as int]);
        keys.push(key);
        assert(key_views(keys@) =~= key_views(before).push(key_view(key)));
        assert(key_views(keys@) =~= listener_keys(listeners@).take(i + 1));
        i = i + 1;
    }
    assert(listener_keys(listeners@).take(i as int) =~= listener_keys(listeners@));
    let ghost kv = key_views(keys@);
    let n = listeners.len();
    let order = rank(keys, limit);
    proof {
        assert forall|k: int| 0 <= k < kv.len() implies (#[trigger] kv[k]).3 == k by {
            assert(kv.len() == n);
        }
        lemma_ranked_positions_in_range(kv, limit as nat);
    }
    let mut out: Vec<SocketObservation> = Vec::new();
    let mut j: usize = 0;
    while j < order.len()
        invariant
            j <= order@.len(),
            forall|k: int| 0 <= k < order@.len() ==> (#[trigger] order@[k]) < listeners@.len(),
            out@ == picked_sockets(listeners@, order@).take(j as int),
        decreases order@.len() - j,
    {
        out.push(clone_observation(&listeners[order[j]]));
        assert(out@ =~= picked_sockets(listeners@, order@).take(j + 1));
        j = j + 1;
    }
    assert(picked_sockets(listeners@, order@).take(j as int) =~= picked_sockets(listeners@, order@));
    out
}

/// Some socket in the sequence reports local port 0.
pub open spec fn has_port_zero(sockets: Seq<SocketObservation>) -> bool {
    exists|i: int| 0 <= i < sockets.len() && (#[trigger] sockets[i]).local_port == 0
}

impl NetworkScan {
    /// The analysis of the sockets read: established connections counted,
    /// the `top_n` listening sockets by port and address, and the anomalies.
    pub fn finish(self) -> (analysis: NetworkAnalysis)
        requires
            self.limits.top_n * 10 <= usize::MAX,
        ensures
            analysis.listening_ports@.len() <= self.limits.top_n,
            analysis.anomalies@.len() <= self.limits.top_n,
            analysis.sockets_scanned == self.observations@.len(),
            analysis.skipped_entries == self.skipped_entries,
            analysis.truncated == self.truncated,
            analysis.established_connections == in_state(self.observations@, "01"@).len(),
            analysis.listening_ports@ == picked_sockets(
                in_state(self.observations@, "0A"@),
                ranked_positions(listener_keys(in_state(self.observations@, "0A"@)), self.limits.top_n as nat),
            ),
            analysis.anomalies@.map_values(|a: NetworkAnomaly| network_anomaly_view(a))
                == network_anomalies_spec(
                has_port_zero(analysis.listening_ports@),
                in_state(self.observations@, "01"@).len(),
                self.limits.top_n as nat,
            ),
    {
        let established = select_state(&self.observations, "01");
        let listening = select_state(&self.observations, "0A");
        let listening_ports = top_listeners(&listening, self.limits.top_n);
        let established_connections = established.len();
        let mut port_zero = false;
        let mut i: usize = 0;
        while i < listening_ports.len()
            invariant
                i <= listening_ports@.len(),
                port_zero == exists|k: int| 0 <= k < i && (#[trigger] listening_ports@[k]).local_port == 0,
            decreases listening_ports@.len() - i,
        {
            if listening_ports[i].local_port == 0 {
                port_zero = true;
            }
            i = i + 1;
        }
        let mut anomalies: Vec<NetworkAnomaly> = Vec::new();
        if port_zero {
            anomalies.push(
                NetworkAnomaly {
                    kind: "invalid-listener".to_owned(),
                    description: "A listening socket reported port 0.".to_owned(),
                },
            );
        }
        if established_connections > self.limits.top_n * 10 {
            let mut description = concat_str("Observed ", decimal_string(established_connections as u64).as_str());
            description.append(" established TCP connections in the bounded scan.");
            anomalies.push(
                NetworkAnomaly { kind: "connection-volume".to_owned(), description },
            );
        }
        anomalies.truncate(self.limits.top_n);
        assert(anomalies@.map_values(|a: NetworkAnomaly| network_anomaly_view(a)) =~= network_anomalies_spec(
            port_zero,
            established_connections as nat,
            self.limits.top_n as nat,
        ));
        NetworkAnalysis {
            sockets_scanned: self.observations.len(),
            skipped_entries: self.skipped_entries,
            truncated: self.truncated,
            listening_ports,
            established_connections,
            anomalies,
        }
    }
}

/// Interfaces by name, ties kept in their order.
pub open spec fn interface_keys(interfaces: Seq<NetworkInterface>) -> Seq<KeyView> {
    Seq::new(
        interfaces.len(),
        |i: int| (0u64, 0u64, interfaces[i].name@.map_values(|c: char| c as u32), i as usize),
    )
}

fn clone_interface(n: &NetworkInterface) -> (c: NetworkInterface)
    ensures
        c == *n,
{
    NetworkInterface { name: n.name.clone(), is_up: n.is_up, rx_bytes: n.rx_bytes, tx_bytes: n.tx_bytes }
}

/// The interfaces in name order (a stable sort).
pub fn order_interfaces(interfaces: &Vec<NetworkInterface>) -> (ordered: Vec<NetworkInterface>)
    ensures
        ordered@ == ranked_positions(interface_keys(interfaces@), interfaces@.len()).map_values(
            |p: usize| interfaces@[p as int],
        ),
{
    let mut keys: Vec<RankKey> = Vec::new();
    let mut i: usize = 0;
    while i < interfaces.len()
        invariant
            i <= interfaces@.len(),
            key_views(keys@) == interface_keys(interfaces@).take(i as int),
        decreases interfaces@.len() - i,
    {
        let chars = chars_of(interfaces[i].name.as_str());
        let mut text: Vec<u32> = Vec::new();
        let mut k: usize = 0;
        while k < chars.len()
            invariant
                k <= chars@.len(),
                text@ == chars@.map_values(|c: char| c as u32).take(k as int),
            decreases chars@.len() - k,
        {
            text.push(chars[k] as u32);
            assert(text@ =~= chars@.map_values(|c: char| c as u32).take(k + 1));
            k = k + 1;
        }
        assert(text@ =~= chars@.map_values(|c: char| c as u32));
        let key = RankKey { major: 0, minor: 0, text, position: i };
        let ghost before = keys@;
        assert(key_view(key) == interface_keys(interfaces@)[i as int]);
        keys.push(key);
        assert(key_views(keys@) =~= key_views(before).push(key_view(key)));
        assert(key_views(keys@) =~= interface_keys(interfaces@).take(i + 1));
        i = i + 1;
    }
    assert(interface_keys(interfaces@).take(i as int) =~= interface_keys(interfaces@));
    let ghost kv = key_views(keys@);
    let n = interfaces.len();
    let order = rank(keys, n);
    proof {
        assert forall|k: int| 0 <= k < kv.len() implies (#[trigger] kv[k]).3 == k by {
            assert(kv.len() == n);
        }
        lemma_ranked_positions_in_range(kv, n as nat);
    }
    let mut out: Vec<NetworkInterface> = Vec::new();
    let mut j: usize = 0;
    while j < order.len()
        invariant
            j <= order@.len(),
            forall|k: int| 0 <= k < order@.len() ==> (#[trigger] order@[k]) < interfaces@.len(),
            out@ == order@.map_values(|p: usize| interfaces@[p as int]).take(j as int),
        decreases order@.len() - j,
    {
        out.push(clone_interface(&interfaces[order[j]]));
        assert(out@ =~= order@.map_values(|p: usize| interfaces@[p as int]).take(j + 1));
        j = j + 1;
    }
    assert(order@.map_values(|p: usize| interfaces@[p as int]).take(j as int) =~= order@.map_values(
        |p: usize| interfaces@[p as int],
    ));
    out
}

/// The listening sockets a scan reports come in port order.
pub proof fn lemma_listeners_in_port_order(listeners: Seq<SocketObservation>, limit: nat)
    requires
        listeners.len() <= usize::MAX,
    ensures
        ({
            let top = picked_sockets(listeners, ranked_positions(listener_keys(listeners), limit));
            forall|a: int, b: int|
                #![trigger top[a], top[b]]
                0 <= a < b < top.len() ==> top[a].local_port <= top[b].local_port
        }),
{
    let keys = listener_keys(listeners);
    assert forall|i: int| 0 <= i < keys.len() implies (#[trigger] keys[i]).3 == i by {}
    lemma_ranked_in_key_order(keys, limit);
    lemma_ranked_positions_in_range(keys, limit);
    let r = ranked_positions(keys, limit);
    let top = picked_sockets(listeners, r);
    assert forall|a: int, b: int|
        #![trigger top[a], top[b]]
        0 <= a < b < top.len() implies top[a].local_port <= top[b].local_port by {
        assert(key_le(keys[r[a] as int], keys[r[b] as int]));
    }
}

} // verus!
