//! Network diagnostics, the network layer handler, statistics and the
//! security filter.

use vstd::prelude::*;

use super::routing::{RouterInfo, RouterInfoView};
use super::{contains_u16, opt_addr_view, NetworkAddress, NetworkError, Npdu, NpduControl};

verus! {

/// The first index of `keys` holding `k`, if any.
pub open spec fn first_index_of<K>(keys: Seq<K>, k: K) -> Option<int> {
    if exists|i: int| 0 <= i < keys.len() && keys[i] == k {
        Some(choose|i: int| 0 <= i < keys.len() && keys[i] == k && forall|j: int| 0 <= j < i ==> keys[j] != k)
    } else {
        None
    }
}

/// The keys of a keyed sequence.
pub open spec fn keys_of<V>(s: Seq<(u16, V)>) -> Seq<u16> {
    s.map_values(|e: (u16, V)| e.0)
}

/// The first index of `s` whose key is `k`, if any.
pub open spec fn first_key_index<V>(s: Seq<(u16, V)>, k: u16) -> Option<int> {
    first_index_of(keys_of(s), k)
}

/// `s` with the value of key `k` set to `v`: the first entry with that
/// key is replaced, or a new entry is added at the end.
pub open spec fn upsert<V>(s: Seq<(u16, V)>, k: u16, v: V) -> Seq<(u16, V)> {
    match first_key_index(s, k) {
        Some(i) => s.update(i, (k, v)),
        None => s.push((k, v)),
    }
}

/// The value of the first entry of `s` with key `k`.
pub open spec fn lookup<V>(s: Seq<(u16, V)>, k: u16) -> Option<V> {
    match first_key_index(s, k) {
        Some(i) => Some(s[i].1),
        None => None,
    }
}

/// The first index found by a scan from the front is the one
/// `first_index_of` names.
pub proof fn lemma_first_index_of<K>(keys: Seq<K>, k: K, i: int)
    requires
        0 <= i < keys.len(),
        keys[i] == k,
        forall|j: int| 0 <= j < i ==> keys[j] != k,
    ensures
        first_index_of(keys, k) == Some(i),
{
    lemma_minimal_exists(keys, k, i);
    let c = choose|c: int| 0 <= c < keys.len() && keys[c] == k && forall|j: int| 0 <= j < c ==> keys[j] != k;
    assert(0 <= c < keys.len() && keys[c] == k && forall|j: int| 0 <= j < c ==> keys[j] != k);
    if c < i {
        assert(keys[c] != k);
    } else if c > i {
        assert(keys[i] != k);
    }
}

/// A key absent from `keys` has no first index.
pub proof fn lemma_first_index_of_none<K>(keys: Seq<K>, k: K)
    requires
        forall|j: int| 0 <= j < keys.len() ==> keys[j] != k,
    ensures
        first_index_of(keys, k) is None,
{
}

/// Where a key occurs, it has a first occurrence.
proof fn lemma_minimal_exists<K>(keys: Seq<K>, k: K, i: int)
    requires
        0 <= i < keys.len(),
        keys[i] == k,
    ensures
        exists|m: int| 0 <= m < keys.len() && keys[m] == k && forall|j: int| 0 <= j < m ==> keys[j] != k,
    decreases i,
{
    if exists|j: int| 0 <= j < i && keys[j] == k {
        let j = choose|j: int| 0 <= j < i && keys[j] == k;
        lemma_minimal_exists(keys, k, j);
    } else {
        assert(0 <= i < keys.len() && keys[i] == k && forall|j: int| 0 <= j < i ==> keys[j] != k);
    }
}

/// The first index names a place holding the key, with none before it.
pub proof fn lemma_first_index_of_some<K>(keys: Seq<K>, k: K)
    ensures
        first_index_of(keys, k) matches Some(i) ==> 0 <= i < keys.len() && keys[i] == k
            && forall|j: int| 0 <= j < i ==> keys[j] != k,
{
    if exists|i: int| 0 <= i < keys.len() && keys[i] == k {
        let i = choose|i: int| 0 <= i < keys.len() && keys[i] == k;
        lemma_minimal_exists(keys, k, i);
    }
}

/// Finds the first index of a key in a keyed vector.
fn find_key<V>(s: &Vec<(u16, V)>, k: u16) -> (r: Option<usize>)
    ensures
        match r {
            Some(i) => first_key_index(s@, k) == Some(i as int) && i < s@.len(),
            None => first_key_index(s@, k) is None,
        },
{
    let mut i: usize = 0;
    while i < s.len()
        invariant
            i <= s@.len(),
            forall|j: int| 0 <= j < i ==> s@[j].0 != k,
        decreases s@.len() - i,
    {
        assert(keys_of(s@)[i as int] == s@[i as int].0);
        if s[i].0 == k {
            proof {
                lemma_first_index_of(keys_of(s@), k, i as int);
            }
            return Some(i);
        }
        i = i + 1;
    }
    proof {
        lemma_first_index_of_none(keys_of(s@), k);
    }
    None
}

/// Sets the value of key `k` in a keyed vector.
fn upsert_vec<V>(s: &mut Vec<(u16, V)>, k: u16, v: V)
    ensures
        final(s)@ == upsert(old(s)@, k, v),
{
    match find_key(s, k) {
        Some(i) => {
            s.set(i, (k, v));
        },
        None => {
            s.push((k, v));
        },
    }
}

/// Finds the first router health entry at `address`.
fn find_health(v: &Vec<(NetworkAddress, RouterHealth)>, address: &NetworkAddress) -> (r: Option<usize>)
    ensures
        match r {
            Some(i) => first_index_of(health_keys(v@), address@) == Some(i as int) && i < v@.len(),
            None => first_index_of(health_keys(v@), address@) is None,
        },
{
    let ghost keys = health_keys(v@);
    let mut i: usize = 0;
    while i < v.len()
        invariant
            keys == health_keys(v@),
            i <= v@.len(),
            forall|j: int| 0 <= j < i ==> keys[j] != address@,
        decreases v@.len() - i,
    {
        assert(keys[i as int] == v@[i as int].0@);
        if v[i].0.same_as(address) {
            proof {
                lemma_first_index_of(keys, address@, i as int);
            }
            return Some(i);
        }
        i = i + 1;
    }
    proof {
        lemma_first_index_of_none(keys, address@);
    }
    None
}

/// Finds the first router entry at `address`.
fn find_router_at(v: &Vec<RouterInfo>, address: &NetworkAddress) -> (r: Option<usize>)
    ensures
        match r {
            Some(i) => first_index_of(router_addresses(v@), address@) == Some(i as int) && i < v@.len(),
            None => first_index_of(router_addresses(v@), address@) is None,
        },
{
    let ghost keys = router_addresses(v@);
    let mut i: usize = 0;
    while i < v.len()
        invariant
            keys == router_addresses(v@),
            i <= v@.len(),
            forall|j: int| 0 <= j < i ==> keys[j] != address@,
        decreases v@.len() - i,
    {
        assert(keys[i as int] == v@[i as int].address@);
        if v[i].address.same_as(address) {
            proof {
                lemma_first_index_of(keys, address@, i as int);
            }
            return Some(i);
        }
        i = i + 1;
    }
    proof {
        lemma_first_index_of_none(keys, address@);
    }
    None
}

/// Network status.
#[derive(Debug, Clone, Copy, PartialEq, Eq, Structural)]
pub enum NetworkStatus {
    Reachable,
    Unreachable,
    Degraded,
    Unknown,
}

/// Router health information.
#[derive(Debug, Clone, Copy, PartialEq, Eq, Structural)]
pub struct RouterHealth {
    /// Router is responding
    pub responsive: bool,
    /// Error count
    pub error_count: u32,
    /// Performance index
    pub performance_index: u8,
}

/// Network diagnostics: reachability, router health and latency.
#[derive(Debug)]
pub struct NetworkDiagnostics {
    /// Network reachability status
    pub network_status: Vec<(u16, NetworkStatus)>,
    /// Router health information
    pub router_health: Vec<(NetworkAddress, RouterHealth)>,
    /// Network latency measurements (network, latency in ms)
    pub latency_measurements: Vec<(u16, u32)>,
}

/// The views of router health entries.
pub open spec fn health_view(s: Seq<(NetworkAddress, RouterHealth)>) -> Seq<((u16, Seq<u8>), RouterHealth)> {
    s.map_values(|e: (NetworkAddress, RouterHealth)| (e.0@, e.1))
}

/// The addresses of router health entries.
pub open spec fn health_keys(s: Seq<(NetworkAddress, RouterHealth)>) -> Seq<(u16, Seq<u8>)> {
    s.map_values(|e: (NetworkAddress, RouterHealth)| e.0@)
}

/// How many entries of `s` have status `status`.
pub open spec fn status_count(s: Seq<(u16, NetworkStatus)>, status: NetworkStatus) -> nat
    decreases s.len(),
{
    if s.len() == 0 {
        0
    } else {
        status_count(s.drop_last(), status) + if s.last().1 == status { 1nat } else { 0nat }
    }
}

/// The sum of the latencies of `s`.
pub open spec fn latency_sum(s: Seq<(u16, u32)>) -> nat
    decreases s.len(),
{
    if s.len() == 0 {
        0
    } else {
        latency_sum(s.drop_last()) + s.last().1 as nat
    }
}

/// Whether a status counts as unhealthy.
pub open spec fn unhealthy(s: NetworkStatus) -> bool {
    s == NetworkStatus::Unreachable || s == NetworkStatus::Degraded
}

/// The networks of `s` whose status is unhealthy, in order.
pub open spec fn unhealthy_networks(s: Seq<(u16, NetworkStatus)>) -> Seq<u16>
    decreases s.len(),
{
    if s.len() == 0 {
        seq![]
    } else {
        let rest = unhealthy_networks(s.drop_last());
        if unhealthy(s.last().1) {
            rest.push(s.last().0)
        } else {
            rest
        }
    }
}

impl NetworkDiagnostics {
    /// Empty diagnostics.
    pub fn new() -> (r: Self)
        ensures
            r.network_status@.len() == 0,
            r.router_health@.len() == 0,
            r.latency_measurements@.len() == 0,
    {
        NetworkDiagnostics { network_status: Vec::new(), router_health: Vec::new(), latency_measurements: Vec::new() }
    }

    /// Sets the status of a network.
    pub fn update_network_status(&mut self, network: u16, status: NetworkStatus)
        ensures
            final(self).network_status@ == upsert(old(self).network_status@, network, status),
            final(self).router_health@ == old(self).router_health@,
            final(self).latency_measurements@ == old(self).latency_measurements@,
    {
        upsert_vec(&mut self.network_status, network, status);
    }

    /// Sets the health of the router at `address`: the first entry at
    /// that address is replaced, or a new entry is added at the end.
    pub fn update_router_health(&mut self, address: NetworkAddress, health: RouterHealth)
        ensures
            health_view(final(self).router_health@) == (match first_index_of(health_keys(old(self).router_health@), address@) {
                Some(i) => health_view(old(self).router_health@).update(i, (address@, health)),
                None => health_view(old(self).router_health@).push((address@, health)),
            }),
            final(self).network_status@ == old(self).network_status@,
            final(self).latency_measurements@ == old(self).latency_measurements@,
    {
        let ghost old_h = self.router_health@;
        let ghost a = address@;
        match find_health(&self.router_health, &address) {
            Some(i) => {
                self.router_health.set(i, (address, health));
                assert(health_view(self.router_health@) =~= health_view(old_h).update(i as int, (a, health)));
            },
            None => {
                self.router_health.push((address, health));
                assert(health_view(self.router_health@) =~= health_view(old_h).push((a, health)));
            },
        }
    }

    /// Records the latency of a network.
    pub fn record_latency(&mut self, network: u16, latency_ms: u32)
        ensures
            final(self).latency_measurements@ == upsert(old(self).latency_measurements@, network, latency_ms),
            final(self).network_status@ == old(self).network_status@,
            final(self).router_health@ == old(self).router_health@,
    {
        upsert_vec(&mut self.latency_measurements, network, latency_ms);
    }

    /// The status of a network, `Unknown` if none was recorded.
    pub fn get_network_status(&self, network: u16) -> (r: NetworkStatus)
        ensures
            r == (match lookup(self.network_status@, network) {
                Some(s) => s,
                None => NetworkStatus::Unknown,
            }),
    {
        match find_key(&self.network_status, network) {
            Some(i) => self.network_status[i].1,
            None => NetworkStatus::Unknown,
        }
    }

    /// The health of the first router entry at `address`, if any.
    pub fn get_router_health(&self, address: &NetworkAddress) -> (r: Option<&RouterHealth>)
        ensures
            match first_index_of(health_keys(self.router_health@), address@) {
                Some(i) => r matches Some(h) && *h == self.router_health@[i].1,
                None => r is None,
            },
    {
        match find_health(&self.router_health, address) {
            Some(i) => Some(&self.router_health[i].1),
            None => None,
        }
    }

    /// The latency recorded for a network.
    pub fn get_average_latency(&self, network: u16) -> (r: Option<u32>)
        ensures
            r == lookup(self.latency_measurements@, network),
    {
        match find_key(&self.latency_measurements, network) {
            Some(i) => Some(self.latency_measurements[i].1),
            None => None,
        }
    }

    /// How many networks have status `status`.
    pub fn count_status(&self, status: NetworkStatus) -> (r: usize)
        ensures
            r == status_count(self.network_status@, status),
    {
        let ghost s = self.network_status@;
        let mut n: usize = 0;
        let mut i: usize = 0;
        while i < self.network_status.len()
            invariant
                s == self.network_status@,
                i <= s.len(),
                n == status_count(s.take(i as int), status),
                n <= i,
            decreases s.len() - i,
        {
            assert(s.take(i as int + 1).drop_last() =~= s.take(i as int));
            if self.network_status[i].1 == status {
                n = n + 1;
            }
            i = i + 1;
        }
        assert(s.take(i as int) =~= s);
        n
    }

    /// The sum of the latencies recorded.
    pub fn latency_total(&self) -> (r: u64)
        requires
            self.latency_measurements@.len() <= u32::MAX,
        ensures
            r == latency_sum(self.latency_measurements@),
    {
        let ghost s = self.latency_measurements@;
        let mut total: u64 = 0;
        let mut i: usize = 0;
        while i < self.latency_measurements.len()
            invariant
                s == self.latency_measurements@,
                s.len() <= u32::MAX,
                i <= s.len(),
                total == latency_sum(s.take(i as int)),
                total <= i * 0xFFFF_FFFF,
            decreases s.len() - i,
        {
            assert(s.take(i as int + 1).drop_last() =~= s.take(i as int));
            assert(total + 0xFFFF_FFFF <= (i + 1) * 0xFFFF_FFFF) by (nonlinear_arith)
                requires
                    total <= i * 0xFFFF_FFFF,
            ;
            assert((i + 1) * 0xFFFF_FFFF <= 0xFFFF_FFFF * 0xFFFF_FFFF) by (nonlinear_arith)
                requires
                    i + 1 <= 0xFFFF_FFFF,
            ;
            total = total + self.latency_measurements[i].1 as u64;
            i = i + 1;
        }
        assert(s.take(i as int) =~= s);
        total
    }

    /// The networks whose status is unreachable or degraded, in order.
    pub fn get_unhealthy_networks(&self) -> (r: Vec<u16>)
        ensures
            r@ == unhealthy_networks(self.network_status@),
    {
        let mut out: Vec<u16> = Vec::new();
        let mut i: usize = 0;
        while i < self.network_status.len()
            invariant
                i <= self.network_status@.len(),
                out@ == unhealthy_networks(self.network_status@.subrange(0, i as int)),
            decreases self.network_status@.len() - i,
        {
            let (network, status) = self.network_status[i];
            assert(self.network_status@.subrange(0, i + 1).drop_last() =~= self.network_status@.subrange(0, i as int));
            if status == NetworkStatus::Unreachable || status == NetworkStatus::Degraded {
                out.push(network);
            }
            i = i + 1;
        }
        assert(self.network_status@.subrange(0, i as int) =~= self.network_status@);
        out
    }
}

/// What a later lookup of a key gives after setting it: the value set.
pub proof fn lemma_upsert_then_lookup<V>(s: Seq<(u16, V)>, k: u16, v: V)
    ensures
        lookup(upsert(s, k, v), k) == Some(v),
{
    let t = upsert(s, k, v);
    let ks = keys_of(s);
    lemma_first_index_of_some(ks, k);
    match first_key_index(s, k) {
        Some(i) => {
            assert(keys_of(t) =~= ks.update(i, k));
            lemma_first_index_of(keys_of(t), k, i);
        },
        None => {
            assert(forall|j: int| 0 <= j < ks.len() ==> ks[j] != k);
            assert(keys_of(t) =~= ks.push(k));
            lemma_first_index_of(keys_of(t), k, s.len() as int);
        },
    }
}

/// Network layer statistics.
#[derive(Debug, Clone, Copy, PartialEq, Eq, Structural)]
pub struct NetworkStatistics {
    /// Total NPDUs received
    pub npdus_received: u64,
    /// Total NPDUs sent
    pub npdus_sent: u64,
    /// Routing failures
    pub routing_failures: u64,
    /// Messages forwarded
    pub messages_forwarded: u64,
    /// Network layer errors
    pub network_errors: u64,
}

impl Default for NetworkStatistics {
    /// All counters zero.
    fn default() -> (r: Self)
        ensures
            r == (NetworkStatistics { npdus_received: 0, npdus_sent: 0, routing_failures: 0, messages_forwarded: 0, network_errors: 0 }),
    {
        NetworkStatistics { npdus_received: 0, npdus_sent: 0, routing_failures: 0, messages_forwarded: 0, network_errors: 0 }
    }
}

impl NetworkStatistics {
    /// Counts a received NPDU.
    pub fn record_received(&mut self)
        requires
            old(self).npdus_received < u64::MAX,
        ensures
            *final(self) == (NetworkStatistics { npdus_received: (old(self).npdus_received + 1) as u64, ..*old(self) }),
    {
        self.npdus_received = self.npdus_received + 1;
    }

    /// Counts a sent NPDU.
    pub fn record_sent(&mut self)
        requires
            old(self).npdus_sent < u64::MAX,
        ensures
            *final(self) == (NetworkStatistics { npdus_sent: (old(self).npdus_sent + 1) as u64, ..*old(self) }),
    {
        self.npdus_sent = self.npdus_sent + 1;
    }

    /// Counts a routing failure, which is also a network error.
    pub fn record_routing_failure(&mut self)
        requires
            old(self).routing_failures < u64::MAX,
            old(self).network_errors < u64::MAX,
        ensures
            *final(self) == (NetworkStatistics {
                routing_failures: (old(self).routing_failures + 1) as u64,
                network_errors: (old(self).network_errors + 1) as u64,
                ..*old(self)
            }),
    {
        self.routing_failures = self.routing_failures + 1;
        self.network_errors = self.network_errors + 1;
    }

    /// Counts a forwarded message.
    pub fn record_forwarded(&mut self)
        requires
            old(self).messages_forwarded < u64::MAX,
        ensures
            *final(self) == (NetworkStatistics { messages_forwarded: (old(self).messages_forwarded + 1) as u64, ..*old(self) }),
    {
        self.messages_forwarded = self.messages_forwarded + 1;
    }
}

/// Network layer response types.
#[derive(Debug)]
pub enum NetworkResponse {
    /// Application layer data (pass through)
    ApplicationData,
    /// Network layer message response
    NetworkMessage(Npdu),
    /// Routing table update
    RoutingUpdate(Vec<RouterInfo>),
}

/// Network layer message handler.
#[derive(Debug)]
pub struct NetworkLayerHandler {
    /// Local network number
    pub local_network: u16,
    /// Router information cache
    pub routers: Vec<RouterInfo>,
    /// Network statistics
    pub stats: NetworkStatistics,
}

/// The views of router entries.
pub open spec fn router_views(s: Seq<RouterInfo>) -> Seq<RouterInfoView> {
    s.map_values(|r: RouterInfo| r@)
}

/// The addresses of router entries.
pub open spec fn router_addresses(s: Seq<RouterInfo>) -> Seq<(u16, Seq<u8>)> {
    s.map_values(|r: RouterInfo| r.address@)
}

/// A header for a network layer message of normal priority.
pub open spec fn network_message_npdu() -> super::NpduView {
    (1u8, NpduControl { network_message: true, destination_present: false, source_present: false, expecting_reply: false, priority: 3 }, None, None, None)
}

/// Whether router entry `r` reaches `network`, and has the least
/// performance index (none counting as 255) of those before it that do.
pub open spec fn best_router_at(s: Seq<RouterInfoView>, network: u16, i: int) -> bool {
    &&& 0 <= i < s.len()
    &&& s[i].0.contains(network)
    &&& forall|j: int| 0 <= j < s.len() && s[j].0.contains(network) ==> index_or_255(s[i].2) <= index_or_255(s[j].2)
    &&& forall|j: int| 0 <= j < i && s[j].0.contains(network) ==> index_or_255(s[i].2) < index_or_255(s[j].2)
}

/// A performance index, none counting as 255.
pub open spec fn index_or_255(p: Option<u8>) -> u8 {
    match p {
        Some(x) => x,
        None => 255,
    }
}

impl NetworkLayerHandler {
    /// A handler for `local_network` with no routers and zero statistics.
    pub fn new(local_network: u16) -> (r: Self)
        ensures
            r.local_network == local_network,
            r.routers@.len() == 0,
            r.stats == NetworkStatistics::default_value(),
    {
        NetworkLayerHandler { local_network, routers: Vec::new(), stats: NetworkStatistics::default() }
    }

    /// Processes an incoming NPDU: counts it, and answers that an
    /// application NPDU carries application data; a network layer message
    /// gets no answer.
    pub fn process_npdu(&mut self, npdu: &Npdu, source_address: &NetworkAddress) -> (r: Result<Option<NetworkResponse>, NetworkError>)
        requires
            old(self).stats.npdus_received < u64::MAX,
        ensures
            final(self).stats == (NetworkStatistics { npdus_received: (old(self).stats.npdus_received + 1) as u64, ..old(self).stats }),
            final(self).local_network == old(self).local_network,
            router_views(final(self).routers@) == router_views(old(self).routers@),
            npdu.control.network_message ==> r matches Ok(None),
            !npdu.control.network_message ==> r matches Ok(Some(NetworkResponse::ApplicationData)),
    {
        self.stats.record_received();
        if npdu.is_network_message() {
            self.process_network_message(npdu, source_address)
        } else {
            Ok(Some(NetworkResponse::ApplicationData))
        }
    }

    /// Processes a network layer message (nothing is answered).
    fn process_network_message(&mut self, _npdu: &Npdu, _source_address: &NetworkAddress) -> (r: Result<Option<NetworkResponse>, NetworkError>)
        ensures
            r matches Ok(None),
            final(self).stats == old(self).stats,
            final(self).local_network == old(self).local_network,
            router_views(final(self).routers@) == router_views(old(self).routers@),
    {
        Ok(None)
    }

    /// A Who-Is-Router-To-Network header: a network layer message of
    /// priority 3 with no addresses; the sent count goes up.
    pub fn who_is_router(&mut self, _network: Option<u16>) -> (r: Npdu)
        requires
            old(self).stats.npdus_sent < u64::MAX,
        ensures
            r@ == network_message_npdu(),
            final(self).stats == (NetworkStatistics { npdus_sent: (old(self).stats.npdus_sent + 1) as u64, ..old(self).stats }),
            final(self).local_network == old(self).local_network,
            router_views(final(self).routers@) == router_views(old(self).routers@),
    {
        self.stats.record_sent();
        let mut npdu = Npdu::new();
        npdu.control.network_message = true;
        npdu.control.priority = 3;
        npdu
    }

    /// An I-Am-Router-To-Network header: a network layer message of
    /// priority 3 with no addresses; the sent count goes up.
    pub fn i_am_router(&mut self, _networks: &[u16]) -> (r: Npdu)
        requires
            old(self).stats.npdus_sent < u64::MAX,
        ensures
            r@ == network_message_npdu(),
            final(self).stats == (NetworkStatistics { npdus_sent: (old(self).stats.npdus_sent + 1) as u64, ..old(self).stats }),
            final(self).local_network == old(self).local_network,
            router_views(final(self).routers@) == router_views(old(self).routers@),
    {
        self.stats.record_sent();
        let mut npdu = Npdu::new();
        npdu.control.network_message = true;
        npdu.control.priority = 3;
        npdu
    }

    /// Records a router: the first entry at the same address gets its
    /// networks and performance index replaced, otherwise the entry is added.
    pub fn update_router(&mut self, router_info: RouterInfo)
        ensures
            router_views(final(self).routers@) == (match first_index_of(router_addresses(old(self).routers@), router_info.address@) {
                Some(i) => router_views(old(self).routers@).update(i, router_info@),
                None => router_views(old(self).routers@).push(router_info@),
            }),
            final(self).stats == old(self).stats,
            final(self).local_network == old(self).local_network,
    {
        let ghost old_r = self.routers@;
        let ghost v = router_info@;
        match find_router_at(&self.routers, &router_info.address) {
            Some(i) => {
                let existing_address = self.routers[i].address.duplicate();
                let updated = RouterInfo {
                    networks: router_info.networks,
                    address: existing_address,
                    performance_index: router_info.performance_index,
                };
                self.routers.set(i, updated);
                proof {
                    lemma_first_index_of_some(router_addresses(old_r), v.1);
                }
                assert(router_views(self.routers@) =~= router_views(old_r).update(i as int, v));
            },
            None => {
                self.routers.push(router_info);
                assert(router_views(self.routers@) =~= router_views(old_r).push(v));
            },
        }
    }

    /// The router reaching `network` with the least performance index
    /// (none counting as 255), the first such one on a tie.
    pub fn find_router(&self, network: u16) -> (r: Option<&RouterInfo>)
        ensures
            r matches Some(x) ==> exists|i: int| #[trigger] best_router_at(router_views(self.routers@), network, i)
                && x@ == router_views(self.routers@)[i],
            r is None ==> forall|i: int| 0 <= i < self.routers@.len() ==> !self.routers@[i].networks@.contains(network),
    {
        let ghost s = router_views(self.routers@);
        let mut best: Option<usize> = None;
        let mut i: usize = 0;
        while i < self.routers.len()
            invariant
                s == router_views(self.routers@),
                i <= self.routers@.len(),
                match best {
                    None => forall|j: int| 0 <= j < i ==> !s[j].0.contains(network),
                    Some(b) => b < i && s[b as int].0.contains(network)
                        && (forall|j: int| 0 <= j < i && s[j].0.contains(network) ==> index_or_255(s[b as int].2) <= index_or_255(s[j].2))
                        && (forall|j: int| 0 <= j < b && s[j].0.contains(network) ==> index_or_255(s[b as int].2) < index_or_255(s[j].2)),
                },
            decreases self.routers@.len() - i,
        {
            assert(s[i as int] == self.routers@[i as int]@);
            if contains_u16(&self.routers[i].networks, network) {
                let p: u8 = match self.routers[i].performance_index {
                    Some(x) => x,
                    None => 255,
                };
                match best {
                    None => {
                        best = Some(i);
                    },
                    Some(b) => {
                        let q: u8 = match self.routers[b].performance_index {
                            Some(x) => x,
                            None => 255,
                        };
                        if p < q {
                            best = Some(i);
                        }
                    },
                }
            }
            i = i + 1;
        }
        match best {
            Some(b) => {
                proof {
                    assert(best_router_at(s, network, b as int));
                    assert(s[b as int] == self.routers@[b as int]@);
                    assert(best_router_at(router_views(self.routers@), network, b as int));
                }
                let res = &self.routers[b];
                assert(res@ == router_views(self.routers@)[b as int]);
                assert(exists|i: int| best_router_at(router_views(self.routers@), network, i) && res@ == router_views(self.routers@)[i]);
                Some(res)
            },
            None => {
                assert forall|j: int| 0 <= j < self.routers@.len() implies !self.routers@[j].networks@.contains(network) by {
                    assert(s[j] == self.routers@[j]@);
                }
                None
            },
        }
    }
}

impl NetworkStatistics {
    /// All counters zero.
    pub open spec fn default_value() -> Self {
        NetworkStatistics { npdus_received: 0, npdus_sent: 0, routing_failures: 0, messages_forwarded: 0, network_errors: 0 }
    }
}

/// Security statistics.
#[derive(Debug, Clone, Copy, PartialEq, Eq, Structural)]
pub struct SecurityStatistics {
    /// Messages accepted
    pub accepted: u64,
    /// Messages rejected
    pub rejected: u64,
    /// Blocked network attempts
    pub blocked_attempts: u64,
}

impl Default for SecurityStatistics {
    /// All counters zero.
    fn default() -> (r: Self)
        ensures
            r == (SecurityStatistics { accepted: 0, rejected: 0, blocked_attempts: 0 }),
    {
        SecurityStatistics { accepted: 0, rejected: 0, blocked_attempts: 0 }
    }
}

/// A filter on the networks messages may come from.
#[derive(Debug)]
pub struct NetworkSecurityManager {
    /// Allowed source networks
    allowed_networks: Vec<u16>,
    /// Blocked source networks
    blocked_networks: Vec<u16>,
    /// Allow broadcasts
    allow_broadcasts: bool,
    /// Security statistics
    security_stats: SecurityStatistics,
}

/// Whether a message with the given source and destination gets through:
/// its source network must not be blocked, must be allowed if an allow
/// list is set, and a broadcast destination needs broadcasts allowed.
pub open spec fn message_accepted(
    allowed: Seq<u16>,
    blocked: Seq<u16>,
    allow_broadcasts: bool,
    source: Option<(u16, Seq<u8>)>,
    destination: Option<(u16, Seq<u8>)>,
) -> bool {
    &&& (source matches Some(s) ==> !blocked.contains(s.0) && (allowed.len() == 0 || allowed.contains(s.0)))
    &&& (!allow_broadcasts ==> !(destination matches Some(d) && d.0 == 0xFFFF))
}

impl NetworkSecurityManager {
    /// The allowed networks.
    pub closed spec fn allowed(&self) -> Seq<u16> {
        self.allowed_networks@
    }

    /// The blocked networks.
    pub closed spec fn blocked(&self) -> Seq<u16> {
        self.blocked_networks@
    }

    /// Whether broadcasts are allowed.
    pub closed spec fn broadcasts_allowed(&self) -> bool {
        self.allow_broadcasts
    }

    /// The statistics.
    pub closed spec fn stats(&self) -> SecurityStatistics {
        self.security_stats
    }

    /// A manager that allows everything, with zero statistics.
    pub fn new() -> (r: Self)
        ensures
            r.allowed().len() == 0,
            r.blocked().len() == 0,
            r.broadcasts_allowed(),
            r.stats() == (SecurityStatistics { accepted: 0, rejected: 0, blocked_attempts: 0 }),
    {
        NetworkSecurityManager {
            allowed_networks: Vec::new(),
            blocked_networks: Vec::new(),
            allow_broadcasts: true,
            security_stats: SecurityStatistics::default(),
        }
    }

    /// Whether a message is accepted; the outcome is counted.
    pub fn check_message(&mut self, npdu: &Npdu) -> (r: bool)
        requires
            old(self).stats().accepted < u64::MAX,
            old(self).stats().rejected < u64::MAX,
            old(self).stats().blocked_attempts < u64::MAX,
        ensures
            r == message_accepted(old(self).allowed(), old(self).blocked(), old(self).broadcasts_allowed(),
                opt_addr_view(npdu.source), opt_addr_view(npdu.destination)),
            final(self).allowed() == old(self).allowed(),
            final(self).blocked() == old(self).blocked(),
            final(self).broadcasts_allowed() == old(self).broadcasts_allowed(),
            r ==> final(self).stats() == (SecurityStatistics { accepted: (old(self).stats().accepted + 1) as u64, ..old(self).stats() }),
            !r ==> final(self).stats().rejected == old(self).stats().rejected + 1 && final(self).stats().accepted == old(self).stats().accepted,
            !r ==> final(self).stats().blocked_attempts == old(self).stats().blocked_attempts + (if (npdu.source matches Some(s)
                && old(self).blocked().contains(s.network)) { 1int } else { 0int }),
    {
        if let Some(source) = &npdu.source {
            if contains_u16(&self.blocked_networks, source.network) {
                self.security_stats.blocked_attempts = self.security_stats.blocked_attempts + 1;
                self.security_stats.rejected = self.security_stats.rejected + 1;
                return false;
            }
            if self.allowed_networks.len() > 0 && !contains_u16(&self.allowed_networks, source.network) {
                self.security_stats.rejected = self.security_stats.rejected + 1;
                return false;
            }
        }
        if !self.allow_broadcasts {
            if let Some(dest) = &npdu.destination {
                if dest.is_broadcast() {
                    self.security_stats.rejected = self.security_stats.rejected + 1;
                    return false;
                }
            }
        }
        self.security_stats.accepted = self.security_stats.accepted + 1;
        true
    }

    /// Adds a network to the allow list.
    pub fn allow_network(&mut self, network: u16)
        ensures
            final(self).allowed() == super::routing::busy_with(old(self).allowed(), network),
            final(self).blocked() == old(self).blocked(),
            final(self).broadcasts_allowed() == old(self).broadcasts_allowed(),
            final(self).stats() == old(self).stats(),
    {
        if !contains_u16(&self.allowed_networks, network) {
            self.allowed_networks.push(network);
        }
    }

    /// Blocks a network, removing it from the allow list.
    pub fn block_network(&mut self, network: u16)
        ensures
            final(self).blocked() == super::routing::busy_with(old(self).blocked(), network),
            final(self).allowed() == super::routing::busy_without(old(self).allowed(), network),
            final(self).broadcasts_allowed() == old(self).broadcasts_allowed(),
            final(self).stats() == old(self).stats(),
    {
        if !contains_u16(&self.blocked_networks, network) {
            self.blocked_networks.push(network);
        }
        self.allowed_networks = super::routing::remove_network(&self.allowed_networks, network);
    }

    /// Allows or refuses broadcasts.
    pub fn set_allow_broadcasts(&mut self, allow: bool)
        ensures
            final(self).broadcasts_allowed() == allow,
            final(self).allowed() == old(self).allowed(),
            final(self).blocked() == old(self).blocked(),
            final(self).stats() == old(self).stats(),
    {
        self.allow_broadcasts = allow;
    }

    /// The statistics.
    pub fn get_stats(&self) -> (r: &SecurityStatistics)
        ensures
            *r == self.stats(),
    {
        &self.security_stats
    }

    /// Resets the statistics to zero.
    pub fn reset_stats(&mut self)
        ensures
            final(self).stats() == (SecurityStatistics { accepted: 0, rejected: 0, blocked_attempts: 0 }),
            final(self).allowed() == old(self).allowed(),
            final(self).blocked() == old(self).blocked(),
            final(self).broadcasts_allowed() == old(self).broadcasts_allowed(),
    {
        self.security_stats = SecurityStatistics::default();
    }
}

impl Default for NetworkSecurityManager {
    fn default() -> (r: Self)
        ensures
            r.allowed().len() == 0,
            r.blocked().len() == 0,
            r.broadcasts_allowed(),
    {
        NetworkSecurityManager::new()
    }
}

/// Once a network is blocked, no message from it is accepted.
pub proof fn lemma_blocked_network_refused(
    allowed: Seq<u16>,
    blocked: Seq<u16>,
    allow_broadcasts: bool,
    network: u16,
    mac: Seq<u8>,
    destination: Option<(u16, Seq<u8>)>,
)
    ensures
        !message_accepted(allowed, super::routing::busy_with(blocked, network), allow_broadcasts, Some((network, mac)), destination),
{
    super::routing::lemma_busy_then_available(blocked, network);
}

} // verus!
