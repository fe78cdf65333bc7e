//! Routing tables and the router manager of the network layer.

use vstd::prelude::*;

use super::{contains_u16, copy_u16s, NetworkAddress, NetworkError, NetworkLayerMessage, NetworkMessageType, Npdu};
use crate::encoding::tag::be16;

verus! {

/// Router information.
#[derive(Debug, Clone)]
pub struct RouterInfo {
    /// Networks this router can reach
    pub networks: Vec<u16>,
    /// Router's address
    pub address: NetworkAddress,
    /// Performance index (lower is better)
    pub performance_index: Option<u8>,
}

/// The abstract content of a router entry.
pub type RouterInfoView = (Seq<u16>, (u16, Seq<u8>), Option<u8>);

impl View for RouterInfo {
    type V = RouterInfoView;

    open spec fn view(&self) -> RouterInfoView {
        (self.networks@, self.address@, self.performance_index)
    }
}

impl RouterInfo {
    /// A copy of this entry.
    pub fn duplicate(&self) -> (r: Self)
        ensures
            r@ == self@,
    {
        RouterInfo {
            networks: copy_u16s(&self.networks),
            address: self.address.duplicate(),
            performance_index: self.performance_index,
        }
    }
}

/// The views of a sequence of router entries.
pub open spec fn routers_view(s: Seq<RouterInfo>) -> Seq<RouterInfoView> {
    s.map_values(|r: RouterInfo| r@)
}

/// The first entry, in order, that reaches `network`.
pub open spec fn first_route(s: Seq<RouterInfoView>, network: u16) -> Option<RouterInfoView>
    decreases s.len(),
{
    if s.len() == 0 {
        None
    } else if s[0].0.contains(network) {
        Some(s[0])
    } else {
        first_route(s.drop_first(), network)
    }
}

/// The view of an optional router entry.
pub open spec fn opt_router_view(r: Option<&RouterInfo>) -> Option<RouterInfoView> {
    match r {
        Some(x) => Some(x@),
        None => None,
    }
}

/// The entries of `s` at another address than `a`.
pub open spec fn routers_not_at(s: Seq<RouterInfoView>, a: (u16, Seq<u8>)) -> Seq<RouterInfoView> {
    s.filter(|r: RouterInfoView| r.1 != a)
}

/// Finds the first entry of `entries` that reaches `network`.
pub fn find_first_route(entries: &Vec<RouterInfo>, network: u16) -> (r: Option<&RouterInfo>)
    ensures
        opt_router_view(r) == first_route(routers_view(entries@), network),
{
    let ghost all = routers_view(entries@);
    let mut i: usize = 0;
    assert(all.subrange(0, all.len() as int) =~= all);
    while i < entries.len()
        invariant
            i <= entries@.len(),
            all == routers_view(entries@),
            first_route(all, network) == first_route(all.subrange(i as int, all.len() as int), network),
        decreases entries@.len() - i,
    {
        let ghost rest = all.subrange(i as int, all.len() as int);
        assert(rest.drop_first() =~= all.subrange(i + 1, all.len() as int));
        assert(rest[0] == entries@[i as int]@);
        if contains_u16(&entries[i].networks, network) {
            return Some(&entries[i]);
        }
        i = i + 1;
    }
    None
}

/// The entries of `entries` whose address differs from `address`, in order.
pub fn routers_without(entries: &Vec<RouterInfo>, address: &NetworkAddress) -> (r: Vec<RouterInfo>)
    ensures
        routers_view(r@) == routers_not_at(routers_view(entries@), address@),
{
    let ghost all = routers_view(entries@);
    let mut out: Vec<RouterInfo> = Vec::new();
    let mut i: usize = 0;
    while i < entries.len()
        invariant
            i <= entries@.len(),
            all == routers_view(entries@),
            routers_view(out@) == routers_not_at(all.subrange(0, i as int), address@),
        decreases entries@.len() - i,
    {
        let ghost before = out@;
        let keep = !entries[i].address.same_as(address);
        if keep {
            out.push(entries[i].duplicate());
        }
        proof {
            let pred = |r: RouterInfoView| r.1 != address@;
            assert(all.subrange(0, i + 1) =~= all.subrange(0, i as int).push(all[i as int]));
            all.subrange(0, i as int).lemma_filter_push(all[i as int], pred);
            if keep {
                assert(routers_view(out@) =~= routers_view(before).push(all[i as int]));
            } else {
                assert(routers_view(out@) =~= routers_view(before));
            }
        }
        i = i + 1;
    }
    assert(all.subrange(0, i as int) =~= all);
    out
}

/// Basic routing table.
#[derive(Debug, Clone)]
pub struct RoutingTable {
    /// Router entries
    pub entries: Vec<RouterInfo>,
}

impl View for RoutingTable {
    type V = Seq<RouterInfoView>;

    open spec fn view(&self) -> Seq<RouterInfoView> {
        routers_view(self.entries@)
    }
}

impl RoutingTable {
    /// An empty routing table.
    pub fn new() -> (r: Self)
        ensures
            r@ == Seq::<RouterInfoView>::empty(),
    {
        let r = RoutingTable { entries: Vec::new() };
        assert(r@ =~= Seq::<RouterInfoView>::empty());
        r
    }

    /// Adds a router entry, replacing any entry at the same address; the
    /// new entry comes last.
    pub fn add_router(&mut self, router: RouterInfo)
        ensures
            final(self)@ == routers_not_at(old(self)@, router.address@).push(router@),
    {
        let mut kept = routers_without(&self.entries, &router.address);
        let ghost v = router@;
        kept.push(router);
        assert(routers_view(kept@) =~= routers_not_at(old(self)@, v.1).push(v));
        self.entries = kept;
    }

    /// The first entry that reaches `network`.
    pub fn find_route(&self, network: u16) -> (r: Option<&RouterInfo>)
        ensures
            opt_router_view(r) == first_route(self@, network),
    {
        find_first_route(&self.entries, network)
    }

    /// Removes every entry at `address`.
    pub fn remove_router(&mut self, address: &NetworkAddress)
        ensures
            final(self)@ == routers_not_at(old(self)@, address@),
    {
        self.entries = routers_without(&self.entries, address);
    }
}

impl Default for RoutingTable {
    fn default() -> (r: Self)
        ensures
            r@ == Seq::<RouterInfoView>::empty(),
    {
        RoutingTable::new()
    }
}

/// After adding a router entry, a network it reaches is routed to it
/// unless an earlier entry at another address already reaches it.
pub proof fn lemma_added_router_found(table: Seq<RouterInfoView>, router: RouterInfoView, network: u16)
    requires
        router.0.contains(network),
    ensures
        first_route(routers_not_at(table, router.1).push(router), network) is Some,
{
    let s = routers_not_at(table, router.1).push(router);
    lemma_first_route_some(s, network, s.len() - 1);
}

/// If some entry reaches `network`, a route to it is found.
pub proof fn lemma_first_route_some(s: Seq<RouterInfoView>, network: u16, i: int)
    requires
        0 <= i < s.len(),
        s[i].0.contains(network),
    ensures
        first_route(s, network) is Some,
    decreases s.len(),
{
    if !s[0].0.contains(network) {
        assert(s.drop_first()[i - 1] == s[i]);
        lemma_first_route_some(s.drop_first(), network, i - 1);
    }
}

/// A route found for `network` reaches it.
pub proof fn lemma_first_route_reaches(s: Seq<RouterInfoView>, network: u16)
    ensures
        first_route(s, network) matches Some(r) ==> r.0.contains(network) && s.contains(r),
    decreases s.len(),
{
    if s.len() > 0 && !s[0].0.contains(network) {
        lemma_first_route_reaches(s.drop_first(), network);
        if let Some(r) = first_route(s, network) {
            let j = choose|j: int| 0 <= j < s.drop_first().len() && s.drop_first()[j] == r;
            assert(s[j + 1] == r);
        }
    } else if s.len() > 0 {
        assert(s[0] == s[0]);
    }
}

/// Router performance metrics.
#[derive(Debug, Clone, Copy, PartialEq, Eq, Structural)]
pub struct RouterPerformanceMetrics {
    /// Total messages routed
    pub messages_routed: u64,
    /// Total routing errors
    pub routing_errors: u64,
    /// Messages dropped due to hop count
    pub hop_count_exceeded: u64,
    /// Network unreachable count
    pub network_unreachable_count: u64,
}

impl Default for RouterPerformanceMetrics {
    /// All counters zero.
    fn default() -> (r: Self)
        ensures
            r == (RouterPerformanceMetrics { messages_routed: 0, routing_errors: 0, hop_count_exceeded: 0, network_unreachable_count: 0 }),
    {
        RouterPerformanceMetrics { messages_routed: 0, routing_errors: 0, hop_count_exceeded: 0, network_unreachable_count: 0 }
    }
}

/// Network layer router manager.
#[derive(Debug)]
pub struct RouterManager {
    /// Local network number
    pub local_network: u16,
    /// Routing table
    pub routing_table: RoutingTable,
    /// Maximum hop count allowed
    pub max_hop_count: u8,
    /// Router busy status per network
    pub busy_networks: Vec<u16>,
    /// Performance metrics
    pub performance_metrics: RouterPerformanceMetrics,
}

/// Whether every counter of the metrics can still be counted up.
pub open spec fn metrics_room(m: RouterPerformanceMetrics) -> bool {
    m.messages_routed < u64::MAX && m.hop_count_exceeded < u64::MAX && m.network_unreachable_count < u64::MAX
}

/// The busy list with `network` added, unless it is already there.
pub open spec fn busy_with(busy: Seq<u16>, network: u16) -> Seq<u16> {
    if busy.contains(network) {
        busy
    } else {
        busy.push(network)
    }
}

/// The busy list without `network`.
pub open spec fn busy_without(busy: Seq<u16>, network: u16) -> Seq<u16> {
    busy.filter(other_than(network))
}

/// The test for a network number other than `network`.
pub open spec fn other_than(network: u16) -> spec_fn(u16) -> bool {
    |n: u16| n != network
}

/// `busy` without any occurrence of `network`, in order.
pub fn remove_network(busy: &Vec<u16>, network: u16) -> (r: Vec<u16>)
    ensures
        r@ == busy_without(busy@, network),
{
    let mut out: Vec<u16> = Vec::new();
    let mut i: usize = 0;
    while i < busy.len()
        invariant
            i <= busy@.len(),
            out@ == busy_without(busy@.subrange(0, i as int), network),
        decreases busy@.len() - i,
    {
        proof {
            assert(busy@.subrange(0, i + 1) =~= busy@.subrange(0, i as int).push(busy@[i as int]));
            busy@.subrange(0, i as int).lemma_filter_push(busy@[i as int], other_than(network));
        }
        if busy[i] != network {
            out.push(busy[i]);
        }
        i = i + 1;
    }
    assert(busy@.subrange(0, i as int) =~= busy@);
    out
}

impl RouterManager {
    /// A router manager for `local_network`, with an empty routing table,
    /// no busy networks, zero metrics and a maximum hop count of 255.
    pub fn new(local_network: u16) -> (r: Self)
        ensures
            r.local_network == local_network,
            r.routing_table@ == Seq::<RouterInfoView>::empty(),
            r.max_hop_count == 255,
            r.busy_networks@ == Seq::<u16>::empty(),
            r.performance_metrics == RouterPerformanceMetrics::default_value(),
    {
        RouterManager {
            local_network,
            routing_table: RoutingTable::new(),
            max_hop_count: 255,
            busy_networks: Vec::new(),
            performance_metrics: RouterPerformanceMetrics::default(),
        }
    }

    /// Routes an NPDU. With no destination, or one on the local network
    /// (or network 0), it is for local delivery (`Ok(None)`). Otherwise a
    /// hop count of 0 is refused (`HopCountExceeded`), any other hop count
    /// is counted down, a busy destination network is refused
    /// (`RoutingError`), and the first router reaching the network is the
    /// next hop (`NetworkUnreachable` if there is none).
    pub fn route_message(&mut self, npdu: &mut Npdu) -> (r: Result<Option<NetworkAddress>, NetworkError>)
        requires
            metrics_room(old(self).performance_metrics),
        ensures
            final(self).local_network == old(self).local_network,
            final(self).routing_table@ == old(self).routing_table@,
            final(self).max_hop_count == old(self).max_hop_count,
            final(self).busy_networks@ == old(self).busy_networks@,
            final(npdu).version == old(npdu).version,
            final(npdu).control == old(npdu).control,
            super::opt_addr_view(final(npdu).destination) == super::opt_addr_view(old(npdu).destination),
            super::opt_addr_view(final(npdu).source) == super::opt_addr_view(old(npdu).source),
            match old(npdu).destination {
                None => r matches Ok(None) && final(self).performance_metrics == old(self).performance_metrics
                    && final(npdu).hop_count == old(npdu).hop_count,
                Some(dest) => if dest.network == old(self).local_network || dest.network == 0 {
                    r matches Ok(None) && final(self).performance_metrics == old(self).performance_metrics
                        && final(npdu).hop_count == old(npdu).hop_count
                } else if old(npdu).hop_count == Some(0u8) {
                    (r matches Err(NetworkError::HopCountExceeded))
                        && final(self).performance_metrics == (RouterPerformanceMetrics {
                            hop_count_exceeded: (old(self).performance_metrics.hop_count_exceeded + 1) as u64,
                            ..old(self).performance_metrics
                        })
                        && final(npdu).hop_count == old(npdu).hop_count
                } else {
                    &&& final(npdu).hop_count == (match old(npdu).hop_count {
                        Some(h) => Some((h - 1) as u8),
                        None => None,
                    })
                    &&& if old(self).busy_networks@.contains(dest.network) {
                        (r matches Err(NetworkError::RoutingError(_)))
                            && final(self).performance_metrics == old(self).performance_metrics
                    } else {
                        match first_route(old(self).routing_table@, dest.network) {
                            Some(router) => (r matches Ok(Some(a)) && a@ == router.1)
                                && final(self).performance_metrics == (RouterPerformanceMetrics {
                                    messages_routed: (old(self).performance_metrics.messages_routed + 1) as u64,
                                    ..old(self).performance_metrics
                                }),
                            None => (r matches Err(NetworkError::NetworkUnreachable(n)) && n == dest.network)
                                && final(self).performance_metrics == (RouterPerformanceMetrics {
                                    network_unreachable_count: (old(self).performance_metrics.network_unreachable_count + 1) as u64,
                                    ..old(self).performance_metrics
                                }),
                        }
                    }
                },
            },
    {
        let dest_network = match &npdu.destination {
            None => {
                return Ok(None);
            },
            Some(dest) => dest.network,
        };
        if dest_network == self.local_network || dest_network == 0 {
            return Ok(None);
        }
        if let Some(hops) = npdu.hop_count {
            if hops == 0 {
                self.performance_metrics.hop_count_exceeded = self.performance_metrics.hop_count_exceeded + 1;
                return Err(NetworkError::HopCountExceeded);
            }
            npdu.hop_count = Some(hops - 1);
        }
        if contains_u16(&self.busy_networks, dest_network) {
            return Err(NetworkError::RoutingError("Network busy".to_string()));
        }
        match self.routing_table.find_route(dest_network) {
            Some(router) => {
                let next = router.address.duplicate();
                self.performance_metrics.messages_routed = self.performance_metrics.messages_routed + 1;
                Ok(Some(next))
            },
            None => {
                self.performance_metrics.network_unreachable_count = self.performance_metrics.network_unreachable_count + 1;
                Err(NetworkError::NetworkUnreachable(dest_network))
            },
        }
    }

    /// Handles a network layer message; only the routing table, the busy
    /// list and the local network number take part, and an answer, if
    /// any, is returned.
    pub fn process_network_message(&mut self, message: &NetworkLayerMessage) -> (r: Result<Option<NetworkLayerMessage>, NetworkError>)
        ensures
            r is Ok,
            final(self).local_network == old(self).local_network,
            final(self).routing_table@ == old(self).routing_table@,
            final(self).max_hop_count == old(self).max_hop_count,
            final(self).performance_metrics == old(self).performance_metrics,
            final(self).busy_networks@ == (if message.data@.len() >= 2 {
                let n = be16(message.data@[0], message.data@[1]) as u16;
                match message.message_type {
                    NetworkMessageType::RouterBusyToNetwork => busy_with(old(self).busy_networks@, n),
                    NetworkMessageType::RouterAvailableToNetwork => busy_without(old(self).busy_networks@, n),
                    _ => old(self).busy_networks@,
                }
            } else {
                old(self).busy_networks@
            }),
            match message.message_type {
                NetworkMessageType::WhoIsRouterToNetwork => if message.data@.len() >= 2 && first_route(
                    old(self).routing_table@, be16(message.data@[0], message.data@[1]) as u16) is Some {
                    r matches Ok(Some(m)) && m.message_type == NetworkMessageType::IAmRouterToNetwork
                        && m.data@ == message.data@.subrange(0, 2)
                } else {
                    r matches Ok(None)
                },
                NetworkMessageType::WhatIsNetworkNumber => r matches Ok(Some(m))
                    && m.message_type == NetworkMessageType::NetworkNumberIs
                    && m.data@ == seq![(old(self).local_network / 256) as u8, (old(self).local_network % 256) as u8],
                _ => r matches Ok(None),
            },
    {
        match message.message_type {
            NetworkMessageType::WhoIsRouterToNetwork => self.handle_who_is_router_to_network(&message.data),
            NetworkMessageType::IAmRouterToNetwork => self.handle_i_am_router_to_network(&message.data),
            NetworkMessageType::RouterBusyToNetwork => self.handle_router_busy_to_network(&message.data),
            NetworkMessageType::RouterAvailableToNetwork => self.handle_router_available_to_network(&message.data),
            NetworkMessageType::WhatIsNetworkNumber => self.handle_what_is_network_number(),
            _ => Ok(None),
        }
    }

    /// Answers a Who-Is-Router-To-Network for a network it has a route to.
    fn handle_who_is_router_to_network(&self, data: &Vec<u8>) -> (r: Result<Option<NetworkLayerMessage>, NetworkError>)
        ensures
            if data@.len() >= 2 && first_route(self.routing_table@, be16(data@[0], data@[1]) as u16) is Some {
                r matches Ok(Some(m)) && m.message_type == NetworkMessageType::IAmRouterToNetwork
                    && m.data@ == data@.subrange(0, 2)
            } else {
                r matches Ok(None)
            },
    {
        if data.len() >= 2 {
            let requested_network: u16 = (data[0] as u16) * 256 + (data[1] as u16);
            if self.routing_table.find_route(requested_network).is_some() {
                let mut response_data: Vec<u8> = Vec::new();
                response_data.push(data[0]);
                response_data.push(data[1]);
                assert(response_data@ =~= data@.subrange(0, 2));
                return Ok(Some(NetworkLayerMessage::new(NetworkMessageType::IAmRouterToNetwork, response_data)));
            }
        }
        Ok(None)
    }

    /// Reads the networks an I-Am-Router-To-Network lists; nothing is
    /// recorded, since the sender's address is not at hand here.
    fn handle_i_am_router_to_network(&mut self, data: &Vec<u8>) -> (r: Result<Option<NetworkLayerMessage>, NetworkError>)
        ensures
            r matches Ok(None),
            final(self).local_network == old(self).local_network,
            final(self).routing_table@ == old(self).routing_table@,
            final(self).max_hop_count == old(self).max_hop_count,
            final(self).performance_metrics == old(self).performance_metrics,
            final(self).busy_networks@ == old(self).busy_networks@,
    {
        let mut pos: usize = 0;
        let mut networks: Vec<u16> = Vec::new();
        while pos < data.len() && data.len() - pos > 1
            invariant
                pos <= data@.len(),
            decreases data@.len() - pos,
        {
            networks.push((data[pos] as u16) * 256 + (data[pos + 1] as u16));
            pos = pos + 2;
        }
        Ok(None)
    }

    /// Marks a network busy.
    fn handle_router_busy_to_network(&mut self, data: &Vec<u8>) -> (r: Result<Option<NetworkLayerMessage>, NetworkError>)
        ensures
            r matches Ok(None),
            final(self).local_network == old(self).local_network,
            final(self).routing_table@ == old(self).routing_table@,
            final(self).max_hop_count == old(self).max_hop_count,
            final(self).performance_metrics == old(self).performance_metrics,
            final(self).busy_networks@ == (if data@.len() >= 2 {
                busy_with(old(self).busy_networks@, be16(data@[0], data@[1]) as u16)
            } else {
                old(self).busy_networks@
            }),
    {
        if data.len() >= 2 {
            let network: u16 = (data[0] as u16) * 256 + (data[1] as u16);
            if !contains_u16(&self.busy_networks, network) {
                self.busy_networks.push(network);
            }
        }
        Ok(None)
    }

    /// Marks a network available again.
    fn handle_router_available_to_network(&mut self, data: &Vec<u8>) -> (r: Result<Option<NetworkLayerMessage>, NetworkError>)
        ensures
            r matches Ok(None),
            final(self).local_network == old(self).local_network,
            final(self).routing_table@ == old(self).routing_table@,
            final(self).max_hop_count == old(self).max_hop_count,
            final(self).performance_metrics == old(self).performance_metrics,
            final(self).busy_networks@ == (if data@.len() >= 2 {
                busy_without(old(self).busy_networks@, be16(data@[0], data@[1]) as u16)
            } else {
                old(self).busy_networks@
            }),
    {
        if data.len() >= 2 {
            let network: u16 = (data[0] as u16) * 256 + (data[1] as u16);
            self.busy_networks = remove_network(&self.busy_networks, network);
        }
        Ok(None)
    }

    /// Answers What-Is-Network-Number with the local network number.
    fn handle_what_is_network_number(&self) -> (r: Result<Option<NetworkLayerMessage>, NetworkError>)
        ensures
            r matches Ok(Some(m)) && m.message_type == NetworkMessageType::NetworkNumberIs
                && m.data@ == seq![(self.local_network / 256) as u8, (self.local_network % 256) as u8],
    {
        let mut response_data: Vec<u8> = Vec::new();
        response_data.push((self.local_network / 256) as u8);
        response_data.push((self.local_network % 256) as u8);
        assert(response_data@ =~= seq![(self.local_network / 256) as u8, (self.local_network % 256) as u8]);
        Ok(Some(NetworkLayerMessage::new(NetworkMessageType::NetworkNumberIs, response_data)))
    }

    /// Adds a discovered router to the routing table.
    pub fn add_discovered_router(&mut self, networks: Vec<u16>, address: NetworkAddress, performance_index: Option<u8>)
        ensures
            final(self).routing_table@ == routers_not_at(old(self).routing_table@, address@).push(
                (networks@, address@, performance_index),
            ),
            final(self).local_network == old(self).local_network,
            final(self).busy_networks@ == old(self).busy_networks@,
            final(self).performance_metrics == old(self).performance_metrics,
            final(self).max_hop_count == old(self).max_hop_count,
    {
        let router = RouterInfo { networks, address, performance_index };
        self.routing_table.add_router(router);
    }

    /// Marks a network busy or available.
    pub fn set_network_busy(&mut self, network: u16, busy: bool)
        ensures
            final(self).busy_networks@ == (if busy {
                busy_with(old(self).busy_networks@, network)
            } else {
                busy_without(old(self).busy_networks@, network)
            }),
            final(self).local_network == old(self).local_network,
            final(self).routing_table@ == old(self).routing_table@,
            final(self).performance_metrics == old(self).performance_metrics,
            final(self).max_hop_count == old(self).max_hop_count,
    {
        if busy {
            if !contains_u16(&self.busy_networks, network) {
                self.busy_networks.push(network);
            }
        } else {
            self.busy_networks = remove_network(&self.busy_networks, network);
        }
    }

    /// The performance metrics.
    pub fn get_performance_metrics(&self) -> (r: &RouterPerformanceMetrics)
        ensures
            *r == self.performance_metrics,
    {
        &self.performance_metrics
    }

    /// Resets the performance metrics to zero.
    pub fn reset_performance_metrics(&mut self)
        ensures
            final(self).performance_metrics == RouterPerformanceMetrics::default_value(),
            final(self).local_network == old(self).local_network,
            final(self).routing_table@ == old(self).routing_table@,
            final(self).busy_networks@ == old(self).busy_networks@,
            final(self).max_hop_count == old(self).max_hop_count,
    {
        self.performance_metrics = RouterPerformanceMetrics::default();
    }
}

impl RouterPerformanceMetrics {
    /// All counters zero.
    pub open spec fn default_value() -> Self {
        RouterPerformanceMetrics { messages_routed: 0, routing_errors: 0, hop_count_exceeded: 0, network_unreachable_count: 0 }
    }
}

/// A network marked busy is refused, and one marked available again is
/// not busy any more.
pub proof fn lemma_busy_then_available(busy: Seq<u16>, network: u16)
    ensures
        busy_with(busy, network).contains(network),
        !busy_without(busy, network).contains(network),
        !busy_without(busy_with(busy, network), network).contains(network),
{
    let p = other_than(network);
    if busy_without(busy, network).contains(network) {
        let i = choose|i: int| 0 <= i < busy_without(busy, network).len() && busy_without(busy, network)[i] == network;
        busy.lemma_filter_pred(p, i);
    }
    let b2 = busy_with(busy, network);
    if busy_without(b2, network).contains(network) {
        let i = choose|i: int| 0 <= i < busy_without(b2, network).len() && busy_without(b2, network)[i] == network;
        b2.lemma_filter_pred(p, i);
    }
    if !busy.contains(network) {
        assert(busy.push(network)[busy.len() as int] == network);
    }
}

} // verus!
