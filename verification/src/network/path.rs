//! Path discovery over the known links between networks: the cheapest
//! path by Dijkstra's algorithm, with a cache of paths found.

use vstd::prelude::*;

use super::{copy_u16s, NetworkAddress};

verus! {

/// Network link information.
#[derive(Debug, Clone)]
pub struct NetworkLink {
    /// Source network
    pub source_network: u16,
    /// Destination network
    pub destination_network: u16,
    /// Cost metric (lower is better)
    pub cost: u16,
    /// Router address
    pub router_address: NetworkAddress,
}

/// The abstract content of a link: source, destination, cost, router.
pub type NetworkLinkView = (u16, u16, u16, (u16, Seq<u8>));

impl View for NetworkLink {
    type V = NetworkLinkView;

    open spec fn view(&self) -> NetworkLinkView {
        (self.source_network, self.destination_network, self.cost, self.router_address@)
    }
}

impl NetworkLink {
    /// A copy of this link.
    pub fn duplicate(&self) -> (r: Self)
        ensures
            r@ == self@,
    {
        NetworkLink {
            source_network: self.source_network,
            destination_network: self.destination_network,
            cost: self.cost,
            router_address: self.router_address.duplicate(),
        }
    }
}

/// The views of a sequence of links.
pub open spec fn links_view(s: Seq<NetworkLink>) -> Seq<NetworkLinkView> {
    s.map_values(|l: NetworkLink| l@)
}

/// Whether some link of `links` leads from network `a` to network `b`.
pub open spec fn has_link(links: Seq<NetworkLinkView>, a: u16, b: u16) -> bool {
    exists|i: int| 0 <= i < links.len() && links[i].0 == a && links[i].1 == b
}

/// Whether `p` is a path over `links` from `source` to `destination`:
/// it starts at `source`, ends at `destination`, and each step is a link.
pub open spec fn is_path(links: Seq<NetworkLinkView>, p: Seq<u16>, source: u16, destination: u16) -> bool {
    &&& p.len() >= 1
    &&& p[0] == source
    &&& p.last() == destination
    &&& forall|i: int| 0 <= i < p.len() - 1 ==> has_link(links, #[trigger] p[i], p[i + 1])
}

/// Whether `p` is a path over `links` ending at `destination`, from
/// wherever it starts.
pub open spec fn is_path_to(links: Seq<NetworkLinkView>, p: Seq<u16>, destination: u16) -> bool {
    p.len() >= 1 && is_path(links, p, p[0], destination)
}

/// The cost of the cheapest link from `a` to `b`; 65536 (more than any
/// link costs) when there is none.
pub open spec fn min_link_cost(links: Seq<NetworkLinkView>, a: u16, b: u16) -> int
    decreases links.len(),
{
    if links.len() == 0 {
        65536
    } else {
        let rest = min_link_cost(links.drop_last(), a, b);
        let l = links.last();
        if l.0 == a && l.1 == b && (l.2 as int) < rest {
            l.2 as int
        } else {
            rest
        }
    }
}

/// The cost of a path: the cheapest link of each step, added up.
pub open spec fn path_cost(links: Seq<NetworkLinkView>, p: Seq<u16>) -> int
    decreases p.len(),
{
    if p.len() <= 1 {
        0
    } else {
        path_cost(links, p.drop_last()) + min_link_cost(links, p[p.len() - 2], p.last())
    }
}

/// No link from `a` to `b` costs less than `min_link_cost`, and where
/// there is a link, one costs exactly that.
pub proof fn lemma_min_link_cost(links: Seq<NetworkLinkView>, a: u16, b: u16)
    ensures
        0 <= min_link_cost(links, a, b) <= 65536,
        forall|l: int| 0 <= l < links.len() && links[l].0 == a && links[l].1 == b ==> min_link_cost(links, a, b)
            <= #[trigger] links[l].2,
        has_link(links, a, b) ==> exists|l: int|
            0 <= l < links.len() && links[l].0 == a && links[l].1 == b && #[trigger] links[l].2 == min_link_cost(links, a, b),
        !has_link(links, a, b) ==> min_link_cost(links, a, b) == 65536,
    decreases links.len(),
{
    if links.len() > 0 {
        let p = links.drop_last();
        lemma_min_link_cost(p, a, b);
        assert forall|l: int| 0 <= l < p.len() implies #[trigger] links[l] == p[l] by {}
        let last = links.len() - 1;
        let m = min_link_cost(links, a, b);
        if links[last].0 == a && links[last].1 == b && (links[last].2 as int) < min_link_cost(p, a, b) {
            assert(links[last].2 == m);
        } else if has_link(p, a, b) {
            let j = choose|j: int| 0 <= j < p.len() && p[j].0 == a && p[j].1 == b && #[trigger] p[j].2 == min_link_cost(p, a, b);
            assert(links[j] == p[j]);
            assert(links[j].2 == m);
        } else if has_link(links, a, b) {
            let i = choose|i: int| 0 <= i < links.len() && links[i].0 == a && links[i].1 == b;
            if i < p.len() {
                assert(links[i] == p[i]);
                assert(has_link(p, a, b));
            }
            assert(i == last);
            assert(min_link_cost(p, a, b) == 65536);
        }
    }
}

/// Path costs are never negative, and a path costs at least as much as
/// any of its prefixes, each step adding its cheapest link.
pub proof fn lemma_path_cost_prefix(links: Seq<NetworkLinkView>, p: Seq<u16>, k: int)
    requires
        1 <= k <= p.len(),
    ensures
        0 <= path_cost(links, p.take(k)) <= path_cost(links, p),
        k < p.len() ==> path_cost(links, p.take(k + 1)) == path_cost(links, p.take(k)) + min_link_cost(
            links,
            p[k - 1],
            p[k],
        ),
    decreases p.len(),
{
    if k < p.len() {
        let t = p.take(k + 1);
        assert(t.drop_last() =~= p.take(k));
        assert(t[t.len() - 2] == p[k - 1]);
        lemma_min_link_cost(links, p[k - 1], p[k]);
        lemma_path_cost_prefix(links, p.drop_last(), k);
        assert(p.drop_last().take(k) =~= p.take(k));
        lemma_min_link_cost(links, p[p.len() - 2], p.last());
    } else {
        assert(p.take(k) =~= p);
        lemma_path_cost_nonneg(links, p);
    }
}

/// Path costs are never negative.
proof fn lemma_path_cost_nonneg(links: Seq<NetworkLinkView>, p: Seq<u16>)
    ensures
        path_cost(links, p) >= 0,
    decreases p.len(),
{
    if p.len() > 1 {
        lemma_path_cost_nonneg(links, p.drop_last());
        lemma_min_link_cost(links, p[p.len() - 2], p.last());
    }
}

/// Network path discovery.
#[derive(Debug)]
pub struct PathDiscovery {
    /// Known network topology
    pub network_topology: Vec<NetworkLink>,
    /// Path cache: (destination network, path)
    pub path_cache: Vec<(u16, Vec<u16>)>,
}

/// The test for a link between other networks than `a` to `b`.
pub open spec fn not_between(a: u16, b: u16) -> spec_fn(NetworkLinkView) -> bool {
    |l: NetworkLinkView| !(l.0 == a && l.1 == b)
}

/// Inserts `x` into the ascending vector `v`, unless it is there already.
fn insert_sorted(v: &mut Vec<u16>, x: u16)
    ensures
        forall|y: u16| final(v)@.contains(y) <==> (old(v)@.contains(y) || y == x),
        strictly_ascending(old(v)@) ==> strictly_ascending(final(v)@),
{
    let mut i: usize = 0;
    while i < v.len() && v[i] < x
        invariant
            i <= v@.len(),
            v@ == old(v)@,
            forall|k: int| 0 <= k < i ==> v@[k] < x,
        decreases v@.len() - i,
    {
        i = i + 1;
    }
    if i < v.len() && v[i] == x {
        assert(v@[i as int] == x);
        return;
    }
    let ghost before = v@;
    assert(before == old(v)@);
    v.insert(i, x);
    assert forall|y: u16| #[trigger] v@.contains(y) <==> (old(v)@.contains(y) || y == x) by {
        if v@.contains(y) {
            let k = choose|k: int| 0 <= k < v@.len() && v@[k] == y;
            if k < i {
                assert(before[k] == y);
            } else if k > i {
                assert(before[k - 1] == y);
            }
        }
        if before.contains(y) {
            let k = choose|k: int| 0 <= k < before.len() && before[k] == y;
            if k < i {
                assert(v@[k] == y);
            } else {
                assert(v@[k + 1] == y);
            }
        }
        if y == x {
            assert(v@[i as int] == x);
        }
    }
    assert(strictly_ascending(before) ==> strictly_ascending(v@)) by {
        if strictly_ascending(before) {
            assert forall|a: int, b: int| 0 <= a < b < v@.len() implies v@[a] < v@[b] by {
                if b < i {
                    assert(v@[a] == before[a] && v@[b] == before[b]);
                } else if b == i {
                    assert(v@[a] == before[a]);
                } else if a < i {
                    assert(v@[a] == before[a] && v@[b] == before[b - 1]);
                    assert(before[i as int] > x || i as int == b - 1 || before[i as int] <= before[b - 1]);
                } else if a == i {
                    assert(v@[b] == before[b - 1]);
                    assert(before[i as int] >= x);
                    assert(before[i as int] != x);
                } else {
                    assert(v@[a] == before[a - 1] && v@[b] == before[b - 1]);
                }
            }
        }
    }
}

/// Whether `s` is in strictly ascending order.
pub open spec fn strictly_ascending(s: Seq<u16>) -> bool {
    forall|a: int, b: int| 0 <= a < b < s.len() ==> s[a] < s[b]
}

/// The index of `x` in `v`, if it is there.
fn index_of(v: &Vec<u16>, x: u16) -> (r: Option<usize>)
    ensures
        r matches Some(i) ==> i < v@.len() && v@[i as int] == x,
        r is None ==> !v@.contains(x),
{
    let mut i: usize = 0;
    while i < v.len()
        invariant
            i <= v@.len(),
            forall|j: int| 0 <= j < i ==> v@[j] != x,
        decreases v@.len() - i,
    {
        if v[i] == x {
            return Some(i);
        }
        i = i + 1;
    }
    None
}

impl PathDiscovery {
    /// Whether every cached path is a cheapest path over the known links
    /// from the network it starts at to its destination.
    pub open spec fn wf(&self) -> bool {
        forall|i: int| 0 <= i < self.path_cache@.len() ==> cached_ok(
            links_view(self.network_topology@), #[trigger] self.path_cache@[i])
    }

    /// No links, no cached paths.
    pub fn new() -> (r: Self)
        ensures
            r.wf(),
            r.network_topology@.len() == 0,
            r.path_cache@.len() == 0,
    {
        PathDiscovery { network_topology: Vec::new(), path_cache: Vec::new() }
    }

    /// Adds a link, replacing any link between the same two networks, and
    /// empties the cache.
    pub fn add_link(&mut self, link: NetworkLink)
        ensures
            final(self).wf(),
            links_view(final(self).network_topology@) == links_view(old(self).network_topology@).filter(
                not_between(link.source_network, link.destination_network)).push(link@),
            final(self).path_cache@.len() == 0,
    {
        let ghost all = links_view(self.network_topology@);
        let ghost pred = not_between(link.source_network, link.destination_network);
        let mut kept: Vec<NetworkLink> = Vec::new();
        let mut i: usize = 0;
        while i < self.network_topology.len()
            invariant
                all == links_view(self.network_topology@),
                pred == not_between(link.source_network, link.destination_network),
                i <= self.network_topology@.len(),
                links_view(kept@) == all.subrange(0, i as int).filter(pred),
            decreases self.network_topology@.len() - i,
        {
            let ghost before = kept@;
            proof {
                assert(all.subrange(0, i + 1) =~= all.subrange(0, i as int).push(all[i as int]));
                all.subrange(0, i as int).lemma_filter_push(all[i as int], pred);
            }
            let keep = !(self.network_topology[i].source_network == link.source_network
                && self.network_topology[i].destination_network == link.destination_network);
            if keep {
                kept.push(self.network_topology[i].duplicate());
                assert(links_view(kept@) =~= links_view(before).push(all[i as int]));
            } else {
                assert(links_view(kept@) =~= links_view(before));
            }
            i = i + 1;
        }
        assert(all.subrange(0, i as int) =~= all);
        let ghost lv = link@;
        kept.push(link);
        assert(links_view(kept@) =~= all.filter(pred).push(lv));
        self.network_topology = kept;
        self.path_cache = Vec::new();
    }

    /// Empties the path cache.
    pub fn clear_cache(&mut self)
        ensures
            final(self).wf(),
            final(self).path_cache@.len() == 0,
            final(self).network_topology@ == old(self).network_topology@,
    {
        self.path_cache.clear();
    }

    /// The known links.
    pub fn get_topology(&self) -> (r: &[NetworkLink])
        ensures
            r@ == self.network_topology@,
    {
        self.network_topology.as_slice()
    }
}

/// The number of `false` entries of `s`.
pub open spec fn count_unvisited(s: Seq<bool>) -> nat
    decreases s.len(),
{
    if s.len() == 0 {
        0
    } else {
        count_unvisited(s.drop_last()) + if s.last() { 0nat } else { 1nat }
    }
}

/// Marking an unvisited entry visited lowers the count by one.
proof fn lemma_count_unvisited_update(s: Seq<bool>, c: int)
    requires
        0 <= c < s.len(),
        !s[c],
    ensures
        count_unvisited(s.update(c, true)) + 1 == count_unvisited(s),
    decreases s.len(),
{
    let t = s.update(c, true);
    if c == s.len() - 1 {
        assert(t.drop_last() =~= s.drop_last());
    } else {
        assert(t.drop_last() =~= s.drop_last().update(c, true));
        lemma_count_unvisited_update(s.drop_last(), c);
    }
}

/// `a` plus `b`, held at 65535.
pub open spec fn sat_add(a: int, b: int) -> int {
    if a + b > 65535 {
        65535
    } else {
        a + b
    }
}

/// Whether link `l` has been relaxed from node `u`: no unvisited node at
/// its far end is further away than through it.
pub open spec fn relaxed(
    links: Seq<NetworkLinkView>,
    nodes: Seq<u16>,
    dist: Seq<u16>,
    visited: Seq<bool>,
    u: int,
    l: int,
) -> bool {
    forall|x: int|
        0 <= x < nodes.len() && #[trigger] nodes[x] == links[l].1 && !visited[x] ==> dist[x] <= sat_add(
            dist[u] as int,
            links[l].2 as int,
        )
}

/// Every link from a visited node has been relaxed, except the links from
/// `c` at `l` and after.
#[verifier::opaque]
pub open spec fn relaxed_upto(
    links: Seq<NetworkLinkView>,
    nodes: Seq<u16>,
    dist: Seq<u16>,
    visited: Seq<bool>,
    c: int,
    l: int,
) -> bool {
    forall|u: int, l2: int|
        #![trigger visited[u], links[l2]]
        0 <= u < nodes.len() && visited[u] && 0 <= l2 < links.len() && links[l2].0 == nodes[u] && (u != c || l2 < l)
            ==> relaxed(links, nodes, dist, visited, u, l2)
}

/// Every predecessor is a visited node with a link to its successor, taken
/// earlier, and no further from the source than the successor by more
/// than that link's cost.
#[verifier::opaque]
pub open spec fn prev_ok(
    links: Seq<NetworkLinkView>,
    nodes: Seq<u16>,
    dist: Seq<u16>,
    prev: Seq<Option<usize>>,
    visited: Seq<bool>,
    rank: Seq<nat>,
) -> bool {
    forall|v: int| 0 <= v < nodes.len() ==> match #[trigger] prev[v] {
        Some(u) => u < nodes.len() && visited[u as int] && has_link(links, nodes[u as int], nodes[v]) && (visited[v]
            ==> rank[u as int] < rank[v]) && dist[v] >= dist[u as int] + min_link_cost(links, nodes[u as int], nodes[v]),
        None => true,
    }
}

/// Every path from `source` to a visited node costs at least that node's
/// distance.
#[verifier::opaque]
pub open spec fn settled(
    links: Seq<NetworkLinkView>,
    nodes: Seq<u16>,
    dist: Seq<u16>,
    visited: Seq<bool>,
    source: u16,
) -> bool {
    forall|v: int, p: Seq<u16>|
        0 <= v < nodes.len() && #[trigger] visited[v] && #[trigger] is_path(links, p, source, nodes[v]) ==> path_cost(
            links,
            p,
        ) >= dist[v]
}

/// A path from `source` costs at least as much up to its first unvisited
/// node as the nearest unvisited node `c` is away: the step into the
/// unvisited part comes from a visited node, whose distance is settled,
/// over a link relaxed from it.
proof fn lemma_cost_reaches_unvisited(
    links: Seq<NetworkLinkView>,
    nodes: Seq<u16>,
    dist: Seq<u16>,
    visited: Seq<bool>,
    source: u16,
    c: int,
    q: Seq<u16>,
    k: int,
)
    requires
        strictly_ascending(nodes),
        dist.len() == nodes.len(),
        visited.len() == nodes.len(),
        forall|l: int| #![trigger links[l]] 0 <= l < links.len() ==> nodes.contains(links[l].0) && nodes.contains(links[l].1),
        0 <= c < nodes.len(),
        !visited[c],
        forall|y: int| 0 <= y < nodes.len() && !visited[y] ==> dist[c] <= #[trigger] dist[y],
        forall|v: int| 0 <= v < nodes.len() && #[trigger] nodes[v] == source ==> dist[v] == 0,
        settled(links, nodes, dist, visited, source),
        relaxed_upto(links, nodes, dist, visited, -1, 0),
        q.len() >= 1,
        is_path(links, q, source, q.last()),
        1 <= k <= q.len(),
        exists|x: int| 0 <= x < nodes.len() && nodes[x] == q[k - 1] && !visited[x],
    ensures
        path_cost(links, q.take(k)) >= dist[c],
    decreases k,
{
    let x = choose|x: int| 0 <= x < nodes.len() && nodes[x] == q[k - 1] && !visited[x];
    assert(dist[c] <= dist[x]);
    if k == 1 {
        assert(q.take(1).len() == 1);
        assert(nodes[x] == source);
    } else {
        assert(has_link(links, q[k - 2], q[k - 1]));
        lemma_min_link_cost(links, q[k - 2], q[k - 1]);
        let ls = choose|l: int|
            0 <= l < links.len() && links[l].0 == q[k - 2] && links[l].1 == q[k - 1] && #[trigger] links[l].2
                == min_link_cost(links, q[k - 2], q[k - 1]);
        assert(nodes.contains(links[ls].0));
        let u = choose|u: int| 0 <= u < nodes.len() && nodes[u] == links[ls].0;
        lemma_path_cost_prefix(links, q, k - 1);
        if !visited[u] {
            lemma_cost_reaches_unvisited(links, nodes, dist, visited, source, c, q, k - 1);
        } else {
            let pre = q.take(k - 1);
            assert forall|i: int| 0 <= i < pre.len() - 1 implies has_link(links, #[trigger] pre[i], pre[i + 1]) by {
                assert(pre[i] == q[i] && pre[i + 1] == q[i + 1]);
                assert(has_link(links, q[i], q[i + 1]));
            }
            assert(is_path(links, pre, source, nodes[u]));
            reveal(settled);
            assert(path_cost(links, pre) >= dist[u]);
            reveal(relaxed_upto);
            assert(relaxed(links, nodes, dist, visited, u, ls));
            assert(nodes[x] == links[ls].1);
        }
    }
}

/// A node on a link is one of the nodes.
proof fn lemma_on_link_is_node(links: Seq<NetworkLinkView>, nodes: Seq<u16>, a: u16, b: u16)
    requires
        has_link(links, a, b),
        forall|l: int| #![trigger links[l]] 0 <= l < links.len() ==> nodes.contains(links[l].0) && nodes.contains(links[l].1),
    ensures
        nodes.contains(a),
        nodes.contains(b),
{
    let l = choose|l: int| 0 <= l < links.len() && links[l].0 == a && links[l].1 == b;
    assert(nodes.contains(links[l].0));
}

/// Settling `c`, the nearest unvisited node, keeps every invariant: its
/// distance is settled, the predecessors stay valid, and every link but
/// those from `c` stays relaxed.
proof fn lemma_settle(
    links: Seq<NetworkLinkView>,
    nodes: Seq<u16>,
    dist: Seq<u16>,
    prev: Seq<Option<usize>>,
    visited: Seq<bool>,
    rank: Seq<nat>,
    step: nat,
    source: u16,
    c: int,
)
    requires
        strictly_ascending(nodes),
        dist.len() == nodes.len(),
        prev.len() == nodes.len(),
        visited.len() == nodes.len(),
        rank.len() == nodes.len(),
        forall|l: int| #![trigger links[l]] 0 <= l < links.len() ==> nodes.contains(links[l].0) && nodes.contains(links[l].1),
        0 <= c < nodes.len(),
        !visited[c],
        forall|y: int| 0 <= y < nodes.len() && !visited[y] ==> dist[c] <= #[trigger] dist[y],
        forall|v: int| 0 <= v < nodes.len() && #[trigger] nodes[v] == source ==> dist[v] == 0,
        forall|v: int| 0 <= v < nodes.len() && #[trigger] visited[v] ==> rank[v] < step,
        settled(links, nodes, dist, visited, source),
        relaxed_upto(links, nodes, dist, visited, -1, 0),
        prev_ok(links, nodes, dist, prev, visited, rank),
    ensures
        settled(links, nodes, dist, visited.update(c, true), source),
        relaxed_upto(links, nodes, dist, visited.update(c, true), c, 0),
        prev_ok(links, nodes, dist, prev, visited.update(c, true), rank.update(c, step)),
{
    let nv = visited.update(c, true);
    let nr = rank.update(c, step);
    reveal(settled);
    reveal(relaxed_upto);
    reveal(prev_ok);
    assert forall|v: int, p: Seq<u16>|
        0 <= v < nodes.len() && #[trigger] nv[v] && #[trigger] is_path(links, p, source, nodes[v]) implies path_cost(
            links,
            p,
        ) >= dist[v] by {
        if v == c {
            assert(p.take(p.len() as int) =~= p);
            lemma_cost_reaches_unvisited(links, nodes, dist, visited, source, c, p, p.len() as int);
        } else {
            assert(visited[v]);
        }
    }
    assert forall|u: int, l2: int|
        #![trigger nv[u], links[l2]]
        0 <= u < nodes.len() && nv[u] && 0 <= l2 < links.len() && links[l2].0 == nodes[u] && (u != c || l2 < 0)
            implies relaxed(links, nodes, dist, nv, u, l2) by {
        assert(visited[u]);
        assert(relaxed(links, nodes, dist, visited, u, l2));
    }
    assert forall|v: int| 0 <= v < nodes.len() implies match #[trigger] prev[v] {
        Some(u) => u < nodes.len() && nv[u as int] && has_link(links, nodes[u as int], nodes[v]) && (nv[v] ==> nr[u
            as int] < nr[v]) && dist[v] >= dist[u as int] + min_link_cost(links, nodes[u as int], nodes[v]),
        None => true,
    } by {
        if let Some(u) = prev[v] {
            assert(visited[u as int]);
            assert(u != c);
        }
    }
}

/// Relaxing a link from the settled node `c` that lowers the distance of
/// the unvisited node `ni` at its far end keeps every invariant.
proof fn lemma_relax_lowers(
    links: Seq<NetworkLinkView>,
    nodes: Seq<u16>,
    dist: Seq<u16>,
    prev: Seq<Option<usize>>,
    visited: Seq<bool>,
    rank: Seq<nat>,
    source: u16,
    c: usize,
    l: int,
    ni: int,
    nd: u16,
)
    requires
        strictly_ascending(nodes),
        dist.len() == nodes.len(),
        prev.len() == nodes.len(),
        visited.len() == nodes.len(),
        rank.len() == nodes.len(),
        c < nodes.len(),
        visited[c as int],
        0 <= l < links.len(),
        links[l].0 == nodes[c as int],
        0 <= ni < nodes.len(),
        nodes[ni] == links[l].1,
        !visited[ni],
        nd == sat_add(dist[c as int] as int, links[l].2 as int),
        nd < dist[ni],
        settled(links, nodes, dist, visited, source),
        relaxed_upto(links, nodes, dist, visited, c as int, l),
        prev_ok(links, nodes, dist, prev, visited, rank),
    ensures
        settled(links, nodes, dist.update(ni, nd), visited, source),
        relaxed_upto(links, nodes, dist.update(ni, nd), visited, c as int, l + 1),
        prev_ok(links, nodes, dist.update(ni, nd), prev.update(ni, Some(c)), visited, rank),
{
    let d2 = dist.update(ni, nd);
    let p2 = prev.update(ni, Some(c));
    reveal(settled);
    reveal(relaxed_upto);
    reveal(prev_ok);
    assert(has_link(links, nodes[c as int], nodes[ni]));
    lemma_min_link_cost(links, nodes[c as int], nodes[ni]);
    assert(min_link_cost(links, nodes[c as int], nodes[ni]) <= links[l].2);
    assert(c as int != ni);
    assert(nd == dist[c as int] + links[l].2);
    assert forall|v: int, p: Seq<u16>|
        0 <= v < nodes.len() && #[trigger] visited[v] && #[trigger] is_path(links, p, source, nodes[v]) implies path_cost(
            links,
            p,
        ) >= d2[v] by {
        assert(v != ni);
    }
    assert forall|u: int, l2: int|
        #![trigger visited[u], links[l2]]
        0 <= u < nodes.len() && visited[u] && 0 <= l2 < links.len() && links[l2].0 == nodes[u] && (u != c as int || l2 < l + 1)
            implies relaxed(links, nodes, d2, visited, u, l2) by {
        assert(u != ni);
        if u == c as int && l2 == l {
            assert forall|x: int|
                0 <= x < nodes.len() && #[trigger] nodes[x] == links[l2].1 && !visited[x] implies d2[x] <= sat_add(
                    d2[u] as int,
                    links[l2].2 as int,
                ) by {
                assert(x == ni);
            }
        } else {
            assert(relaxed(links, nodes, dist, visited, u, l2));
            assert forall|x: int|
                0 <= x < nodes.len() && #[trigger] nodes[x] == links[l2].1 && !visited[x] implies d2[x] <= sat_add(
                    d2[u] as int,
                    links[l2].2 as int,
                ) by {
                assert(d2[x] <= dist[x]);
            }
        }
    }
    assert forall|v: int| 0 <= v < nodes.len() implies match #[trigger] p2[v] {
        Some(u) => u < nodes.len() && visited[u as int] && has_link(links, nodes[u as int], nodes[v]) && (visited[v]
            ==> rank[u as int] < rank[v]) && d2[v] >= d2[u as int] + min_link_cost(links, nodes[u as int], nodes[v]),
        None => true,
    } by {
        if v != ni {
            assert(p2[v] == prev[v]);
            assert(d2[v] == dist[v]);
            if let Some(u) = prev[v] {
                assert(visited[u as int]);
                assert(u != ni);
                assert(d2[u as int] == dist[u as int]);
            }
        } else {
            assert(p2[v] == Some(c));
            assert(d2[c as int] == dist[c as int]);
        }
    }
}

/// A link that lowers no distance, or leads from elsewhere or to a visited
/// node, is relaxed as it stands.
proof fn lemma_relax_keeps(
    links: Seq<NetworkLinkView>,
    nodes: Seq<u16>,
    dist: Seq<u16>,
    visited: Seq<bool>,
    c: int,
    l: int,
)
    requires
        0 <= l < links.len(),
        relaxed_upto(links, nodes, dist, visited, c, l),
        links[l].0 == nodes[c] ==> relaxed(links, nodes, dist, visited, c, l),
    ensures
        relaxed_upto(links, nodes, dist, visited, c, l + 1),
{
    reveal(relaxed_upto);
}

impl PathDiscovery {
    /// The cheapest path from `source` to `destination` by Dijkstra's
    /// algorithm over the known links (a step costing its cheapest link,
    /// costs adding up with saturation at 65535, which counts as
    /// unreachable), ties going to the lowest network number; `[source]`
    /// when the two are the same network. `None` exactly when every path
    /// costs 65535 or more.
    fn dijkstra_shortest_path(&self, source: u16, destination: u16) -> (r: Option<Vec<u16>>)
        ensures
            source == destination ==> (r matches Some(p) && p@ == seq![source]),
            r matches Some(p) ==> {
                &&& is_path(links_view(self.network_topology@), p@, source, destination)
                &&& path_cost(links_view(self.network_topology@), p@) < 65535
                &&& forall|q: Seq<u16>| #[trigger] is_path(links_view(self.network_topology@), q, source, destination)
                    ==> path_cost(links_view(self.network_topology@), p@) <= path_cost(
                    links_view(self.network_topology@),
                    q,
                )
            },
            r is None ==> forall|q: Seq<u16>| #[trigger] is_path(links_view(self.network_topology@), q, source, destination)
                ==> path_cost(links_view(self.network_topology@), q) >= 65535,
    {
        let ghost links = links_view(self.network_topology@);
        if source == destination {
            let mut p: Vec<u16> = Vec::new();
            p.push(source);
            assert(p@ =~= seq![source]);
            assert forall|q: Seq<u16>| #[trigger] is_path(links, q, source, destination) implies path_cost(links, p@)
                <= path_cost(links, q) by {
                lemma_path_cost_nonneg(links, q);
            }
            return Some(p);
        }
        let mut nodes: Vec<u16> = Vec::new();
        let mut j: usize = 0;
        while j < self.network_topology.len()
            invariant
                links == links_view(self.network_topology@),
                j <= self.network_topology@.len(),
                strictly_ascending(nodes@),
                forall|l: int| #![trigger links[l]] 0 <= l < j ==> nodes@.contains(links[l].0) && nodes@.contains(links[l].1),
            decreases self.network_topology@.len() - j,
        {
            assert(links[j as int] == self.network_topology@[j as int]@);
            let ghost before = nodes@;
            insert_sorted(&mut nodes, self.network_topology[j].source_network);
            let ghost middle = nodes@;
            insert_sorted(&mut nodes, self.network_topology[j].destination_network);
            assert forall|l: int| #![trigger links[l]] 0 <= l < j + 1 implies nodes@.contains(links[l].0) && nodes@.contains(links[l].1) by {
                if l < j {
                    assert(before.contains(links[l].0) && before.contains(links[l].1));
                    assert(middle.contains(links[l].0) && middle.contains(links[l].1));
                } else {
                    assert(middle.contains(links[l].0));
                }
            }
            j = j + 1;
        }
        let n = nodes.len();
        let mut dist: Vec<u16> = Vec::new();
        let mut prev: Vec<Option<usize>> = Vec::new();
        let mut visited: Vec<bool> = Vec::new();
        let mut k: usize = 0;
        while k < n
            invariant
                n == nodes@.len(),
                k <= n,
                dist@.len() == k,
                prev@.len() == k,
                visited@.len() == k,
                forall|v: int| 0 <= v < k ==> #[trigger] dist@[v] == u16::MAX,
                forall|v: int| 0 <= v < k ==> #[trigger] prev@[v] is None,
                forall|v: int| 0 <= v < k ==> !#[trigger] visited@[v],
            decreases n - k,
        {
            dist.push(u16::MAX);
            prev.push(None);
            visited.push(false);
            k = k + 1;
        }
        if let Some(si) = index_of(&nodes, source) {
            dist.set(si, 0);
        }
        let ghost mut rank: Seq<nat> = Seq::new(n as nat, |i: int| 0nat);
        let ghost mut step: nat = 0;
        proof {
            reveal(settled);
            reveal(relaxed_upto);
            reveal(prev_ok);
        }
        loop
            invariant
                n == nodes@.len(),
                links == links_view(self.network_topology@),
                source != destination,
                strictly_ascending(nodes@),
                forall|l: int| #![trigger links[l]] 0 <= l < links.len() ==> nodes@.contains(links[l].0) && nodes@.contains(links[l].1),
                dist@.len() == n,
                prev@.len() == n,
                visited@.len() == n,
                rank.len() == n,
                forall|v: int| 0 <= v < n && #[trigger] dist@[v] != u16::MAX && prev@[v] is None ==> nodes@[v] == source,
                forall|v: int| 0 <= v < n && #[trigger] visited@[v] ==> dist@[v] != u16::MAX && rank[v] < step,
                forall|v: int| 0 <= v < n && #[trigger] nodes@[v] == source ==> dist@[v] == 0,
                forall|v: int| 0 <= v < n && #[trigger] visited@[v] ==> nodes@[v] != destination,
                prev_ok(links, nodes@, dist@, prev@, visited@, rank),
                settled(links, nodes@, dist@, visited@, source),
                relaxed_upto(links, nodes@, dist@, visited@, -1, 0),
            decreases count_unvisited(visited@),
        {
            let mut best: Option<usize> = None;
            let mut m: usize = 0;
            while m < n
                invariant
                    m <= n,
                    n == nodes@.len(),
                    dist@.len() == n,
                    visited@.len() == n,
                    best matches Some(b) ==> b < n && !visited@[b as int] && forall|y: int|
                        0 <= y < m && !visited@[y] ==> dist@[b as int] <= #[trigger] dist@[y],
                    best is None ==> forall|y: int| 0 <= y < m ==> #[trigger] visited@[y],
                decreases n - m,
            {
                if !visited[m] {
                    match best {
                        None => {
                            best = Some(m);
                        },
                        Some(b) => {
                            if dist[m] < dist[b] {
                                best = Some(m);
                            }
                        },
                    }
                }
                m = m + 1;
            }
            let c = match best {
                None => {
                    proof {
                        assert forall|q: Seq<u16>| #[trigger] is_path(links, q, source, destination) implies path_cost(
                            links,
                            q,
                        ) >= 65535 by {
                            assert(has_link(links, q[q.len() - 2], q[q.len() - 1]));
                            lemma_on_link_is_node(links, nodes@, q[q.len() - 2], q[q.len() - 1]);
                            let x = choose|x: int| 0 <= x < n && nodes@[x] == destination;
                            assert(visited@[x]);
                        }
                    }
                    return None;
                },
                Some(c) => c,
            };
            if dist[c] == u16::MAX {
                proof {
                    assert forall|q: Seq<u16>| #[trigger] is_path(links, q, source, destination) implies path_cost(
                        links,
                        q,
                    ) >= 65535 by {
                        assert(has_link(links, q[q.len() - 2], q[q.len() - 1]));
                        lemma_on_link_is_node(links, nodes@, q[q.len() - 2], q[q.len() - 1]);
                        let x = choose|x: int| 0 <= x < n && nodes@[x] == destination;
                        assert(!visited@[x]);
                        assert(q.take(q.len() as int) =~= q);
                        lemma_cost_reaches_unvisited(links, nodes@, dist@, visited@, source, c as int, q, q.len() as int);
                    }
                }
                return None;
            }
            proof {
                lemma_count_unvisited_update(visited@, c as int);
                lemma_settle(links, nodes@, dist@, prev@, visited@, rank, step, source, c as int);
            }
            let ghost old_vis = visited@;
            visited.set(c, true);
            proof {
                rank = rank.update(c as int, step);
                step = step + 1;
                assert forall|v: int| 0 <= v < n && #[trigger] visited@[v] implies dist@[v] != u16::MAX && rank[v] < step by {
                    if v != c {
                        assert(old_vis[v]);
                    }
                }
            }
            if nodes[c] == destination {
                proof {
                    reveal(settled);
                    assert(visited@[c as int]);
                }
                let p = Self::chain_path(&nodes, &prev, &visited, &dist, Ghost(rank), Ghost(links), c, source);
                return Some(p);
            }
            let mut l: usize = 0;
            while l < self.network_topology.len()
                invariant
                    n == nodes@.len(),
                    links == links_view(self.network_topology@),
                    source != destination,
                    strictly_ascending(nodes@),
                    forall|l2: int| #![trigger links[l2]] 0 <= l2 < links.len() ==> nodes@.contains(links[l2].0) && nodes@.contains(links[l2].1),
                    c < n,
                    visited@[c as int],
                    dist@[c as int] != u16::MAX,
                    nodes@[c as int] != destination,
                    dist@.len() == n,
                    prev@.len() == n,
                    visited@.len() == n,
                    rank.len() == n,
                    l <= links.len(),
                    forall|v: int| 0 <= v < n && #[trigger] dist@[v] != u16::MAX && prev@[v] is None ==> nodes@[v] == source,
                    forall|v: int| 0 <= v < n && #[trigger] visited@[v] ==> dist@[v] != u16::MAX && rank[v] < step,
                    forall|v: int| 0 <= v < n && #[trigger] nodes@[v] == source ==> dist@[v] == 0,
                    forall|v: int| 0 <= v < n && #[trigger] visited@[v] ==> nodes@[v] != destination,
                    prev_ok(links, nodes@, dist@, prev@, visited@, rank),
                    settled(links, nodes@, dist@, visited@, source),
                    relaxed_upto(links, nodes@, dist@, visited@, c as int, l as int),
                decreases self.network_topology@.len() - l,
            {
                proof {
                    assert(links[l as int] == self.network_topology@[l as int]@);
                }
                let mut lowered = false;
                if self.network_topology[l].source_network == nodes[c] {
                    let neighbor = self.network_topology[l].destination_network;
                    proof {
                        assert(nodes@.contains(links[l as int].1));
                    }
                    if let Some(ni) = index_of(&nodes, neighbor) {
                        let dc = dist[c];
                        let cost = self.network_topology[l].cost;
                        let new_distance: u16 = if dc > u16::MAX - cost { u16::MAX } else { dc + cost };
                        if !visited[ni] && new_distance < dist[ni] {
                            proof {
                                lemma_relax_lowers(links, nodes@, dist@, prev@, visited@, rank, source, c, l as int, ni as int, new_distance);
                            }
                            dist.set(ni, new_distance);
                            prev.set(ni, Some(c));
                            lowered = true;
                        } else {
                            proof {
                                assert forall|x: int|
                                    0 <= x < n && #[trigger] nodes@[x] == links[l as int].1 && !visited@[x] implies dist@[x]
                                        <= sat_add(dist@[c as int] as int, links[l as int].2 as int) by {
                                    assert(x == ni as int);
                                }
                            }
                        }
                    }
                }
                if !lowered {
                    proof {
                        lemma_relax_keeps(links, nodes@, dist@, visited@, c as int, l as int);
                    }
                }
                l = l + 1;
            }
            proof {
                reveal(relaxed_upto);
            }
        }
    }

    /// The path that the `prev` links lead back along from `v` to `source`,
    /// in order; it costs no more than `v`'s distance.
    fn chain_path(
        nodes: &Vec<u16>,
        prev: &Vec<Option<usize>>,
        visited: &Vec<bool>,
        dist: &Vec<u16>,
        Ghost(rank): Ghost<Seq<nat>>,
        Ghost(links): Ghost<Seq<NetworkLinkView>>,
        v: usize,
        source: u16,
    ) -> (r: Vec<u16>)
        requires
            v < nodes@.len(),
            prev@.len() == nodes@.len(),
            visited@.len() == nodes@.len(),
            dist@.len() == nodes@.len(),
            rank.len() == nodes@.len(),
            visited@[v as int],
            prev_ok(links, nodes@, dist@, prev@, visited@, rank),
            forall|w: int| 0 <= w < nodes@.len() && #[trigger] dist@[w] != u16::MAX && prev@[w] is None ==> nodes@[w] == source,
            forall|w: int| 0 <= w < nodes@.len() && #[trigger] visited@[w] ==> dist@[w] != u16::MAX,
            forall|w: int| 0 <= w < nodes@.len() && #[trigger] nodes@[w] == source ==> dist@[w] == 0,
        ensures
            is_path(links, r@, source, nodes@[v as int]),
            path_cost(links, r@) <= dist@[v as int],
        decreases rank[v as int],
    {
        proof {
            reveal(prev_ok);
        }
        match prev[v] {
            None => {
                let mut p: Vec<u16> = Vec::new();
                p.push(nodes[v]);
                assert(dist@[v as int] != u16::MAX);
                p
            },
            Some(u) => {
                assert(prev@[v as int] == Some(u));
                let mut p = Self::chain_path(nodes, prev, visited, dist, Ghost(rank), Ghost(links), u, source);
                let ghost before = p@;
                p.push(nodes[v]);
                proof {
                    assert(p@.drop_last() =~= before);
                    assert(p@[p@.len() - 2] == nodes@[u as int]);
                    assert forall|i: int| 0 <= i < p@.len() - 1 implies has_link(links, #[trigger] p@[i], p@[i + 1]) by {
                        if i < before.len() - 1 {
                            assert(p@[i] == before[i] && p@[i + 1] == before[i + 1]);
                        }
                    }
                }
                p
            },
        }
    }

    /// The cheapest path from `source` to `destination` (none when every
    /// path costs 65535 or more): the one cached for that pair if there is
    /// one, otherwise a new search, whose result is then cached.
    pub fn find_path(&mut self, source: u16, destination: u16) -> (r: Option<Vec<u16>>)
        requires
            old(self).wf(),
        ensures
            final(self).wf(),
            final(self).network_topology@ == old(self).network_topology@,
            source == destination ==> (r matches Some(p) && p@ == seq![source]),
            r matches Some(p) ==> {
                &&& is_path(links_view(old(self).network_topology@), p@, source, destination)
                &&& path_cost(links_view(old(self).network_topology@), p@) < 65535
                &&& forall|q: Seq<u16>| #[trigger] is_path(links_view(old(self).network_topology@), q, source, destination)
                    ==> path_cost(links_view(old(self).network_topology@), p@) <= path_cost(
                    links_view(old(self).network_topology@),
                    q,
                )
            },
            r is None ==> final(self).path_cache@ == old(self).path_cache@
                && forall|q: Seq<u16>| #[trigger] is_path(links_view(old(self).network_topology@), q, source, destination)
                    ==> path_cost(links_view(old(self).network_topology@), q) >= 65535,
            match first_cached(old(self).path_cache@, source, destination) {
                Some(i) => (r matches Some(p) && p@ == old(self).path_cache@[i].1@) && final(self).path_cache@ == old(self).path_cache@,
                None => r matches Some(p) ==> final(self).path_cache@.len() == old(self).path_cache@.len() + 1
                    && final(self).path_cache@.drop_last() == old(self).path_cache@
                    && final(self).path_cache@.last().0 == destination
                    && final(self).path_cache@.last().1@ == p@,
            },
    {
        let ghost links = links_view(self.network_topology@);
        let mut i: usize = 0;
        while i < self.path_cache.len()
            invariant
                self.path_cache@ == old(self).path_cache@,
                self.network_topology@ == old(self).network_topology@,
                links == links_view(self.network_topology@),
                self.wf(),
                i <= self.path_cache@.len(),
                forall|j: int| 0 <= j < i ==> !cache_hit(#[trigger] self.path_cache@[j], source, destination),
            decreases self.path_cache@.len() - i,
        {
            if self.path_cache[i].0 == destination && self.path_cache[i].1.len() > 0 && self.path_cache[i].1[0] == source {
                proof {
                    lemma_first_cached(self.path_cache@, source, destination, i as int);
                    assert(cached_ok(links, self.path_cache@[i as int]));
                }
                let p = copy_u16s(&self.path_cache[i].1);
                return Some(p);
            }
            i = i + 1;
        }
        proof {
            lemma_first_cached_none(self.path_cache@, source, destination);
        }
        let path = self.dijkstra_shortest_path(source, destination);
        match path {
            Some(p) => {
                let ghost pv = p@;
                self.path_cache.push((destination, copy_u16s(&p)));
                assert(cached_ok(links, self.path_cache@.last()));
                assert forall|j: int| 0 <= j < self.path_cache@.len() implies cached_ok(
                    links_view(self.network_topology@), #[trigger] self.path_cache@[j]) by {
                    if j < self.path_cache@.len() - 1 {
                        assert(self.path_cache@[j] == old(self).path_cache@[j]);
                    }
                }
                assert(self.path_cache@.drop_last() =~= old(self).path_cache@);
                Some(p)
            },
            None => None,
        }
    }
}

/// Whether the cache entry `e` holds a cheapest path over `links` from the
/// network it starts at to its destination, one that costs less than
/// 65535, and just that network where it starts at the destination.
pub open spec fn cached_ok(links: Seq<NetworkLinkView>, e: (u16, Vec<u16>)) -> bool {
    &&& is_path_to(links, e.1@, e.0)
    &&& path_cost(links, e.1@) < 65535
    &&& e.1@[0] == e.0 ==> e.1@ == seq![e.0]
    &&& forall|q: Seq<u16>| #[trigger] is_path(links, q, e.1@[0], e.0) ==> path_cost(links, e.1@) <= path_cost(links, q)
}

/// Whether the cache entry `e` is a path from `source` to `destination`.
pub open spec fn cache_hit(e: (u16, Vec<u16>), source: u16, destination: u16) -> bool {
    e.0 == destination && e.1@.len() > 0 && e.1@[0] == source
}

/// The first cache entry for a path from `source` to `destination`, if any.
pub open spec fn first_cached(cache: Seq<(u16, Vec<u16>)>, source: u16, destination: u16) -> Option<int> {
    super::diagnostics::first_index_of(cache.map_values(|e: (u16, Vec<u16>)| cache_hit(e, source, destination)), true)
}

proof fn lemma_first_cached(cache: Seq<(u16, Vec<u16>)>, source: u16, destination: u16, i: int)
    requires
        0 <= i < cache.len(),
        cache_hit(cache[i], source, destination),
        forall|j: int| 0 <= j < i ==> !cache_hit(#[trigger] cache[j], source, destination),
    ensures
        first_cached(cache, source, destination) == Some(i),
{
    let hits = cache.map_values(|e: (u16, Vec<u16>)| cache_hit(e, source, destination));
    assert forall|j: int| 0 <= j < i implies hits[j] != true by {
        assert(hits[j] == cache_hit(cache[j], source, destination));
    }
    assert(hits[i] == true);
    super::diagnostics::lemma_first_index_of(hits, true, i);
}

proof fn lemma_first_cached_none(cache: Seq<(u16, Vec<u16>)>, source: u16, destination: u16)
    requires
        forall|j: int| 0 <= j < cache.len() ==> !cache_hit(#[trigger] cache[j], source, destination),
    ensures
        first_cached(cache, source, destination) is None,
{
    let hits = cache.map_values(|e: (u16, Vec<u16>)| cache_hit(e, source, destination));
    assert forall|j: int| 0 <= j < hits.len() implies hits[j] != true by {
        assert(hits[j] == cache_hit(cache[j], source, destination));
    }
}

impl Default for PathDiscovery {
    fn default() -> (r: Self)
        ensures
            r.wf(),
            r.network_topology@.len() == 0,
            r.path_cache@.len() == 0,
    {
        PathDiscovery::new()
    }
}

} // verus!
