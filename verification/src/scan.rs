//! Network scanning: which hosts and ports a scan tries, and how often.
//!
//! Addresses are IPv4 addresses in host byte order (`u32`); a scan target is
//! an address and a port.
use vstd::prelude::*;

verus! {

/// An IPv4 address and a port.
pub type Target = (u32, u16);

/// An IPv4 network: an address and the length of its prefix.
#[derive(Clone, Copy, Debug)]
pub struct NetV4 {
    pub addr: u32,
    pub prefix_len: u8,
}

/// The network mask with the `p` highest bits set.
pub open spec fn prefix_mask(p: u8) -> u32 {
    if p == 0 {
        0u32
    } else {
        0xffff_ffffu32 << ((32 - p) as u32)
    }
}

/// The prefix length that `mask` stands for, if it is a valid network mask.
pub open spec fn mask_prefix(mask: u32) -> Option<u8> {
    if exists|p: u8| p <= 32 && prefix_mask(p) == mask {
        Some(choose|p: u8| p <= 32 && prefix_mask(p) == mask)
    } else {
        None
    }
}

/// The network formed from an address and a network mask, if the mask is
/// valid.
pub open spec fn net_with_netmask(addr: u32, mask: u32) -> Option<NetV4> {
    match mask_prefix(mask) {
        Some(p) => Some(NetV4 { addr, prefix_len: p }),
        None => None,
    }
}

/// Calls `ipnet::Ipv4Net::with_netmask`. Its source takes the prefix length
/// to be the number of leading ones of the mask and fails exactly when ones
/// follow a zero in the mask; the network keeps the given address. So it
/// returns the network of `addr` with the prefix length of `mask` when `mask`
/// is a valid network mask, and fails otherwise.
#[verifier::external_body]
pub(crate) fn ipnet_with_netmask(addr: u32, mask: u32) -> (r: Option<NetV4>)
    ensures
        r == net_with_netmask(addr, mask),
{
    match ipnet::Ipv4Net::with_netmask(addr.into(), mask.into()) {
        Ok(net) => Some(NetV4 { addr: net.addr().into(), prefix_len: net.prefix_len() }),
        Err(_) => None,
    }
}

/// Whether an address lies in 127.0.0.0/8.
pub open spec fn is_loopback(addr: u32) -> bool {
    addr >> 24u32 == 127u32
}

/// The network address of `n`: its address with the host bits cleared.
pub open spec fn network_addr(n: NetV4) -> u32 {
    n.addr & prefix_mask(n.prefix_len)
}

/// The broadcast address of `n`: its address with the host bits set.
pub open spec fn broadcast_addr(n: NetV4) -> u32 {
    n.addr | !prefix_mask(n.prefix_len)
}

/// The first host address of `n`: the network address, or the one after it
/// when the prefix is shorter than 31.
pub open spec fn first_host(n: NetV4) -> int {
    if n.prefix_len < 31 {
        network_addr(n) + 1
    } else {
        network_addr(n) as int
    }
}

/// The last host address of `n`: the broadcast address, or the one before it
/// when the prefix is shorter than 31.
pub open spec fn last_host(n: NetV4) -> int {
    if n.prefix_len < 31 {
        broadcast_addr(n) - 1
    } else {
        broadcast_addr(n) as int
    }
}

/// Whether `addr` is in 127.0.0.0/8.
pub fn addr_is_loopback(addr: u32) -> (r: bool)
    ensures
        r == is_loopback(addr),
{
    addr >> 24u32 == 127u32
}

impl NetV4 {
    /// A network is valid when its prefix length is at most 32.
    pub open spec fn wf(&self) -> bool {
        self.prefix_len <= 32
    }

    /// The network mask of this network.
    pub fn netmask(&self) -> (m: u32)
        requires
            self.wf(),
        ensures
            m == prefix_mask(self.prefix_len),
    {
        if self.prefix_len == 0 {
            0
        } else {
            0xffff_ffffu32 << (32 - self.prefix_len) as u32
        }
    }

    /// The first and the last host address of this network, as
    /// `ipnet::Ipv4Net::hosts` documents them: the network and broadcast
    /// addresses are left out when the prefix is shorter than 31.
    pub fn hosts(&self) -> (r: (u32, u32))
        requires
            self.wf(),
        ensures
            r.0 == first_host(*self),
            r.1 == last_host(*self),
            r.0 <= r.1,
    {
        let mask = self.netmask();
        let network = self.addr & mask;
        let broadcast = self.addr | !mask;
        let ghost p = self.prefix_len;
        let a = self.addr;
        if self.prefix_len < 31 {
            assert((a & mask) + 2 <= (a | !mask)) by (bit_vector)
                requires
                    p < 31,
                    mask == (if p == 0 {
                        0u32
                    } else {
                        0xffff_ffffu32 << ((32 - p) as u32)
                    }),
            ;
            (network + 1, broadcast - 1)
        } else {
            assert((a & mask) <= (a | !mask)) by (bit_vector);
            (network, broadcast)
        }
    }
}

/// The targets for one host: the host with each port in order, leaving out
/// excluded targets.
pub open spec fn port_targets(host: u32, ports: Seq<u16>, excluded: Seq<Target>) -> Seq<Target>
    decreases ports.len(),
{
    if ports.len() == 0 {
        seq![]
    } else {
        let rest = port_targets(host, ports.drop_last(), excluded);
        let t = (host, ports.last());
        if excluded.contains(t) {
            rest
        } else {
            rest.push(t)
        }
    }
}

/// The targets for `count` consecutive hosts starting at `first`.
pub open spec fn host_targets(first: int, count: nat, ports: Seq<u16>, excluded: Seq<Target>) -> Seq<
    Target,
>
    decreases count,
{
    if count == 0 {
        seq![]
    } else {
        host_targets(first, (count - 1) as nat, ports, excluded) + port_targets(
            (first + count - 1) as u32,
            ports,
            excluded,
        )
    }
}

/// The number of host addresses of `n`.
pub open spec fn host_count(n: NetV4) -> nat {
    if first_host(n) <= last_host(n) {
        (last_host(n) - first_host(n) + 1) as nat
    } else {
        0
    }
}

/// The targets of one scan round over `nets`: every host of every network
/// that is not a loopback network, with every port, in order, leaving out the
/// excluded targets.
pub open spec fn round_targets(nets: Seq<NetV4>, ports: Seq<u16>, excluded: Seq<Target>) -> Seq<
    Target,
>
    decreases nets.len(),
{
    if nets.len() == 0 {
        seq![]
    } else {
        let n = nets.last();
        round_targets(nets.drop_last(), ports, excluded) + (if is_loopback(n.addr) {
            seq![]
        } else {
            host_targets(first_host(n), host_count(n), ports, excluded)
        })
    }
}

/// Whether `t` occurs in `v`.
pub fn contains_target(v: &Vec<Target>, t: Target) -> (r: bool)
    ensures
        r == v@.contains(t),
{
    let mut i: usize = 0;
    while i < v.len()
        invariant
            i <= v.len(),
            forall|j: int| 0 <= j < i ==> v@[j] != t,
        decreases v.len() - i,
    {
        let e = v[i];
        if e.0 == t.0 && e.1 == t.1 {
            return true;
        }
        i += 1;
    }
    false
}

/// How many scan rounds a scan makes.
#[derive(Clone, Debug)]
pub enum ScanCount {
    /// Rounds follow each other without end.
    Infinite,
    /// This many rounds, then the scan ends.
    Limited(u32),
}

impl Default for ScanCount {
    /// A single round.
    fn default() -> (r: ScanCount)
        ensures
            r == ScanCount::Limited(1),
    {
        ScanCount::Limited(1)
    }
}

/// Which peers a scan leaves alone.
#[derive(Clone, Debug)]
pub enum PeerExclusion {
    /// Every target is tried in every round.
    Never,
    /// These targets are never tried.
    PreExcluded(Vec<Target>),
    /// A target that was connected to is not tried again.
    ConnectOnce,
}

impl Default for PeerExclusion {
    /// A connected target is not tried again.
    fn default() -> (r: PeerExclusion)
        ensures
            r is ConnectOnce,
    {
        PeerExclusion::ConnectOnce
    }
}

/// A network interface of this machine, as the scan sees it.
pub struct NetInterface {
    pub name: String,
    pub friendly_name: Option<String>,
    /// Its IPv4 addresses, each with its network mask.
    pub ipv4: Vec<(u32, u32)>,
}

/// The networks that a scan searches: for each interface with an IPv4
/// address, the network of its first address, when its mask is valid.
pub open spec fn interface_nets_of(interfaces: Seq<NetInterface>) -> Seq<NetV4>
    decreases interfaces.len(),
{
    if interfaces.len() == 0 {
        seq![]
    } else {
        let rest = interface_nets_of(interfaces.drop_last());
        let i = interfaces.last();
        if i.ipv4@.len() > 0 {
            match net_with_netmask(i.ipv4@[0].0, i.ipv4@[0].1) {
                Some(n) => rest.push(n),
                None => rest,
            }
        } else {
            rest
        }
    }
}

/// The networks of the given interfaces, as `interface_nets_of` states.
pub fn interface_nets(interfaces: &Vec<NetInterface>) -> (r: Vec<NetV4>)
    ensures
        r@ == interface_nets_of(interfaces@),
        forall|i: int| 0 <= i < r@.len() ==> (#[trigger] r@[i]).wf(),
{
    let mut nets: Vec<NetV4> = Vec::new();
    let mut i: usize = 0;
    while i < interfaces.len()
        invariant
            i <= interfaces.len(),
            nets@ == interface_nets_of(interfaces@.take(i as int)),
            forall|k: int| 0 <= k < nets@.len() ==> (#[trigger] nets@[k]).wf(),
        decreases interfaces.len() - i,
    {
        assert(interfaces@.take(i + 1).drop_last() =~= interfaces@.take(i as int));
        let iface = &interfaces[i];
        if iface.ipv4.len() > 0 {
            let (addr, mask) = iface.ipv4[0];
            match ipnet_with_netmask(addr, mask) {
                Some(n) => {
                    nets.push(n);
                },
                None => {},
            }
        }
        i += 1;
    }
    assert(interfaces@.take(i as int) =~= interfaces@);
    nets
}

/// The configuration of a scan, built up one setting at a time.
pub struct ScanBuilder {
    pub scan_count: ScanCount,
    pub tgt_ports: Vec<u16>,
    pub excluded_peers: PeerExclusion,
    pub parallel_attempts: usize,
}

/// The state of a running scan.
pub struct ScanPlan {
    /// Rounds still to run; `None` when the scan never ends.
    pub rounds_left: Option<u32>,
    pub ports: Vec<u16>,
    /// The excluded targets; `None` when nothing is ever excluded.
    pub excluded: Option<Vec<Target>>,
    pub parallel_attempts: usize,
}

/// The targets that an exclusion list leaves out.
pub open spec fn excluded_of(e: Option<Vec<Target>>) -> Seq<Target> {
    match e {
        Some(v) => v@,
        None => seq![],
    }
}

impl Default for ScanBuilder {
    /// One round, no ports, connected targets tried only once, 500 connection
    /// attempts at a time.
    fn default() -> (r: ScanBuilder)
        ensures
            r.scan_count == ScanCount::Limited(1),
            r.tgt_ports@ == Seq::<u16>::empty(),
            r.excluded_peers is ConnectOnce,
            r.parallel_attempts == 500,
    {
        ScanBuilder {
            scan_count: ScanCount::Limited(1),
            excluded_peers: PeerExclusion::ConnectOnce,
            tgt_ports: Vec::new(),
            parallel_attempts: 500,
        }
    }
}

impl ScanBuilder {
    /// Sets how many rounds the scan makes.
    pub fn scan_count(self, scan_count: ScanCount) -> (r: ScanBuilder)
        ensures
            r.scan_count == scan_count,
            r.tgt_ports == self.tgt_ports,
            r.excluded_peers == self.excluded_peers,
            r.parallel_attempts == self.parallel_attempts,
    {
        ScanBuilder { scan_count, ..self }
    }

    /// Sets which peers the scan leaves alone.
    pub fn excluded_peers(self, peers: PeerExclusion) -> (r: ScanBuilder)
        ensures
            r.scan_count == self.scan_count,
            r.tgt_ports == self.tgt_ports,
            r.excluded_peers == peers,
            r.parallel_attempts == self.parallel_attempts,
    {
        ScanBuilder { excluded_peers: peers, ..self }
    }

    /// Sets how many connection attempts run at the same time.
    pub fn parallel_attempts(self, parallel_attempts: usize) -> (r: ScanBuilder)
        ensures
            r.scan_count == self.scan_count,
            r.tgt_ports == self.tgt_ports,
            r.excluded_peers == self.excluded_peers,
            r.parallel_attempts == parallel_attempts,
    {
        ScanBuilder { parallel_attempts, ..self }
    }

    /// Adds a port to the ports the scan tries.
    pub fn add_port(self, port: u16) -> (r: ScanBuilder)
        ensures
            r.scan_count == self.scan_count,
            r.tgt_ports@ == self.tgt_ports@.push(port),
            r.excluded_peers == self.excluded_peers,
            r.parallel_attempts == self.parallel_attempts,
    {
        let mut s = self;
        s.tgt_ports.push(port);
        s
    }

    /// The initial state of the scan: its round budget and its exclusion
    /// list.
    pub fn plan(self) -> (r: ScanPlan)
        ensures
            r.rounds_left == (match self.scan_count {
                ScanCount::Infinite => None,
                ScanCount::Limited(l) => Some(l),
            }),
            r.ports == self.tgt_ports,
            r.parallel_attempts == self.parallel_attempts,
            match self.excluded_peers {
                PeerExclusion::Never => r.excluded is None,
                PeerExclusion::PreExcluded(p) => r.excluded == Some(p),
                PeerExclusion::ConnectOnce => r.excluded matches Some(v) && v@.len() == 0,
            },
    {
        let rounds_left = match self.scan_count {
            ScanCount::Infinite => None,
            ScanCount::Limited(l) => Some(l),
        };
        let excluded = match self.excluded_peers {
            PeerExclusion::Never => None,
            PeerExclusion::PreExcluded(p) => Some(p),
            PeerExclusion::ConnectOnce => Some(Vec::new()),
        };
        ScanPlan {
            rounds_left,
            ports: self.tgt_ports,
            excluded,
            parallel_attempts: self.parallel_attempts,
        }
    }
}

/// What one call of `ScanPlan::start_round` does to the round budget: whether
/// a round runs, and the budget after it.
pub open spec fn next_round(rounds_left: Option<u32>) -> (bool, Option<u32>) {
    match rounds_left {
        None => (true, None),
        Some(k) => if k >= 1 {
            (true, Some((k - 1) as u32))
        } else {
            (false, Some(k))
        },
    }
}

/// How many rounds run before the scan ends, starting from a budget, when
/// `start_round` is asked at most `tries` times.
pub open spec fn rounds_run(rounds_left: Option<u32>, tries: nat) -> nat
    decreases tries,
{
    if tries == 0 {
        0
    } else {
        let (go, next) = next_round(rounds_left);
        if go {
            1 + rounds_run(next, (tries - 1) as nat)
        } else {
            0
        }
    }
}

/// A scan limited to `l` rounds runs exactly `l` rounds, however often it is
/// asked for more.
pub proof fn lemma_limited_scan_rounds(l: u32, tries: nat)
    requires
        tries >= l,
    ensures
        rounds_run(Some(l), tries) == l,
    decreases l,
{
    if l > 0 {
        lemma_limited_scan_rounds((l - 1) as u32, (tries - 1) as nat);
    } else if tries > 0 {
        assert(next_round(Some(0u32)) == (false, Some(0u32)));
    }
}

/// An endless scan runs a round every time it is asked.
pub proof fn lemma_infinite_scan_rounds(tries: nat)
    ensures
        rounds_run(None, tries) == tries,
    decreases tries,
{
    if tries > 0 {
        lemma_infinite_scan_rounds((tries - 1) as nat);
    }
}

proof fn lemma_concat_contains<A>(a: Seq<A>, b: Seq<A>, x: A)
    requires
        !a.contains(x),
        !b.contains(x),
    ensures
        !(a + b).contains(x),
{
    if (a + b).contains(x) {
        let k = choose|k: int| 0 <= k < (a + b).len() && (a + b)[k] == x;
        if k < a.len() {
            assert(a[k] == x);
        } else {
            assert(b[k - a.len()] == x);
        }
    }
}

proof fn lemma_port_targets_skip(host: u32, ports: Seq<u16>, excluded: Seq<Target>, t: Target)
    requires
        excluded.contains(t),
    ensures
        !port_targets(host, ports, excluded).contains(t),
    decreases ports.len(),
{
    if ports.len() > 0 {
        let rest = port_targets(host, ports.drop_last(), excluded);
        lemma_port_targets_skip(host, ports.drop_last(), excluded, t);
        let u = (host, ports.last());
        if !excluded.contains(u) {
            assert(u != t);
            lemma_concat_contains(rest, seq![u], t);
            assert(rest.push(u) =~= rest + seq![u]);
        }
    }
}

proof fn lemma_host_targets_skip(
    first: int,
    count: nat,
    ports: Seq<u16>,
    excluded: Seq<Target>,
    t: Target,
)
    requires
        excluded.contains(t),
    ensures
        !host_targets(first, count, ports, excluded).contains(t),
    decreases count,
{
    if count > 0 {
        lemma_host_targets_skip(first, (count - 1) as nat, ports, excluded, t);
        lemma_port_targets_skip((first + count - 1) as u32, ports, excluded, t);
        lemma_concat_contains(
            host_targets(first, (count - 1) as nat, ports, excluded),
            port_targets((first + count - 1) as u32, ports, excluded),
            t,
        );
    }
}

/// A target on a scan's exclusion list is never tried in a round, on any
/// networks and ports.
pub proof fn lemma_excluded_never_tried(
    nets: Seq<NetV4>,
    ports: Seq<u16>,
    excluded: Seq<Target>,
    t: Target,
)
    requires
        excluded.contains(t),
    ensures
        !round_targets(nets, ports, excluded).contains(t),
    decreases nets.len(),
{
    if nets.len() > 0 {
        let n = nets.last();
        lemma_excluded_never_tried(nets.drop_last(), ports, excluded, t);
        let tail = if is_loopback(n.addr) {
            seq![]
        } else {
            host_targets(first_host(n), host_count(n), ports, excluded)
        };
        if !is_loopback(n.addr) {
            lemma_host_targets_skip(first_host(n), host_count(n), ports, excluded, t);
        }
        lemma_concat_contains(round_targets(nets.drop_last(), ports, excluded), tail, t);
    }
}

/// Under the connect-once rule, a target that was connected to is not tried
/// again: once `ScanPlan::record_connection` has recorded it, no later round
/// holds it.
pub proof fn lemma_connect_once(nets: Seq<NetV4>, ports: Seq<u16>, excluded: Seq<Target>, t: Target)
    ensures
        !round_targets(
            nets,
            ports,
            if excluded.contains(t) {
                excluded
            } else {
                excluded.push(t)
            },
        ).contains(t),
{
    let after = if excluded.contains(t) {
        excluded
    } else {
        excluded.push(t)
    };
    if !excluded.contains(t) {
        assert(after[excluded.len() as int] == t);
    }
    lemma_excluded_never_tried(nets, ports, after, t);
}

proof fn lemma_concat_keeps<A>(a: Seq<A>, b: Seq<A>, x: A)
    ensures
        a.contains(x) ==> (a + b).contains(x),
        b.contains(x) ==> (a + b).contains(x),
{
    if a.contains(x) {
        let k = choose|k: int| 0 <= k < a.len() && a[k] == x;
        assert((a + b)[k] == x);
    }
    if b.contains(x) {
        let k = choose|k: int| 0 <= k < b.len() && b[k] == x;
        assert((a + b)[a.len() + k] == x);
    }
}

proof fn lemma_port_targets_has(host: u32, ports: Seq<u16>, excluded: Seq<Target>, port: u16)
    requires
        ports.contains(port),
        !excluded.contains((host, port)),
    ensures
        port_targets(host, ports, excluded).contains((host, port)),
    decreases ports.len(),
{
    let rest = port_targets(host, ports.drop_last(), excluded);
    let t = (host, ports.last());
    if ports.last() == port {
        assert(rest.push(t)[rest.len() as int] == t);
    } else {
        let k = choose|k: int| 0 <= k < ports.len() && ports[k] == port;
        assert(ports.drop_last()[k] == port);
        lemma_port_targets_has(host, ports.drop_last(), excluded, port);
        if !excluded.contains(t) {
            lemma_concat_keeps(rest, seq![t], (host, port));
            assert(rest.push(t) =~= rest + seq![t]);
        }
    }
}

proof fn lemma_host_targets_has(
    first: int,
    count: nat,
    ports: Seq<u16>,
    excluded: Seq<Target>,
    h: int,
    port: u16,
)
    requires
        first <= h < first + count,
        0 <= h <= u32::MAX,
        ports.contains(port),
        !excluded.contains((h as u32, port)),
    ensures
        host_targets(first, count, ports, excluded).contains((h as u32, port)),
    decreases count,
{
    let a = host_targets(first, (count - 1) as nat, ports, excluded);
    let b = port_targets((first + count - 1) as u32, ports, excluded);
    if h == first + count - 1 {
        lemma_port_targets_has(h as u32, ports, excluded, port);
    } else {
        lemma_host_targets_has(first, (count - 1) as nat, ports, excluded, h, port);
    }
    lemma_concat_keeps(a, b, (h as u32, port));
}

/// A round tries every host of every network that is not a loopback
/// network, on every port, unless that exact host and port pair is
/// excluded: excluding one port of a host leaves its other ports in.
pub proof fn lemma_round_targets_complete(
    nets: Seq<NetV4>,
    ports: Seq<u16>,
    excluded: Seq<Target>,
    k: int,
    h: int,
    port: u16,
)
    requires
        0 <= k < nets.len(),
        !is_loopback(nets[k].addr),
        first_host(nets[k]) <= h <= last_host(nets[k]),
        0 <= h <= u32::MAX,
        ports.contains(port),
        !excluded.contains((h as u32, port)),
    ensures
        round_targets(nets, ports, excluded).contains((h as u32, port)),
    decreases nets.len(),
{
    let rest = round_targets(nets.drop_last(), ports, excluded);
    let n = nets.last();
    let tail = if is_loopback(n.addr) {
        seq![]
    } else {
        host_targets(first_host(n), host_count(n), ports, excluded)
    };
    if k == nets.len() - 1 {
        lemma_host_targets_has(first_host(n), host_count(n), ports, excluded, h, port);
    } else {
        assert(nets.drop_last()[k] == nets[k]);
        lemma_round_targets_complete(nets.drop_last(), ports, excluded, k, h, port);
    }
    lemma_concat_keeps(rest, tail, (h as u32, port));
}

impl ScanPlan {
    /// Consumes one round of the budget: returns whether a round runs. An
    /// endless scan always runs another round.
    pub fn start_round(&mut self) -> (r: bool)
        ensures
            (r, final(self).rounds_left) == next_round(old(self).rounds_left),
            final(self).ports == old(self).ports,
            final(self).excluded == old(self).excluded,
            final(self).parallel_attempts == old(self).parallel_attempts,
    {
        match self.rounds_left {
            None => true,
            Some(k) => {
                if k >= 1 {
                    self.rounds_left = Some(k - 1);
                    true
                } else {
                    false
                }
            },
        }
    }

    /// Records a target that was connected to. Under the connect-once rule
    /// it is excluded from later rounds; under the other rules nothing
    /// changes.
    pub fn record_connection(&mut self, t: Target)
        ensures
            final(self).rounds_left == old(self).rounds_left,
            final(self).ports == old(self).ports,
            final(self).parallel_attempts == old(self).parallel_attempts,
            match old(self).excluded {
                Some(v) => final(self).excluded matches Some(w) && w@ == (if v@.contains(t) {
                    v@
                } else {
                    v@.push(t)
                }),
                None => final(self).excluded is None,
            },
    {
        match &mut self.excluded {
            Some(v) => {
                if !contains_target(v, t) {
                    v.push(t);
                }
            },
            None => {},
        }
    }

    /// The targets of one round over `nets`, as `round_targets` states.
    pub fn round_targets(&self, nets: &Vec<NetV4>) -> (r: Vec<Target>)
        requires
            forall|i: int| 0 <= i < nets@.len() ==> (#[trigger] nets@[i]).wf(),
        ensures
            r@ == round_targets(nets@, self.ports@, excluded_of(self.excluded)),
    {
        let ghost excl = excluded_of(self.excluded);
        let mut out: Vec<Target> = Vec::new();
        let mut i: usize = 0;
        while i < nets.len()
            invariant
                i <= nets.len(),
                forall|k: int| 0 <= k < nets@.len() ==> (#[trigger] nets@[k]).wf(),
                excl == excluded_of(self.excluded),
                out@ == round_targets(nets@.take(i as int), self.ports@, excl),
            decreases nets.len() - i,
        {
            let n = &nets[i];
            assert(nets@.take(i + 1).drop_last() =~= nets@.take(i as int));
            assert(nets@.take(i + 1).last() == *n);
            if !addr_is_loopback(n.addr) {
                let (first, last) = n.hosts();
                append_host_targets(first, last, &self.ports, &self.excluded, &mut out);
            }
            i += 1;
        }
        assert(nets@.take(i as int) =~= nets@);
        out
    }
}

/// Appends the targets of one host to `out`, as `port_targets` states.
pub fn append_port_targets(
    host: u32,
    ports: &Vec<u16>,
    excluded: &Option<Vec<Target>>,
    out: &mut Vec<Target>,
)
    ensures
        final(out)@ == old(out)@ + port_targets(host, ports@, excluded_of(*excluded)),
{
    let ghost before = out@;
    let ghost excl = excluded_of(*excluded);
    let mut j: usize = 0;
    while j < ports.len()
        invariant
            j <= ports.len(),
            excl == excluded_of(*excluded),
            out@ == before + port_targets(host, ports@.take(j as int), excl),
        decreases ports.len() - j,
    {
        let t = (host, ports[j]);
        assert(ports@.take(j + 1).drop_last() =~= ports@.take(j as int));
        let skip = match excluded {
            Some(v) => contains_target(v, t),
            None => false,
        };
        if !skip {
            out.push(t);
        }
        j += 1;
    }
    assert(ports@.take(j as int) =~= ports@);
}

/// Appends the targets of the hosts `first..=last` to `out`, as
/// `host_targets` states.
pub fn append_host_targets(
    first: u32,
    last: u32,
    ports: &Vec<u16>,
    excluded: &Option<Vec<Target>>,
    out: &mut Vec<Target>,
)
    requires
        first <= last,
    ensures
        final(out)@ == old(out)@ + host_targets(
            first as int,
            (last - first + 1) as nat,
            ports@,
            excluded_of(*excluded),
        ),
{
    let ghost base = out@;
    let ghost excl = excluded_of(*excluded);
    let mut h: u64 = first as u64;
    while h <= last as u64
        invariant
            first <= h <= last as u64 + 1,
            first <= last,
            excl == excluded_of(*excluded),
            out@ == base + host_targets(first as int, (h - first) as nat, ports@, excl),
        decreases last as u64 + 1 - h,
    {
        let ghost before = out@;
        append_port_targets(h as u32, ports, excluded, out);
        assert(out@ =~= base + host_targets(first as int, (h + 1 - first) as nat, ports@, excl));
        h += 1;
    }
}

} // verus!
