//! The interactive scanner of the ground station: the operator picks
//! interfaces and ports, starts a scan, and watches the connections come in.
use vstd::prelude::*;
use crate::scan::{
    NetV4, NetInterface, Target, addr_is_loopback, append_host_targets, ipnet_with_netmask, append_port_targets,
    first_host, host_count, host_targets, is_loopback, net_with_netmask, port_targets,
};

verus! {

/// Which screen the scanner shows.
pub enum State {
    Selection,
    Scanning,
    Results,
}

/// How many connection attempts of a scan are still out, and the addresses
/// that were connected to so far.
pub struct ScanStatus {
    pub waiting: usize,
    pub found: Vec<Target>,
}

/// The targets that the scanner tries on `nets`: a loopback network only at
/// its own address, any other network at each of its hosts; every port.
pub open spec fn scanner_targets(nets: Seq<NetV4>, ports: Seq<u16>) -> Seq<Target>
    decreases nets.len(),
{
    if nets.len() == 0 {
        seq![]
    } else {
        let n = nets.last();
        scanner_targets(nets.drop_last(), ports) + (if is_loopback(n.addr) {
            port_targets(n.addr, ports, seq![])
        } else {
            host_targets(first_host(n), host_count(n), ports, seq![])
        })
    }
}

/// The scanner's state.
pub struct ScannerCore {
    pub state: State,
    /// The ports to try, each once.
    pub ports: Vec<u16>,
    pub status: ScanStatus,
}

impl ScannerCore {
    pub open spec fn wf(&self) -> bool {
        self.ports@.no_duplicates()
    }

    /// A scanner on its selection screen, with no ports and no results.
    pub fn new() -> (s: ScannerCore)
        ensures
            s.wf(),
            s.state is Selection,
            s.ports@ == Seq::<u16>::empty(),
            s.status.waiting == 0,
            s.status.found@ == Seq::<Target>::empty(),
    {
        ScannerCore {
            state: State::Selection,
            ports: Vec::new(),
            status: ScanStatus { waiting: 0, found: Vec::new() },
        }
    }

    /// Adds a port to try, unless it is listed already.
    pub fn add_port(&mut self, port: u16)
        requires
            old(self).wf(),
        ensures
            final(self).wf(),
            final(self).state == old(self).state,
            final(self).status == old(self).status,
            final(self).ports@ == (if old(self).ports@.contains(port) {
                old(self).ports@
            } else {
                old(self).ports@.push(port)
            }),
    {
        let mut i: usize = 0;
        while i < self.ports.len()
            invariant
                i <= self.ports.len(),
                self.ports@ == old(self).ports@,
                self.state == old(self).state,
                self.status == old(self).status,
                self.wf(),
                forall|j: int| 0 <= j < i ==> self.ports@[j] != port,
            decreases self.ports.len() - i,
        {
            if self.ports[i] == port {
                assert(old(self).ports@[i as int] == port);
                return;
            }
            i += 1;
        }
        self.ports.push(port);
    }

    /// Forgets all ports.
    pub fn clear_ports(&mut self)
        ensures
            final(self).wf(),
            final(self).ports@ == Seq::<u16>::empty(),
            final(self).state == old(self).state,
            final(self).status == old(self).status,
    {
        self.ports.clear();
    }

    /// Starts a scan of `nets`, unless one is running. Returns the targets
    /// to try; the status then waits for one answer per target.
    pub fn begin_scan(&mut self, nets: &Vec<NetV4>) -> (r: Option<Vec<Target>>)
        requires
            old(self).wf(),
            forall|i: int| 0 <= i < nets@.len() ==> (#[trigger] nets@[i]).wf(),
        ensures
            final(self).wf(),
            final(self).ports == old(self).ports,
            old(self).state is Scanning ==> r is None && final(self).state == old(self).state
                && final(self).status == old(self).status,
            !(old(self).state is Scanning) ==> (r matches Some(t) && t@ == scanner_targets(
                nets@,
                old(self).ports@,
            ) && final(self).state is Scanning && final(self).status.waiting == t@.len()
                && final(self).status.found@ == Seq::<Target>::empty()),
    {
        if let State::Scanning = self.state {
            return None;
        }
        let mut out: Vec<Target> = Vec::new();
        let mut i: usize = 0;
        let none: Option<Vec<Target>> = None;
        while i < nets.len()
            invariant
                i <= nets.len(),
                forall|k: int| 0 <= k < nets@.len() ==> (#[trigger] nets@[k]).wf(),
                none is None,
                out@ == scanner_targets(nets@.take(i as int), self.ports@),
            decreases nets.len() - i,
        {
            let n = &nets[i];
            assert(nets@.take(i + 1).drop_last() =~= nets@.take(i as int));
            assert(nets@.take(i + 1).last() == *n);
            if addr_is_loopback(n.addr) {
                append_port_targets(n.addr, &self.ports, &none, &mut out);
            } else {
                let (first, last) = n.hosts();
                append_host_targets(first, last, &self.ports, &none, &mut out);
            }
            i += 1;
        }
        assert(nets@.take(i as int) =~= nets@);
        self.state = State::Scanning;
        self.status = ScanStatus { waiting: out.len(), found: Vec::new() };
        Some(out)
    }

    /// One connection attempt answered: with the address connected to, or
    /// with nothing.
    pub fn record_response(&mut self, r: Option<Target>)
        requires
            old(self).status.waiting > 0,
        ensures
            final(self).state == old(self).state,
            final(self).ports == old(self).ports,
            final(self).status.waiting == old(self).status.waiting - 1,
            final(self).status.found@ == (match r {
                Some(t) => old(self).status.found@.push(t),
                None => old(self).status.found@,
            }),
    {
        self.status.waiting = self.status.waiting - 1;
        if let Some(t) = r {
            self.status.found.push(t);
        }
    }

    /// All answers are in: show the results.
    pub fn finish_scan(&mut self)
        ensures
            final(self).state is Results,
            final(self).ports == old(self).ports,
            final(self).status == old(self).status,
    {
        self.state = State::Results;
    }

    /// Back to the selection screen.
    pub fn restart(&mut self)
        ensures
            final(self).state is Selection,
            final(self).ports == old(self).ports,
            final(self).status == old(self).status,
    {
        self.state = State::Selection;
    }
}

/// The name and network of an interface: its friendly name if it has one,
/// and the network of its first IPv4 address.
pub fn interface_to_net(iface: &NetInterface) -> (r: (String, NetV4))
    requires
        iface.ipv4@.len() > 0,
        net_with_netmask(iface.ipv4@[0].0, iface.ipv4@[0].1) is Some,
    ensures
        r.0@ == (match iface.friendly_name {
            Some(n) => n@,
            None => iface.name@,
        }),
        Some(r.1) == net_with_netmask(iface.ipv4@[0].0, iface.ipv4@[0].1),
{
    let name = match &iface.friendly_name {
        Some(n) => n.clone(),
        None => iface.name.clone(),
    };
    let (addr, mask) = iface.ipv4[0];
    match ipnet_with_netmask(addr, mask) {
        Some(net) => (name, net),
        None => (name, NetV4 { addr: 0, prefix_len: 0 }),
    }
}

} // verus!
