use vstd::prelude::*;

use crate::ip_port::create_default_ipv4;

verus! {

pub type Port = u16;

/// An IP address: four octets, or eight 16-bit groups.
#[derive(Clone, Copy, PartialEq, Eq, Debug)]
pub enum IpAddress {
    V4([u8; 4]),
    V6([u16; 8]),
}

/// An IP address and a port.
#[derive(Clone, Copy, PartialEq, Eq, Debug)]
pub struct SocketAddress {
    pub ip: IpAddress,
    pub port: Port,
}

/// The first port of the range scanned when the requested one is taken.
pub const FALLBACK_START: Port = 7878;

/// The end (exclusive) of the range scanned when the requested one is taken.
pub const FALLBACK_END: Port = 8989;

/// The host's loopback address and its address on the local network.
pub struct Addr {
    pub local_ip: [u8; 4],
    pub network_ip: IpAddress,
}

/// The addresses the server is reachable on, and the one that a bind succeeded on.
#[derive(Clone, Copy, Debug)]
pub struct ResolvedAddresses {
    pub loopback: SocketAddress,
    pub lan: SocketAddress,
    pub bind: SocketAddress,
}

/// No port was free: neither the requested one nor any of `start..end`.
#[derive(Clone, Copy, PartialEq, Eq, Structural, Debug)]
pub struct PortUnavailable {
    pub requested: Port,
    pub start: Port,
    pub end: Port,
}

/// The ports tried for a requested port: the port itself, then the fallback range.
pub open spec fn is_candidate(requested: Port, p: Port) -> bool {
    p == requested || (FALLBACK_START <= p < FALLBACK_END)
}

/// Whether `p` is tried before `q` when `requested` is asked for.
pub open spec fn tried_before(requested: Port, p: Port, q: Port) -> bool {
    q != requested && (p == requested || (FALLBACK_START <= p < q))
}

impl Addr {
    pub open spec fn loopback_at(&self, port: Port) -> SocketAddress {
        SocketAddress { ip: IpAddress::V4(self.local_ip), port }
    }

    pub open spec fn lan_at(&self, port: Port) -> SocketAddress {
        SocketAddress { ip: self.network_ip, port }
    }

    /// Both probes of `port` reported it taken.
    pub open spec fn taken<F: Fn(SocketAddress) -> bool>(&self, probe: &F, port: Port) -> bool {
        probe.ensures((self.loopback_at(port),), false) && probe.ensures((self.lan_at(port),), false)
    }

    /// `r` holds the addresses at `port`, bound where a probe reported the
    /// address free, the loopback one first.
    pub open spec fn bound_at<F: Fn(SocketAddress) -> bool>(
        &self,
        probe: &F,
        port: Port,
        r: ResolvedAddresses,
    ) -> bool {
        &&& r.loopback == self.loopback_at(port)
        &&& r.lan == self.lan_at(port)
        &&& (r.bind == r.loopback && probe.ensures((r.loopback,), true)) || (r.bind == r.lan
            && probe.ensures((r.loopback,), false) && probe.ensures((r.lan,), true))
    }

    /// What resolving `requested` gives: the first candidate port that a probe
    /// reported free on either interface, after all earlier ones were reported
    /// taken on both; or, when every candidate was reported taken, an error.
    pub open spec fn resolution<F: Fn(SocketAddress) -> bool>(
        &self,
        probe: &F,
        requested: Port,
        r: Result<ResolvedAddresses, PortUnavailable>,
    ) -> bool {
        match r {
            Ok(ra) => {
                &&& is_candidate(requested, ra.loopback.port)
                &&& self.bound_at(probe, ra.loopback.port, ra)
                &&& forall|p: Port| #[trigger]
                    tried_before(requested, p, ra.loopback.port) ==> self.taken(probe, p)
            },
            Err(e) => {
                &&& e == PortUnavailable {
                    requested,
                    start: FALLBACK_START,
                    end: FALLBACK_END,
                }
                &&& forall|p: Port| #[trigger] is_candidate(requested, p) ==> self.taken(probe, p)
            },
        }
    }

    /// The addresses of a host whose network address is `network_ip`.
    pub fn new(network_ip: IpAddress) -> (r: Addr)
        ensures
            r.local_ip == [127u8, 0u8, 0u8, 1u8],
            r.network_ip == network_ip,
    {
        Addr { local_ip: create_default_ipv4(), network_ip }
    }

    /// Probes `port` on both interfaces, each once; `probe` tries a bind and
    /// releases it at once.
    pub fn is_free_port<F: Fn(SocketAddress) -> bool>(&self, port: Port, probe: &F) -> (r: Option<
        ResolvedAddresses,
    >)
        requires
            forall|a: SocketAddress| probe.requires((a,)),
        ensures
            match r {
                Some(ra) => self.bound_at(probe, port, ra),
                None => self.taken(probe, port),
            },
    {
        let local_addr = SocketAddress { ip: IpAddress::V4(self.local_ip), port };
        let network_addr = SocketAddress { ip: self.network_ip, port };
        let local_free = probe(local_addr);
        let network_free = probe(network_addr);
        if local_free {
            Some(ResolvedAddresses { loopback: local_addr, lan: network_addr, bind: local_addr })
        } else if network_free {
            Some(ResolvedAddresses { loopback: local_addr, lan: network_addr, bind: network_addr })
        } else {
            None
        }
    }

    /// Finds the port to serve on: `port` where it is free on either
    /// interface, else the first free port of `7878..8989` other than `port`.
    pub fn get_address<F: Fn(SocketAddress) -> bool>(&self, port: Port, probe: &F) -> (r: Result<
        ResolvedAddresses,
        PortUnavailable,
    >)
        requires
            forall|a: SocketAddress| probe.requires((a,)),
        ensures
            self.resolution(probe, port, r),
    {
        if let Some(ra) = self.is_free_port(port, probe) {
            return Ok(ra);
        }
        let mut other: Port = FALLBACK_START;
        while other < FALLBACK_END
            invariant
                forall|a: SocketAddress| probe.requires((a,)),
                FALLBACK_START <= other <= FALLBACK_END,
                self.taken(probe, port),
                forall|p: Port| FALLBACK_START <= p < other ==> #[trigger] self.taken(probe, p),
            decreases FALLBACK_END - other,
        {
            if other != port {
                if let Some(ra) = self.is_free_port(other, probe) {
                    assert forall|p: Port| #[trigger]
                        tried_before(port, p, ra.loopback.port) implies self.taken(probe, p) by {
                        if p != port {
                            assert(FALLBACK_START <= p < other);
                        }
                    }
                    return Ok(ra);
                }
            }
            other = other + 1;
        }
        Err(PortUnavailable { requested: port, start: FALLBACK_START, end: FALLBACK_END })
    }
}

/// Where the requested port is free on the loopback interface (every probe
/// of it says so), resolving it gives that port on both interfaces, bound on
/// the loopback one.
pub proof fn lemma_free_port_kept<F: Fn(SocketAddress) -> bool>(
    addr: Addr,
    probe: &F,
    requested: Port,
    r: Result<ResolvedAddresses, PortUnavailable>,
)
    requires
        addr.resolution(probe, requested, r),
        forall|b: bool| #[trigger] probe.ensures((addr.loopback_at(requested),), b) ==> b,
    ensures
        r is Ok,
        r->Ok_0.loopback == addr.loopback_at(requested),
        r->Ok_0.lan == addr.lan_at(requested),
        r->Ok_0.bind == addr.loopback_at(requested),
{
    match r {
        Ok(ra) => {
            if ra.loopback.port != requested {
                assert(tried_before(requested, requested, ra.loopback.port));
            }
        },
        Err(e) => {
            assert(is_candidate(requested, requested));
        },
    }
}

/// Where the requested port is taken on both interfaces (every probe of it
/// says so), a resolved port lies in the fallback range and differs from it.
pub proof fn lemma_taken_port_replaced<F: Fn(SocketAddress) -> bool>(
    addr: Addr,
    probe: &F,
    requested: Port,
    ra: ResolvedAddresses,
)
    requires
        addr.resolution(probe, requested, Ok(ra)),
        forall|b: bool| #[trigger] probe.ensures((addr.loopback_at(requested),), b) ==> !b,
        forall|b: bool| #[trigger] probe.ensures((addr.lan_at(requested),), b) ==> !b,
    ensures
        FALLBACK_START <= ra.loopback.port < FALLBACK_END,
        ra.loopback.port != requested,
        ra.lan.port == ra.loopback.port,
{
    if ra.loopback.port == requested {
        assert(probe.ensures((addr.loopback_at(requested),), true) || probe.ensures(
            (addr.lan_at(requested),),
            true,
        ));
    }
}

} // verus!
