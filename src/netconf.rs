//! Declarative interface configuration derived from a lease: the address to
//! install, the default routes with their metrics, and what to purge.
use vstd::prelude::*;

use crate::lease::{decimal, dotted_quad, ipv4_to_string, push_decimal, RawLease};
use crate::text::push_char;

verus! {

/// Metric of the route through the first gateway; each later gateway gets
/// the next one.
pub const DEFAULT_METRIC: u32 = 500;

/// Main routing table.
pub const MAIN_TABLE: u8 = 254;

/// One IPv4 address to add or remove.
#[derive(Debug, Clone, PartialEq, Eq)]
pub struct AddrConf {
    pub remove: bool,
    pub address: String,
    pub prefix_len: u8,
    pub valid_lft: String,
    pub preferred_lft: String,
}

/// One route to add or remove; `dhcp` marks the route as installed by DHCP.
#[derive(Debug, Clone, PartialEq, Eq)]
pub struct RouteConf {
    pub remove: bool,
    pub dst: String,
    pub oif: Option<String>,
    pub via: Option<String>,
    pub metric: Option<u32>,
    pub table: Option<u8>,
    pub dhcp: bool,
}

/// One interface, brought up, with the IPv4 addresses to change.
#[derive(Debug, Clone, PartialEq, Eq)]
pub struct IfaceConf {
    pub name: String,
    pub up: bool,
    pub ipv4: Option<Vec<AddrConf>>,
}

/// A configuration to apply in one go.
#[derive(Debug, Clone, PartialEq, Eq)]
pub struct NetConf {
    pub ifaces: Option<Vec<IfaceConf>>,
    pub routes: Option<Vec<RouteConf>>,
}

/// An IPv4 address currently on an interface.
#[derive(Debug, Clone, PartialEq, Eq)]
pub struct AddrState {
    pub address: String,
    pub prefix_len: u8,
    pub valid_lft: String,
}

/// A route currently in the kernel.
#[derive(Debug, Clone, PartialEq, Eq)]
pub struct RouteState {
    pub oif: Option<String>,
    pub dhcp: bool,
    pub ipv4: bool,
    pub dst: Option<String>,
    pub via: Option<String>,
    pub gateway: Option<String>,
}

/// A mask's four octets as one 32-bit number, first octet highest.
pub open spec fn mask_bits(m: Seq<u8>) -> u32 {
    ((m[0] as u32) << 24u32) | ((m[1] as u32) << 16u32) | ((m[2] as u32) << 8u32) | (m[3] as u32)
}

pub open spec fn bit_set(x: u32, i: nat) -> bool {
    (x >> (i as u32)) & 1u32 == 1u32
}

/// Number of set bits among the `k` lowest bits of `x`.
pub open spec fn popcount_below(x: u32, k: nat) -> nat
    decreases k,
{
    if k == 0 {
        0
    } else {
        popcount_below(x, (k - 1) as nat) + if bit_set(x, (k - 1) as nat) {
            1nat
        } else {
            0nat
        }
    }
}

pub open spec fn popcount(x: u32) -> nat {
    popcount_below(x, 32)
}

/// The contiguous mask of `n` leading ones.
pub open spec fn prefix_mask(n: u32) -> u32 {
    if n == 0 {
        0
    } else {
        0xffff_ffffu32 << ((32 - n) as u32)
    }
}

proof fn lemma_prefix_mask_bits(n: u32, i: u32)
    requires
        n <= 32,
        i < 32,
    ensures
        bit_set(prefix_mask(n), i as nat) <==> i >= 32 - n,
{
    if n == 0 {
        assert((0u32 >> i) & 1u32 == 0u32) by (bit_vector);
    } else {
        let s = (32 - n) as u32;
        assert(((0xffff_ffffu32 << s) >> i) & 1u32 == 1u32 <==> i >= s) by (bit_vector)
            requires
                s < 32,
                i < 32,
        ;
    }
}

proof fn lemma_popcount_prefix_mask(n: u32, k: nat)
    requires
        n <= 32,
        k <= 32,
    ensures
        popcount_below(prefix_mask(n), k) == if k > 32 - n {
            (k - (32 - n)) as nat
        } else {
            0
        },
    decreases k,
{
    if k > 0 {
        lemma_popcount_prefix_mask(n, (k - 1) as nat);
        lemma_prefix_mask_bits(n, (k - 1) as u32);
    }
}

/// A contiguous mask of `n` leading ones has exactly `n` set bits: the
/// prefix length is the population count.
pub proof fn lemma_prefix_len_of_contiguous_mask(n: u32)
    requires
        n <= 32,
    ensures
        popcount(prefix_mask(n)) == n,
{
    lemma_popcount_prefix_mask(n, 32);
}

/// Prefix length of a subnet mask: its number of set bits. Any mask gives a
/// value; only a contiguous one gives a meaningful prefix.
pub fn get_prefix_len(mask: [u8; 4]) -> (r: u8)
    ensures
        r as nat == popcount(mask_bits(mask@)),
{
    let x: u32 = ((mask[0] as u32) << 24u32) | ((mask[1] as u32) << 16u32) | ((mask[2] as u32)
        << 8u32) | (mask[3] as u32);
    let mut count: u8 = 0;
    let mut k: u32 = 0;
    while k < 32
        invariant
            k <= 32,
            count as nat == popcount_below(x, k as nat),
            count <= k,
        decreases 32 - k,
    {
        if (x >> k) & 1u32 == 1u32 {
            count = count + 1;
        }
        k = k + 1;
    }
    count
}

/// Text of `n` seconds as a lifetime, as `3600sec`.
pub open spec fn lifetime_text(n: u32) -> Seq<char> {
    decimal(n as nat) + seq!['s', 'e', 'c']
}

fn lifetime_string(n: u32) -> (r: String)
    ensures
        r@ == lifetime_text(n),
{
    let mut out = String::new();
    push_decimal(&mut out, n);
    push_char(&mut out, 's');
    push_char(&mut out, 'e');
    push_char(&mut out, 'c');
    assert(out@ =~= lifetime_text(n));
    out
}

pub open spec fn opt_text_eq(o: Option<String>, t: Seq<char>) -> bool {
    o matches Some(s) && s@ == t
}

/// Route in the main table with the DHCP marker.
pub fn gen_rt_conf(remove: bool, dst: &str, oif: &str, via: &str, metric: Option<u32>) -> (r:
    RouteConf)
    ensures
        r.remove == remove,
        r.dst@ == dst@,
        opt_text_eq(r.oif, oif@),
        opt_text_eq(r.via, via@),
        r.metric == metric,
        r.table == Some(MAIN_TABLE),
        r.dhcp,
{
    RouteConf {
        remove,
        dst: dst.to_owned(),
        oif: Some(oif.to_owned()),
        via: Some(via.to_owned()),
        metric,
        table: Some(MAIN_TABLE),
        dhcp: true,
    }
}

/// Configuration that brings `iface_name` up with the given IPv4 address changes.
pub fn new_net_conf_with_ip_conf(iface_name: &str, addresses: Vec<AddrConf>) -> (r: NetConf)
    ensures
        r.routes is None,
        match r.ifaces {
            Some(l) => l@.len() == 1 && l@[0].name@ == iface_name@ && l@[0].up && l@[0].ipv4
                == Some(addresses),
            None => false,
        },
{
    let iface = IfaceConf { name: iface_name.to_owned(), up: true, ipv4: Some(addresses) };
    let mut ifaces: Vec<IfaceConf> = Vec::new();
    ifaces.push(iface);
    NetConf { ifaces: Some(ifaces), routes: None }
}

/// `r` adds the default route through `gw` on `iface` in the main table,
/// marked as DHCP's, with the metric of the `i`-th gateway.
pub open spec fn gateway_route(iface: Seq<char>, gw: [u8; 4], i: int, r: RouteConf) -> bool {
    &&& !r.remove
    &&& r.dst@ == "0.0.0.0/0"@
    &&& opt_text_eq(r.oif, iface)
    &&& opt_text_eq(r.via, dotted_quad(gw@))
    &&& r.metric == Some((DEFAULT_METRIC + i) as u32)
    &&& r.table == Some(MAIN_TABLE)
    &&& r.dhcp
}

/// `a` adds the lease's address with its prefix length and the lease time
/// as both lifetimes.
pub open spec fn lease_address(a: AddrConf, lease: RawLease) -> bool {
    &&& !a.remove
    &&& a.address@ == dotted_quad(lease.yiaddr@)
    &&& a.prefix_len as nat == popcount(mask_bits(lease.subnet_mask@))
    &&& a.valid_lft@ == lifetime_text(lease.lease_time)
    &&& a.preferred_lft@ == lifetime_text(lease.lease_time)
}

/// `r` brings `iface` up with the lease's address as its one IPv4 change.
pub open spec fn installs_address(r: NetConf, iface: Seq<char>, lease: RawLease) -> bool {
    match r.ifaces {
        Some(l) => l@.len() == 1 && l@[0].name@ == iface && l@[0].up && match l@[0].ipv4 {
            Some(a) => a@.len() == 1 && lease_address(a@[0], lease),
            None => false,
        },
        None => false,
    }
}

/// `r` installs the lease on `iface`: its address, and a default route
/// through each gateway, metrics counting up from [`DEFAULT_METRIC`] in the
/// gateways' order; no routes where there is no gateway.
pub open spec fn installs_lease(r: NetConf, iface: Seq<char>, lease: RawLease) -> bool {
    &&& installs_address(r, iface, lease)
    &&& match lease.gateways {
        Some(g) if g@.len() > 0 => match r.routes {
            Some(rs) => rs@.len() == g@.len() && forall|i: int|
                0 <= i < g@.len() ==> gateway_route(iface, g@[i], i, #[trigger] rs@[i]),
            None => false,
        },
        _ => r.routes is None,
    }
}

/// Configuration that installs the lease on `iface_name`: its address with the
/// lease time as lifetimes, and a default route through each gateway.
pub fn apply_dhcp_ip_route(iface_name: &str, lease: &RawLease) -> (r: NetConf)
    requires
        lease.gateways matches Some(g) ==> g@.len() <= u32::MAX - DEFAULT_METRIC,
    ensures
        installs_lease(r, iface_name@, *lease),
{
    let addr = AddrConf {
        remove: false,
        address: ipv4_to_string(lease.yiaddr),
        prefix_len: get_prefix_len(lease.subnet_mask),
        valid_lft: lifetime_string(lease.lease_time),
        preferred_lft: lifetime_string(lease.lease_time),
    };
    let mut addresses: Vec<AddrConf> = Vec::new();
    addresses.push(addr);
    let mut net_conf = new_net_conf_with_ip_conf(iface_name, addresses);
    if let Some(gws) = &lease.gateways {
        let mut routes: Vec<RouteConf> = Vec::new();
        let mut i: usize = 0;
        while i < gws.len()
            invariant
                gws@.len() <= u32::MAX - DEFAULT_METRIC,
                i <= gws@.len(),
                routes@.len() == i,
                forall|j: int| 0 <= j < i ==> gateway_route(iface_name@, gws@[j], j, #[trigger] routes@[j]),
            decreases gws@.len() - i,
        {
            let via = ipv4_to_string(gws[i]);
            routes.push(gen_rt_conf(false, "0.0.0.0/0", iface_name, via.as_str(), Some(DEFAULT_METRIC + i as u32)));
            i = i + 1;
        }
        if routes.len() > 0 {
            net_conf.routes = Some(routes);
        }
    }
    net_conf
}


/// An address whose lifetime is finite, that is one DHCP installed.
pub open spec fn is_dynamic(a: AddrState) -> bool {
    a.valid_lft@ != "forever"@
}

/// An IPv4 route that DHCP installed through `iface`.
pub open spec fn is_dhcp_route_of(rt: RouteState, iface: Seq<char>) -> bool {
    opt_text_eq(rt.oif, iface) && rt.dhcp && rt.ipv4
}

/// `c` removes the address `a`.
pub open spec fn removes_addr(a: AddrState, c: AddrConf) -> bool {
    &&& c.remove
    &&& c.address@ == a.address@
    &&& c.prefix_len == a.prefix_len
    &&& c.valid_lft@ == Seq::<char>::empty()
    &&& c.preferred_lft@ == Seq::<char>::empty()
}

pub open spec fn text_or(o: Option<String>, d: Seq<char>) -> Seq<char> {
    match o {
        Some(s) => s@,
        None => d,
    }
}

/// `c` removes the route `rt` of `iface`: same destination (default route if
/// none), same next hop (its `via`, else its gateway, else `0.0.0.0`).
pub open spec fn removes_route(rt: RouteState, iface: Seq<char>, c: RouteConf) -> bool {
    &&& c.remove
    &&& c.dst@ == text_or(rt.dst, "0.0.0.0/0"@)
    &&& opt_text_eq(c.oif, iface)
    &&& opt_text_eq(c.via, text_or(rt.via, text_or(rt.gateway, "0.0.0.0"@)))
    &&& c.metric is None
    &&& c.table == Some(MAIN_TABLE)
    &&& c.dhcp
}

pub open spec fn dynamic_addrs(s: Seq<AddrState>) -> Seq<AddrState> {
    s.filter(|a: AddrState| is_dynamic(a))
}

pub open spec fn dhcp_routes_of(s: Seq<RouteState>, iface: Seq<char>) -> Seq<RouteState> {
    s.filter(|rt: RouteState| is_dhcp_route_of(rt, iface))
}

/// What to apply to purge DHCP configuration from an interface: first the
/// address removals, where there are any, then the route removals.
#[derive(Debug, Clone, PartialEq, Eq)]
pub struct PurgePlan {
    pub addresses: Option<NetConf>,
    pub routes: NetConf,
}

fn addr_removals(addrs: &Vec<AddrState>) -> (r: Vec<AddrConf>)
    ensures
        r@.len() == dynamic_addrs(addrs@).len(),
        forall|j: int| 0 <= j < r@.len() ==> removes_addr(dynamic_addrs(addrs@)[j], #[trigger] r@[j]),
{
    let forever = "forever".to_owned();
    let mut out: Vec<AddrConf> = Vec::new();
    let mut i: usize = 0;
    while i < addrs.len()
        invariant
            forever@ == "forever"@,
            i <= addrs@.len(),
            out@.len() == dynamic_addrs(addrs@.take(i as int)).len(),
            forall|j: int|
                0 <= j < out@.len() ==> removes_addr(
                    dynamic_addrs(addrs@.take(i as int))[j],
                    #[trigger] out@[j],
                ),
        decreases addrs@.len() - i,
    {
        assert(addrs@.take(i + 1).drop_last() =~= addrs@.take(i as int));
        let a = &addrs[i];
        proof {
            reveal(Seq::filter);
            let next = addrs@.take(i + 1);
            assert(next.last() == addrs@[i as int]);
            assert(dynamic_addrs(next) == if is_dynamic(addrs@[i as int]) {
                dynamic_addrs(addrs@.take(i as int)).push(addrs@[i as int])
            } else {
                dynamic_addrs(addrs@.take(i as int))
            });
        }
        if !(a.valid_lft == forever) {
            out.push(
                AddrConf {
                    remove: true,
                    address: a.address.clone(),
                    prefix_len: a.prefix_len,
                    valid_lft: String::new(),
                    preferred_lft: String::new(),
                },
            );
        }
        i = i + 1;
    }
    assert(addrs@.take(addrs@.len() as int) =~= addrs@);
    out
}

fn text_or_default(o: &Option<String>, d: &str) -> (r: String)
    ensures
        r@ == text_or(*o, d@),
{
    match o {
        Some(s) => s.clone(),
        None => d.to_owned(),
    }
}

fn route_removals(routes: &Vec<RouteState>, iface_name: &str) -> (r: Vec<RouteConf>)
    ensures
        r@.len() == dhcp_routes_of(routes@, iface_name@).len(),
        forall|j: int|
            0 <= j < r@.len() ==> removes_route(
                dhcp_routes_of(routes@, iface_name@)[j],
                iface_name@,
                #[trigger] r@[j],
            ),
{
    let iface = iface_name.to_owned();
    let mut out: Vec<RouteConf> = Vec::new();
    let mut i: usize = 0;
    while i < routes.len()
        invariant
            iface@ == iface_name@,
            i <= routes@.len(),
            out@.len() == dhcp_routes_of(routes@.take(i as int), iface_name@).len(),
            forall|j: int|
                0 <= j < out@.len() ==> removes_route(
                    dhcp_routes_of(routes@.take(i as int), iface_name@)[j],
                    iface_name@,
                    #[trigger] out@[j],
                ),
        decreases routes@.len() - i,
    {
        assert(routes@.take(i + 1).drop_last() =~= routes@.take(i as int));
        let rt = &routes[i];
        proof {
            reveal(Seq::filter);
            let next = routes@.take(i + 1);
            assert(next.last() == routes@[i as int]);
            assert(dhcp_routes_of(next, iface_name@) == if is_dhcp_route_of(routes@[i as int], iface_name@) {
                dhcp_routes_of(routes@.take(i as int), iface_name@).push(routes@[i as int])
            } else {
                dhcp_routes_of(routes@.take(i as int), iface_name@)
            });
        }
        let on_iface = match &rt.oif {
            Some(o) => *o == iface,
            None => false,
        };
        if on_iface && rt.dhcp && rt.ipv4 {
            let dst = text_or_default(&rt.dst, "0.0.0.0/0");
            let gw = text_or_default(&rt.gateway, "0.0.0.0");
            let via = text_or_default(&rt.via, gw.as_str());
            out.push(gen_rt_conf(true, dst.as_str(), iface_name, via.as_str(), None));
        }
        i = i + 1;
    }
    assert(routes@.take(routes@.len() as int) =~= routes@);
    out
}

/// `r` purges `iface`: it removes each address with a finite lifetime, in a
/// configuration of its own that brings `iface` up and is there only where
/// there is such an address, then each IPv4 route that DHCP installed
/// through `iface`.
pub open spec fn purges(r: PurgePlan, iface: Seq<char>, addrs: Option<Vec<AddrState>>, routes: Vec<RouteState>) -> bool {
    &&& match addrs {
        Some(a) if dynamic_addrs(a@).len() > 0 => match r.addresses {
            Some(c) => c.routes is None && match c.ifaces {
                Some(l) => l@.len() == 1 && l@[0].name@ == iface && l@[0].up && match l@[0].ipv4 {
                    Some(v) => v@.len() == dynamic_addrs(a@).len() && forall|j: int|
                        0 <= j < v@.len() ==> removes_addr(dynamic_addrs(a@)[j], #[trigger] v@[j]),
                    None => false,
                },
                None => false,
            },
            None => false,
        },
        _ => r.addresses is None,
    }
    &&& r.routes.ifaces is None
    &&& match r.routes.routes {
        Some(v) => v@.len() == dhcp_routes_of(routes@, iface).len() && forall|j: int|
            0 <= j < v@.len() ==> removes_route(
                dhcp_routes_of(routes@, iface)[j],
                iface,
                #[trigger] v@[j],
            ),
        None => false,
    }
}

/// Plan to purge `iface_name`: remove each of its addresses with a finite
/// lifetime (`addrs`, `None` where it has no IPv4 information), and each
/// IPv4 route that DHCP installed through it.
pub fn purge_dhcp_ip_route(
    iface_name: &str,
    addrs: Option<Vec<AddrState>>,
    routes: Vec<RouteState>,
) -> (r: PurgePlan)
    ensures
        purges(r, iface_name@, addrs, routes),
{
    let addresses = match &addrs {
        Some(a) => {
            let removals = addr_removals(a);
            if removals.len() > 0 {
                Some(new_net_conf_with_ip_conf(iface_name, removals))
            } else {
                None
            }
        },
        None => None,
    };
    let route_conf = NetConf { ifaces: None, routes: Some(route_removals(&routes, iface_name)) };
    PurgePlan { addresses, routes: route_conf }
}

} // verus!
