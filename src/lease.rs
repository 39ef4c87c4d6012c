//! The lease record, its conversion from a DHCP reply, and its text forms.
use vstd::prelude::*;

use crate::text::push_char;

verus! {

/// A DHCPv4 lease as the proxy stores and returns it.
#[derive(Debug, Clone, PartialEq, Eq)]
pub struct Lease {
    pub t1: u32,
    pub t2: u32,
    pub lease_time: u32,
    pub mtu: u32,
    pub domain_name: String,
    pub mac_address: String,
    pub is_v6: bool,
    pub siaddr: String,
    pub yiaddr: String,
    pub srv_id: String,
    pub subnet_mask: String,
    pub broadcast_addr: String,
    pub dns_servers: Vec<String>,
    pub gateways: Vec<String>,
    pub ntp_servers: Vec<String>,
    pub host_name: String,
}

/// Mathematical form of a [`Lease`]: texts as character sequences.
pub struct LeaseView {
    pub t1: u32,
    pub t2: u32,
    pub lease_time: u32,
    pub mtu: u32,
    pub domain_name: Seq<char>,
    pub mac_address: Seq<char>,
    pub is_v6: bool,
    pub siaddr: Seq<char>,
    pub yiaddr: Seq<char>,
    pub srv_id: Seq<char>,
    pub subnet_mask: Seq<char>,
    pub broadcast_addr: Seq<char>,
    pub dns_servers: Seq<Seq<char>>,
    pub gateways: Seq<Seq<char>>,
    pub ntp_servers: Seq<Seq<char>>,
    pub host_name: Seq<char>,
}

impl View for Lease {
    type V = LeaseView;

    open spec fn view(&self) -> LeaseView {
        LeaseView {
            t1: self.t1,
            t2: self.t2,
            lease_time: self.lease_time,
            mtu: self.mtu,
            domain_name: self.domain_name@,
            mac_address: self.mac_address@,
            is_v6: self.is_v6,
            siaddr: self.siaddr@,
            yiaddr: self.yiaddr@,
            srv_id: self.srv_id@,
            subnet_mask: self.subnet_mask@,
            broadcast_addr: self.broadcast_addr@,
            dns_servers: self.dns_servers.deep_view(),
            gateways: self.gateways.deep_view(),
            ntp_servers: self.ntp_servers.deep_view(),
            host_name: self.host_name@,
        }
    }
}

/// The lease with every number zero, every text and list empty, owned by `mac`.
pub open spec fn zero_lease(mac: Seq<char>) -> LeaseView {
    LeaseView {
        t1: 0,
        t2: 0,
        lease_time: 0,
        mtu: 0,
        domain_name: Seq::empty(),
        mac_address: mac,
        is_v6: false,
        siaddr: Seq::empty(),
        yiaddr: Seq::empty(),
        srv_id: Seq::empty(),
        subnet_mask: Seq::empty(),
        broadcast_addr: Seq::empty(),
        dns_servers: Seq::empty(),
        gateways: Seq::empty(),
        ntp_servers: Seq::empty(),
        host_name: Seq::empty(),
    }
}

/// A DHCPv4 reply as the DHCP client hands it over, addresses as octets.
#[derive(Debug, Clone, PartialEq, Eq)]
pub struct RawLease {
    pub siaddr: [u8; 4],
    pub yiaddr: [u8; 4],
    pub t1: u32,
    pub t2: u32,
    pub lease_time: u32,
    pub srv_id: [u8; 4],
    pub subnet_mask: [u8; 4],
    pub broadcast_addr: Option<[u8; 4]>,
    pub dns_servers: Option<Vec<[u8; 4]>>,
    pub gateways: Option<Vec<[u8; 4]>>,
    pub ntp_servers: Option<Vec<[u8; 4]>>,
    pub mtu: Option<u16>,
    pub host_name: Option<String>,
    pub domain_name: Option<String>,
}

pub open spec fn digit_char(n: nat) -> char {
    seq!['0', '1', '2', '3', '4', '5', '6', '7', '8', '9'][n as int]
}

/// Decimal digits of `n`, without leading zeros.
pub open spec fn decimal(n: nat) -> Seq<char>
    decreases n,
{
    if n < 10 {
        seq![digit_char(n)]
    } else {
        decimal(n / 10).push(digit_char(n % 10))
    }
}

/// Dotted-quad text of four octets, as `10.0.0.5`.
pub open spec fn dotted_quad(o: Seq<u8>) -> Seq<char> {
    decimal(o[0] as nat) + seq!['.'] + decimal(o[1] as nat) + seq!['.'] + decimal(o[2] as nat)
        + seq!['.'] + decimal(o[3] as nat)
}

/// Dotted-quad texts of a list of addresses, in order.
pub open spec fn dotted_quads(v: Seq<[u8; 4]>) -> Seq<Seq<char>> {
    Seq::new(v.len(), |i: int| dotted_quad(v[i]@))
}

pub open spec fn opt_text(s: Option<String>) -> Seq<char> {
    match s {
        Some(t) => t@,
        None => Seq::empty(),
    }
}

pub open spec fn opt_quad(a: Option<[u8; 4]>) -> Seq<char> {
    match a {
        Some(o) => dotted_quad(o@),
        None => Seq::empty(),
    }
}

pub open spec fn opt_quads(v: Option<Vec<[u8; 4]>>) -> Seq<Seq<char>> {
    match v {
        Some(l) => dotted_quads(l@),
        None => Seq::empty(),
    }
}

/// The lease that a DHCP reply gives: absent texts empty, absent numbers zero,
/// absent lists empty, no owner yet.
pub open spec fn lease_of_raw(raw: RawLease) -> LeaseView {
    LeaseView {
        t1: raw.t1,
        t2: raw.t2,
        lease_time: raw.lease_time,
        mtu: match raw.mtu {
            Some(m) => m as u32,
            None => 0,
        },
        domain_name: opt_text(raw.domain_name),
        mac_address: Seq::empty(),
        is_v6: false,
        siaddr: dotted_quad(raw.siaddr@),
        yiaddr: dotted_quad(raw.yiaddr@),
        srv_id: dotted_quad(raw.srv_id@),
        subnet_mask: dotted_quad(raw.subnet_mask@),
        broadcast_addr: opt_quad(raw.broadcast_addr),
        dns_servers: opt_quads(raw.dns_servers),
        gateways: opt_quads(raw.gateways),
        ntp_servers: opt_quads(raw.ntp_servers),
        host_name: opt_text(raw.host_name),
    }
}

fn push_digit(out: &mut String, n: u8)
    requires
        n < 10,
    ensures
        final(out)@ == old(out)@.push(digit_char(n as nat)),
{
    let table: [char; 10] = ['0', '1', '2', '3', '4', '5', '6', '7', '8', '9'];
    assert(table@ == seq!['0', '1', '2', '3', '4', '5', '6', '7', '8', '9']);
    push_char(out, table[n as usize]);
}

/// Appends the decimal digits of `n`.
pub(crate) fn push_decimal(out: &mut String, n: u32)
    ensures
        final(out)@ == old(out)@ + decimal(n as nat),
    decreases n,
{
    let ghost start = out@;
    if n >= 10 {
        push_decimal(out, n / 10);
    }
    push_digit(out, (n % 10) as u8);
    assert(out@ =~= start + decimal(n as nat));
}

/// Dotted-quad text of an IPv4 address.
pub fn ipv4_to_string(o: [u8; 4]) -> (r: String)
    ensures
        r@ == dotted_quad(o@),
{
    let mut out = String::new();
    push_decimal(&mut out, o[0] as u32);
    push_char(&mut out, '.');
    push_decimal(&mut out, o[1] as u32);
    push_char(&mut out, '.');
    push_decimal(&mut out, o[2] as u32);
    push_char(&mut out, '.');
    push_decimal(&mut out, o[3] as u32);
    assert(out@ =~= dotted_quad(o@));
    out
}

/// Dotted-quad texts of an optional list of addresses; none gives an empty list.
pub fn handle_ip_vectors(ip: Option<Vec<[u8; 4]>>) -> (r: Vec<String>)
    ensures
        r.deep_view() == opt_quads(ip),
{
    let mut ips: Vec<String> = Vec::new();
    if let Some(j) = ip {
        let mut i: usize = 0;
        while i < j.len()
            invariant
                i <= j@.len(),
                ips@.len() == i,
                forall|k: int| 0 <= k < i ==> (#[trigger] ips@[k])@ == dotted_quad(j@[k]@),
            decreases j@.len() - i,
        {
            ips.push(ipv4_to_string(j[i]));
            i = i + 1;
        }
        assert(ips.deep_view() =~= dotted_quads(j@));
    } else {
        assert(ips.deep_view() =~= Seq::<Seq<char>>::empty());
    }
    ips
}

fn opt_string(s: Option<String>) -> (r: String)
    ensures
        r@ == opt_text(s),
{
    match s {
        Some(t) => t,
        None => String::new(),
    }
}

fn copy_list(v: &Vec<String>) -> (r: Vec<String>)
    ensures
        r.deep_view() == v.deep_view(),
{
    let mut out: Vec<String> = Vec::new();
    let mut i: usize = 0;
    while i < v.len()
        invariant
            i <= v@.len(),
            out@.len() == i,
            forall|k: int| 0 <= k < i ==> (#[trigger] out@[k])@ == v@[k]@,
        decreases v@.len() - i,
    {
        out.push(v[i].clone());
        i = i + 1;
    }
    assert(out.deep_view() =~= v.deep_view());
    out
}

impl Lease {
    /// The lease with every number zero and every text and list empty,
    /// owned by `mac_addr`.
    pub fn zeroed(mac_addr: &str) -> (r: Lease)
        ensures
            r@ == zero_lease(mac_addr@),
    {
        let r = Lease {
            t1: 0,
            t2: 0,
            lease_time: 0,
            mtu: 0,
            domain_name: String::new(),
            mac_address: mac_addr.to_owned(),
            is_v6: false,
            siaddr: String::new(),
            yiaddr: String::new(),
            srv_id: String::new(),
            subnet_mask: String::new(),
            broadcast_addr: String::new(),
            dns_servers: Vec::new(),
            gateways: Vec::new(),
            ntp_servers: Vec::new(),
            host_name: String::new(),
        };
        assert(r@.dns_servers =~= Seq::<Seq<char>>::empty());
        assert(r@.gateways =~= Seq::<Seq<char>>::empty());
        assert(r@.ntp_servers =~= Seq::<Seq<char>>::empty());
        r
    }

    /// The lease that a DHCP reply gives, with no owner yet.
    pub fn from_raw(raw: RawLease) -> (r: Lease)
        ensures
            r@ == lease_of_raw(raw),
    {
        let ghost g = raw;
        let mtu: u32 = match raw.mtu {
            Some(m) => m as u32,
            None => 0,
        };
        let broadcast_addr = match raw.broadcast_addr {
            Some(b) => ipv4_to_string(b),
            None => String::new(),
        };
        Lease {
            t1: raw.t1,
            t2: raw.t2,
            lease_time: raw.lease_time,
            mtu,
            domain_name: opt_string(raw.domain_name),
            mac_address: String::new(),
            is_v6: false,
            siaddr: ipv4_to_string(raw.siaddr),
            yiaddr: ipv4_to_string(raw.yiaddr),
            srv_id: ipv4_to_string(raw.srv_id),
            subnet_mask: ipv4_to_string(raw.subnet_mask),
            broadcast_addr,
            dns_servers: handle_ip_vectors(raw.dns_servers),
            gateways: handle_ip_vectors(raw.gateways),
            ntp_servers: handle_ip_vectors(raw.ntp_servers),
            host_name: opt_string(raw.host_name),
        }
    }

    /// A copy with the same contents.
    pub fn duplicate(&self) -> (r: Lease)
        ensures
            r@ == self@,
    {
        Lease {
            t1: self.t1,
            t2: self.t2,
            lease_time: self.lease_time,
            mtu: self.mtu,
            domain_name: self.domain_name.clone(),
            mac_address: self.mac_address.clone(),
            is_v6: self.is_v6,
            siaddr: self.siaddr.clone(),
            yiaddr: self.yiaddr.clone(),
            srv_id: self.srv_id.clone(),
            subnet_mask: self.subnet_mask.clone(),
            broadcast_addr: self.broadcast_addr.clone(),
            dns_servers: copy_list(&self.dns_servers),
            gateways: copy_list(&self.gateways),
            ntp_servers: copy_list(&self.ntp_servers),
            host_name: self.host_name.clone(),
        }
    }

    /// Sets the MAC address that owns the lease.
    pub fn add_mac_address(&mut self, mac_addr: &String)
        ensures
            final(self)@ == (LeaseView { mac_address: mac_addr@, ..old(self)@ }),
    {
        self.mac_address = mac_addr.clone();
    }

    /// Sets the domain name of the lease.
    pub fn add_domain_name(&mut self, domain_name: &String)
        ensures
            final(self)@ == (LeaseView { domain_name: domain_name@, ..old(self)@ }),
    {
        self.domain_name = domain_name.clone();
    }
}

} // verus!
