//! The proxy's three requests, setup, teardown and clean, from request to
//! reply.
//!
//! Each request alternates outside work (the DHCP exchange, writing the
//! snapshot, configuring the interface) with decisions; the decisions stand
//! here, one function per point where the outside work hands back.
use vstd::prelude::*;

use crate::cache::{CacheModel, LeaseCache, PendingWrite};
use crate::dhcp_service::{status_code_of, DhcpService, DhcpServiceError};
use crate::lease::{zero_lease, Lease, RawLease};
use crate::mac::{canonical_mac, canonical_mac_text, is_mac_text};
use crate::netconf::{
    apply_dhcp_ip_route,
    installs_lease,
    purge_dhcp_ip_route,
    purges,
    AddrState,
    NetConf,
    PurgePlan,
    RouteState,
    DEFAULT_METRIC,
};
use crate::status::{Code, Status};
use crate::text::concat;
use crate::types::NetworkConfig;

verus! {

/// Reply to `clean`.
#[derive(Debug, Clone, Copy, PartialEq, Eq, Structural)]
pub struct OperationResponse {
    pub success: bool,
}

/// Key of a MAC in the cache: its canonical text where it is MAC text, the
/// text as given otherwise.
pub open spec fn cache_key(mac: Seq<char>) -> Seq<char> {
    if is_mac_text(mac) {
        canonical_mac_text(mac)
    } else {
        mac
    }
}

fn cache_key_of(mac: &String) -> (r: String)
    ensures
        r@ == cache_key(mac@),
{
    match canonical_mac(mac.as_str()) {
        Some(c) => c,
        None => mac.clone(),
    }
}

/// An internal failure whose message is `prefix` followed by `detail`.
pub open spec fn internal_status(s: Status, prefix: Seq<char>, detail: Seq<char>) -> bool {
    s.code == Code::Internal && s.message@ == prefix + detail
}

/// The proxy service, with the DHCP per-poll timeout in seconds.
pub struct NetavarkProxyService {
    timeout: isize,
}

impl NetavarkProxyService {
    pub closed spec fn timeout_spec(&self) -> isize {
        self.timeout
    }

    pub fn new(timeout: isize) -> (r: Self)
        ensures
            r.timeout_spec() == timeout,
    {
        NetavarkProxyService { timeout }
    }

    /// Setup, first step: check the request and open its DHCP exchange. A
    /// missing or malformed MAC, or a version other than IPv4, is an invalid
    /// argument, and then no exchange is opened.
    pub fn setup(&self, request: NetworkConfig) -> (r: Result<DhcpService, Status>)
        ensures
            r is Ok <==> is_mac_text(request.container_mac_addr@) && request.version == 0,
            r matches Ok(s) ==> s.config() == request && s.timeout_spec() == self.timeout_spec(),
            r matches Err(s) ==> s.code == Code::InvalidArgument,
            request.container_mac_addr@.len() == 0 ==> (r matches Err(s) && s.message@
                == "No mac address provided"@),
            request.container_mac_addr@.len() > 0 && !is_mac_text(request.container_mac_addr@) ==> (
            r matches Err(s) && s.message@ == "Invalid mac address"@),
    {
        if request.container_mac_addr.as_str().is_empty() {
            return Err(Status::new(Code::InvalidArgument, "No mac address provided".to_owned()));
        }
        if canonical_mac(request.container_mac_addr.as_str()).is_none() {
            return Err(Status::new(Code::InvalidArgument, "Invalid mac address".to_owned()));
        }
        match DhcpService::new(request, self.timeout) {
            Ok(s) => Ok(s),
            Err(e) => Err(Status::from(e)),
        }
    }

    /// Setup, once the exchange ended: its failure becomes the reply, with the
    /// code for its kind.
    pub fn setup_leased(&self, outcome: Result<Lease, DhcpServiceError>) -> (r: Result<Lease, Status>)
        ensures
            match outcome {
                Ok(l) => r matches Ok(l2) && l2 == l,
                Err(e) => r matches Err(s) && s.code == status_code_of(e.kind) && s.message == e.msg,
            },
    {
        match outcome {
            Ok(l) => Ok(l),
            Err(e) => Err(Status::from(e)),
        }
    }

    /// Setup, with a lease: the change that stores it under the request's MAC.
    pub fn setup_store(&self, cache: &LeaseCache, request: &NetworkConfig, lease: &Lease) -> (r:
        PendingWrite)
        requires
            cache.wf(),
        ensures
            r.wf(),
            r.next_model() == cache@.insert(cache_key(request.container_mac_addr@), seq![lease@]),
            r.lease_view() == lease@,
    {
        let key = cache_key_of(&request.container_mac_addr);
        cache.add_lease(key.as_str(), lease)
    }

    /// Setup, once the snapshot was written or not: the change takes effect,
    /// or the cache stays as it was and the request fails.
    pub fn setup_stored(
        &self,
        cache: &mut LeaseCache,
        pending: PendingWrite,
        written: Result<(), String>,
    ) -> (r: Result<(), Status>)
        requires
            old(cache).wf(),
            pending.wf(),
        ensures
            final(cache).wf(),
            written is Ok ==> r is Ok && final(cache)@ == pending.next_model(),
            written matches Err(e) ==> final(cache)@ == old(cache)@ && (r matches Err(s)
                && internal_status(s, "Error caching the lease: "@, e@)),
    {
        match cache.commit(pending, written) {
            Ok(_) => Ok(()),
            Err(e) => Err(Status::new(Code::Internal, concat("Error caching the lease: ", e.message.as_str()))),
        }
    }

    /// Setup, once stored: the configuration that installs the lease on the
    /// request's interface. A lease with more gateways than route metrics
    /// can number cannot be installed.
    pub fn setup_configuration(&self, request: &NetworkConfig, raw: &RawLease) -> (r: Result<
        NetConf,
        Status,
    >)
        ensures
            r is Ok <==> (raw.gateways matches Some(g) ==> g@.len() <= u32::MAX - DEFAULT_METRIC),
            r matches Ok(c) ==> installs_lease(c, request.container_iface@, *raw),
            r matches Err(s) ==> s.code == Code::Internal,
    {
        if let Some(g) = &raw.gateways {
            if g.len() > (u32::MAX - DEFAULT_METRIC) as usize {
                return Err(Status::new(Code::Internal, "Too many gateways to install".to_owned()));
            }
        }
        Ok(apply_dhcp_ip_route(request.container_iface.as_str(), raw))
    }

    /// Setup, last step: the lease is the reply once the interface took it.
    pub fn setup_reply(&self, lease: Lease, configured: Result<(), String>) -> (r: Result<
        Lease,
        Status,
    >)
        ensures
            configured is Ok ==> (r matches Ok(l) && l == lease),
            configured matches Err(e) ==> (r matches Err(s) && s.code == Code::Internal && s.message
                == e),
    {
        match configured {
            Ok(()) => Ok(lease),
            Err(e) => Err(Status::new(Code::Internal, e)),
        }
    }

    /// Teardown, first step: the reply, a zero lease that echoes the request's
    /// MAC, and the change that removes the MAC from the cache.
    pub fn teardown(&self, cache: &LeaseCache, request: &NetworkConfig) -> (r: (Lease, PendingWrite))
        requires
            cache.wf(),
        ensures
            r.0@ == zero_lease(request.container_mac_addr@),
            r.1.wf(),
            r.1.next_model() == cache@.remove(cache_key(request.container_mac_addr@)),
    {
        let reply = Lease::zeroed(request.container_mac_addr.as_str());
        let key = cache_key_of(&request.container_mac_addr);
        (reply, cache.remove_lease(key.as_str()))
    }

    /// Teardown: whether the interface is purged too, which takes a namespace.
    pub fn teardown_purges(&self, request: &NetworkConfig) -> (r: bool)
        ensures
            r == (request.ns_path@.len() > 0),
    {
        !request.ns_path.as_str().is_empty()
    }

    /// Teardown: what to remove from the request's interface, given what is
    /// on it.
    pub fn teardown_configuration(
        &self,
        request: &NetworkConfig,
        addrs: Option<Vec<AddrState>>,
        routes: Vec<RouteState>,
    ) -> (r: PurgePlan)
        ensures
            purges(r, request.container_iface@, addrs, routes),
    {
        purge_dhcp_ip_route(request.container_iface.as_str(), addrs, routes)
    }

    /// Teardown, once the snapshot was written or not: the reply, or the
    /// failure with the cache as it was.
    pub fn teardown_stored(
        &self,
        cache: &mut LeaseCache,
        pending: PendingWrite,
        written: Result<(), String>,
        reply: Lease,
    ) -> (r: Result<Lease, Status>)
        requires
            old(cache).wf(),
            pending.wf(),
        ensures
            final(cache).wf(),
            written is Ok ==> final(cache)@ == pending.next_model() && (r matches Ok(l) && l
                == reply),
            written matches Err(e) ==> final(cache)@ == old(cache)@ && (r matches Err(s) && s.code
                == Code::Internal && s.message == e),
    {
        match cache.commit(pending, written) {
            Ok(_) => Ok(reply),
            Err(e) => Err(Status::new(Code::Internal, e.message)),
        }
    }

    /// Clean, first step: empty the cache; the snapshot is truncated next.
    pub fn clean(&self, cache: &mut LeaseCache)
        requires
            old(cache).wf(),
        ensures
            final(cache).wf(),
            final(cache)@ == CacheModel::empty(),
            final(cache).path_view() == old(cache).path_view(),
    {
        cache.teardown();
    }

    /// Clean, once the snapshot was truncated or not.
    pub fn clean_reply(&self, truncated: Result<(), String>) -> (r: Result<OperationResponse, Status>)
        ensures
            truncated is Ok ==> r == Ok::<OperationResponse, Status>(OperationResponse { success: true }),
            truncated matches Err(e) ==> (r matches Err(s) && s.code == Code::Internal && s.message
                == e),
    {
        match truncated {
            Ok(()) => Ok(OperationResponse { success: true }),
            Err(e) => Err(Status::new(Code::Internal, e)),
        }
    }
}

} // verus!
