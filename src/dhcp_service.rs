//! Decisions of one DHCPv4 exchange on behalf of a request.
//!
//! The caller binds the client, waits for and processes the server's replies,
//! and hands each outcome to [`DhcpService::step`], which says whether the
//! exchange goes on or how it ends.
use vstd::prelude::*;

use crate::lease::{lease_of_raw, Lease, LeaseView, RawLease};
use crate::status::{Code, Status};
use crate::types::NetworkConfig;

verus! {

/// What went wrong while obtaining a lease.
#[derive(Debug, Clone, Copy, PartialEq, Eq, Structural)]
pub enum DhcpServiceErrorKind {
    Timeout,
    InvalidArgument,
    InvalidDhcpServerReply,
    NoLease,
    Bug,
    LeaseExpired,
}

/// A failure to obtain a lease, with its kind and message.
#[derive(Debug, PartialEq, Eq)]
pub struct DhcpServiceError {
    pub kind: DhcpServiceErrorKind,
    pub msg: String,
}

impl DhcpServiceError {
    pub fn new(kind: DhcpServiceErrorKind, msg: String) -> (r: Self)
        ensures
            r.kind == kind,
            r.msg == msg,
    {
        DhcpServiceError { kind, msg }
    }
}

/// Code that a request fails with for each kind of DHCP failure.
pub open spec fn status_code_of(kind: DhcpServiceErrorKind) -> Code {
    match kind {
        DhcpServiceErrorKind::Timeout => Code::Aborted,
        DhcpServiceErrorKind::InvalidArgument => Code::InvalidArgument,
        DhcpServiceErrorKind::NoLease => Code::NotFound,
        _ => Code::Internal,
    }
}

impl From<DhcpServiceError> for Status {
    fn from(err: DhcpServiceError) -> (r: Status) {
        let code = match err.kind {
            DhcpServiceErrorKind::Timeout => Code::Aborted,
            DhcpServiceErrorKind::InvalidArgument => Code::InvalidArgument,
            DhcpServiceErrorKind::NoLease => Code::NotFound,
            _ => Code::Internal,
        };
        Status { code, message: err.msg }
    }
}

impl vstd::std_specs::convert::FromSpecImpl<DhcpServiceError> for Status {
    open spec fn obeys_from_spec() -> bool {
        true
    }

    open spec fn from_spec(err: DhcpServiceError) -> Status {
        Status { code: status_code_of(err.kind), message: err.msg }
    }
}

/// What the DHCP client reports back to the exchange.
pub enum DhcpEvent {
    /// The client could not be set up on the interface.
    BindFailed(String),
    /// Waiting for the server's replies failed or timed out.
    PollFailed(String),
    /// A reply could not be processed.
    ProcessFailed(String),
    /// A reply was processed; no lease is granted yet.
    Pending,
    /// The server granted this lease.
    Granted(RawLease),
}

/// What the exchange does next.
pub enum DhcpStep {
    /// Keep waiting for replies.
    Continue,
    /// The exchange is over, with a lease or a failure.
    Done(Result<Lease, DhcpServiceError>),
}

/// The lease handed back for a granted reply: the request's MAC owns it and
/// the request's domain name replaces the server's.
pub open spec fn granted_lease(raw: RawLease, nc: NetworkConfig) -> LeaseView {
    LeaseView {
        domain_name: nc.domain_name@,
        mac_address: nc.container_mac_addr@,
        ..lease_of_raw(raw)
    }
}

/// One DHCPv4 exchange for a request, with the per-poll timeout in seconds.
pub struct DhcpService {
    network_config: NetworkConfig,
    timeout: isize,
}

impl DhcpService {
    pub closed spec fn config(&self) -> NetworkConfig {
        self.network_config
    }

    pub closed spec fn timeout_spec(&self) -> isize {
        self.timeout
    }

    /// An exchange for `nc`; only IPv4 (version 0) is served.
    pub fn new(nc: NetworkConfig, timeout: isize) -> (r: Result<DhcpService, DhcpServiceError>)
        ensures
            r is Ok <==> nc.version == 0,
            r matches Ok(s) ==> s.config() == nc && s.timeout_spec() == timeout,
            r matches Err(e) ==> e.kind == DhcpServiceErrorKind::InvalidArgument,
    {
        if nc.version != 0 {
            return Err(
                DhcpServiceError::new(
                    DhcpServiceErrorKind::InvalidArgument,
                    "Must select a valid IP protocol: 0 for IPv4".to_owned(),
                ),
            );
        }
        Ok(DhcpService { network_config: nc, timeout })
    }

    /// The request the exchange serves.
    pub fn network_config(&self) -> (r: &NetworkConfig)
        ensures
            *r == self.config(),
    {
        &self.network_config
    }

    /// Seconds to wait for replies at a time.
    pub fn timeout(&self) -> (r: isize)
        ensures
            r == self.timeout_spec(),
    {
        self.timeout
    }

    /// The exchange's answer to an event of the client: a failure to bind is
    /// an invalid argument, a failed wait a timeout, a failed reply no lease,
    /// a granted lease is handed back owned by the request's MAC.
    pub fn step(&self, event: DhcpEvent) -> (r: DhcpStep)
        ensures
            match event {
                DhcpEvent::BindFailed(m) => r matches DhcpStep::Done(Err(e)) && e.kind
                    == DhcpServiceErrorKind::InvalidArgument && e.msg == m,
                DhcpEvent::PollFailed(m) => r matches DhcpStep::Done(Err(e)) && e.kind
                    == DhcpServiceErrorKind::Timeout && e.msg == m,
                DhcpEvent::ProcessFailed(m) => r matches DhcpStep::Done(Err(e)) && e.kind
                    == DhcpServiceErrorKind::NoLease && e.msg == m,
                DhcpEvent::Pending => r is Continue,
                DhcpEvent::Granted(raw) => r matches DhcpStep::Done(Ok(l)) && l@ == granted_lease(
                    raw,
                    self.config(),
                ),
            },
    {
        match event {
            DhcpEvent::BindFailed(m) => DhcpStep::Done(
                Err(DhcpServiceError::new(DhcpServiceErrorKind::InvalidArgument, m)),
            ),
            DhcpEvent::PollFailed(m) => DhcpStep::Done(
                Err(DhcpServiceError::new(DhcpServiceErrorKind::Timeout, m)),
            ),
            DhcpEvent::ProcessFailed(m) => DhcpStep::Done(
                Err(DhcpServiceError::new(DhcpServiceErrorKind::NoLease, m)),
            ),
            DhcpEvent::Pending => DhcpStep::Continue,
            DhcpEvent::Granted(raw) => {
                let mut lease = Lease::from_raw(raw);
                lease.add_domain_name(&self.network_config.domain_name);
                lease.add_mac_address(&self.network_config.container_mac_addr);
                DhcpStep::Done(Ok(lease))
            },
        }
    }
}

} // verus!
