//! The seams the application core writes through: a signal payload tagged
//! with its authenticated tenant, the record handed to a sink, and the
//! reasons a sink or its probe can refuse.

use vstd::prelude::*;
use crate::otlp::{ExportLogsServiceRequest, ExportMetricsServiceRequest, ExportTraceServiceRequest};
use crate::tenancy::TenantId;
use crate::text::{dec_nat, push_dec_u64};

verus! {

/// A payload paired with the authenticated tenant it was ingested under.
#[derive(Debug)]
pub struct TenantScoped<T> {
    pub tenant: TenantId,
    pub inner: T,
}

impl<T> TenantScoped<T> {
    /// Pair a payload with the tenant it was ingested under.
    pub fn new(tenant: TenantId, inner: T) -> (s: TenantScoped<T>)
        ensures
            s.tenant == tenant,
            s.inner == inner,
    {
        TenantScoped { tenant, inner }
    }

    /// The tenant this payload was ingested under.
    pub fn tenant(&self) -> (t: &TenantId)
        ensures
            *t == self.tenant,
    {
        &self.tenant
    }

    /// The payload, without its tenant tag.
    pub fn into_inner(self) -> (inner: T)
        ensures
            inner == self.inner,
    {
        self.inner
    }

    /// The payload, by reference.
    pub fn inner(&self) -> (inner: &T)
        ensures
            *inner == self.inner,
    {
        &self.inner
    }
}

impl<T> std::ops::Deref for TenantScoped<T> {
    type Target = T;

    /// The payload, through the tag.
    fn deref(&self) -> (inner: &T)
        ensures
            *inner == self.inner,
    {
        &self.inner
    }
}

/// One record of each OTLP-stable signal, tagged with its tenant.
#[derive(Debug)]
#[non_exhaustive]
pub enum SinkRecord {
    Logs(TenantScoped<ExportLogsServiceRequest>),
    Traces(TenantScoped<ExportTraceServiceRequest>),
    Metrics(TenantScoped<ExportMetricsServiceRequest>),
}

/// Reasons a sink refuses a record.
#[derive(Debug)]
#[non_exhaustive]
pub enum SinkError {
    /// Downstream answered non-2xx, refused the connection, or did not resolve.
    DownstreamUnavailable { reason: String },
    /// Downstream did not answer within the configured timeout.
    DownstreamTimeout { elapsed_ms: u64 },
    /// A sink-internal failure.
    Internal { message: String },
}

impl SinkError {
    /// The operator-facing text of the refusal.
    pub open spec fn text(&self) -> Seq<char> {
        match self {
            SinkError::DownstreamUnavailable { reason } => "downstream unavailable: "@ + reason@,
            SinkError::DownstreamTimeout { elapsed_ms } => "downstream timeout after "@ + dec_nat(
                *elapsed_ms as nat,
            ) + " ms"@,
            SinkError::Internal { message } => "sink internal error: "@ + message@,
        }
    }

    /// Render the refusal as text (what `Display` shows).
    pub fn message(&self) -> (s: String)
        ensures
            s@ == self.text(),
    {
        match self {
            SinkError::DownstreamUnavailable { reason } => {
                let mut s = String::from_str("downstream unavailable: ");
                s.append(reason.as_str());
                s
            },
            SinkError::DownstreamTimeout { elapsed_ms } => {
                let mut s = String::from_str("downstream timeout after ");
                push_dec_u64(&mut s, *elapsed_ms);
                s.append(" ms");
                s
            },
            SinkError::Internal { message } => {
                let mut s = String::from_str("sink internal error: ");
                s.append(message.as_str());
                s
            },
        }
    }
}

/// Reasons a sink's probe fails.
#[derive(Debug)]
#[non_exhaustive]
pub enum ProbeError {
    Unreachable { endpoint: String, reason: String },
    Refused { endpoint: String, status: u16 },
    Timeout { endpoint: String, elapsed_ms: u64 },
}

impl ProbeError {
    /// The operator-facing text of the failure.
    pub open spec fn text(&self) -> Seq<char> {
        match self {
            ProbeError::Unreachable { endpoint, reason } => "downstream unreachable at "@ + endpoint@
                + ": "@ + reason@,
            ProbeError::Refused { endpoint, status } => "downstream rejected probe at "@ + endpoint@
                + ": status "@ + dec_nat(*status as nat),
            ProbeError::Timeout { endpoint, elapsed_ms } => "probe timed out after "@ + dec_nat(
                *elapsed_ms as nat,
            ) + " ms against "@ + endpoint@,
        }
    }

    /// Render the failure as text (what `Display` shows).
    pub fn message(&self) -> (s: String)
        ensures
            s@ == self.text(),
    {
        match self {
            ProbeError::Unreachable { endpoint, reason } => {
                let mut s = String::from_str("downstream unreachable at ");
                s.append(endpoint.as_str());
                s.append(": ");
                s.append(reason.as_str());
                s
            },
            ProbeError::Refused { endpoint, status } => {
                let mut s = String::from_str("downstream rejected probe at ");
                s.append(endpoint.as_str());
                s.append(": status ");
                push_dec_u64(&mut s, *status as u64);
                s
            },
            ProbeError::Timeout { endpoint, elapsed_ms } => {
                let mut s = String::from_str("probe timed out after ");
                push_dec_u64(&mut s, *elapsed_ms);
                s.append(" ms against ");
                s.append(endpoint.as_str());
                s
            },
        }
    }
}

} // verus!
