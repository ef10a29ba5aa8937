//! Per-transport concurrency cap: deterministic refusal under load.
//!
//! Each transport carries an independent semaphore sized from the
//! configured cap. A request takes a permit before it is validated and
//! holds it until its response is sent; when no permit is left the
//! request is refused at once.

use std::sync::Arc;
use tokio::sync::{OwnedSemaphorePermit, Semaphore};
use vstd::prelude::*;
use crate::text::{dec_nat, push_dec_u64};

verus! {

/// `tokio::sync::Semaphore`, carried opaquely.
#[verifier::external_type_specification]
#[verifier::external_body]
pub struct ExSemaphore(Semaphore);

/// `tokio::sync::OwnedSemaphorePermit`, carried opaquely.
#[verifier::external_type_specification]
#[verifier::external_body]
pub struct ExOwnedSemaphorePermit(OwnedSemaphorePermit);

/// The largest permit count `tokio::sync::Semaphore::new` accepts.
pub open spec fn max_permits() -> usize {
    (usize::MAX >> 3) as usize
}

/// Calls `tokio::sync::Semaphore::new`. tokio panics above
/// `Semaphore::MAX_PERMITS` (`usize::MAX >> 3`), which the `requires`
/// rules out. Nothing is stated of the permits it holds: they change with
/// concurrent use.
#[verifier::external_body]
fn new_semaphore(permits: usize) -> (s: Semaphore)
    requires
        permits <= max_permits(),
{
    Semaphore::new(permits)
}

/// Calls `Arc::clone` on a semaphore handle: a second pointer to the same
/// semaphore.
#[verifier::external_body]
fn share_semaphore(s: &Arc<Semaphore>) -> (r: Arc<Semaphore>)
    ensures
        r == *s,
{
    Arc::clone(s)
}

/// Why `tokio::sync::Semaphore::try_acquire_owned` gave no permit.
#[derive(Debug, Clone, Copy, PartialEq, Eq, Structural)]
pub enum AcquireRefusal {
    /// Every permit is taken.
    NoPermits,
    /// The semaphore was closed.
    Closed,
}

/// Calls `tokio::sync::Semaphore::try_acquire_owned` on a clone of the
/// handle, mapping its error to [`AcquireRefusal`] one variant for one.
/// Whether a permit is free depends on concurrent use, so nothing is
/// stated of which outcome comes back.
#[verifier::external_body]
fn try_acquire_owned(s: &Arc<Semaphore>) -> (r: Result<OwnedSemaphorePermit, AcquireRefusal>) {
    match Arc::clone(s).try_acquire_owned() {
        Ok(permit) => Ok(permit),
        Err(tokio::sync::TryAcquireError::NoPermits) => Err(AcquireRefusal::NoPermits),
        Err(tokio::sync::TryAcquireError::Closed) => Err(AcquireRefusal::Closed),
    }
}

/// Calls `tokio::sync::Semaphore::available_permits`. The count changes
/// with concurrent use, so nothing is stated of it.
#[verifier::external_body]
fn available_permits(s: &Arc<Semaphore>) -> (n: usize) {
    s.available_permits()
}

/// Transport identifier used in the `concurrency_cap_hit` event.
#[derive(Debug, Clone, Copy, PartialEq, Eq, Structural)]
pub enum CapTransport {
    Grpc,
    HttpProtobuf,
}

impl CapTransport {
    /// The stable `transport` field text of each transport.
    pub open spec fn text(self) -> Seq<char> {
        match self {
            CapTransport::Grpc => "grpc"@,
            CapTransport::HttpProtobuf => "http_protobuf"@,
        }
    }

    /// Stable string used as the `transport` field.
    pub fn as_str(self) -> (s: &'static str)
        ensures
            s@ == self.text(),
    {
        match self {
            CapTransport::Grpc => "grpc",
            CapTransport::HttpProtobuf => "http_protobuf",
        }
    }
}

/// A refused acquire: the fields of the `concurrency_cap_hit` event.
#[derive(Debug, Clone, Copy, PartialEq, Eq, Structural)]
pub struct CapRefusal {
    pub transport: CapTransport,
    pub cap: u32,
    /// When the cap is hit every permit is outstanding, so this is the cap.
    pub in_flight_at_refusal: u32,
}

/// Per-transport concurrency limiter: the semaphore, the configured cap
/// and the transport it guards.
pub struct ConcurrencyLimiter {
    semaphore: Arc<Semaphore>,
    cap: u32,
    transport: CapTransport,
}

impl ConcurrencyLimiter {
    pub closed spec fn cap_spec(&self) -> u32 {
        self.cap
    }

    pub closed spec fn transport_spec(&self) -> CapTransport {
        self.transport
    }

    /// A limiter with `cap` permits for `transport`.
    pub fn new(cap: u32, transport: CapTransport) -> (l: ConcurrencyLimiter)
        requires
            cap as usize <= max_permits(),
        ensures
            l.cap_spec() == cap,
            l.transport_spec() == transport,
    {
        ConcurrencyLimiter { semaphore: Arc::new(new_semaphore(cap as usize)), cap, transport }
    }

    /// A second handle on the same semaphore.
    pub fn share(&self) -> (l: ConcurrencyLimiter)
        ensures
            l.cap_spec() == self.cap_spec(),
            l.transport_spec() == self.transport_spec(),
    {
        ConcurrencyLimiter {
            semaphore: share_semaphore(&self.semaphore),
            cap: self.cap,
            transport: self.transport,
        }
    }

    /// The configured cap.
    pub fn cap(&self) -> (c: u32)
        ensures
            c == self.cap_spec(),
    {
        self.cap
    }

    /// The transport this limiter guards.
    pub fn transport(&self) -> (t: CapTransport)
        ensures
            t == self.transport_spec(),
    {
        self.transport
    }

    /// Try to take a permit. A refusal (no permit left, or the semaphore
    /// closed at shutdown) names the transport and the cap, with the cap as
    /// the in-flight count.
    pub fn try_acquire(&self) -> (r: Result<OwnedSemaphorePermit, CapRefusal>)
        ensures
            r matches Err(refusal) ==> refusal == (CapRefusal {
                transport: self.transport_spec(),
                cap: self.cap_spec(),
                in_flight_at_refusal: self.cap_spec(),
            }),
    {
        match try_acquire_owned(&self.semaphore) {
            Ok(permit) => Ok(permit),
            Err(AcquireRefusal::NoPermits) => Err(
                CapRefusal { transport: self.transport, cap: self.cap, in_flight_at_refusal: self.cap },
            ),
            Err(AcquireRefusal::Closed) => Err(
                CapRefusal { transport: self.transport, cap: self.cap, in_flight_at_refusal: self.cap },
            ),
        }
    }

    /// Permits currently held: the cap less the available permits, never
    /// below zero.
    pub fn in_flight(&self) -> (n: u32)
        ensures
            n <= self.cap_spec(),
    {
        let available = available_permits(&self.semaphore);
        in_flight_from(self.cap, available)
    }
}

/// The in-flight count for a cap and an available-permit count.
pub fn in_flight_from(cap: u32, available: usize) -> (n: u32)
    ensures
        n == (if available >= cap { 0 } else { cap - available }),
{
    if available >= cap as usize {
        0
    } else {
        cap - available as u32
    }
}

/// The refusal diagnostic text for a transport and cap.
pub open spec fn refusal_text(transport: CapTransport, cap: u32) -> Seq<char> {
    "aperture: "@ + (match transport {
        CapTransport::Grpc => "gRPC"@,
        CapTransport::HttpProtobuf => "HTTP"@,
    }) + " concurrency cap of "@ + dec_nat(cap as nat) + " reached on transport="@
        + transport.text()
}

/// Operator-facing diagnostic naming the cap: the gRPC `grpc-message` and
/// the HTTP response body.
pub fn refusal_message(transport: CapTransport, cap: u32) -> (s: String)
    ensures
        s@ == refusal_text(transport, cap),
{
    let mut s = String::from_str("aperture: ");
    match transport {
        CapTransport::Grpc => s.append("gRPC"),
        CapTransport::HttpProtobuf => s.append("HTTP"),
    }
    s.append(" concurrency cap of ");
    push_dec_u64(&mut s, cap as u64);
    s.append(" reached on transport=");
    s.append(transport.as_str());
    s
}

} // verus!
