//! Plain parameter values of the nfqws packet processor.

use vstd::prelude::*;
use std::time::Duration;

verus! {

/// Duration whose length is the given number of whole seconds, as made by
/// `Duration::from_secs`.
pub uninterp spec fn spec_duration_from_secs(secs: u64) -> Duration;

/// `Duration::from_secs`: the duration of `secs` whole seconds; the result
/// is claimed to depend on `secs` alone.
#[verifier::external_body]
pub(crate) fn duration_from_secs(secs: u64) -> (res: Duration)
    ensures
        res == spec_duration_from_secs(secs),
{
    Duration::from_secs(secs)
}

/// How a bound socket uses the link-local address of its interface.
#[derive(Debug, Copy, Clone, PartialEq, Eq, Structural)]
pub enum BindLl {
    Unwanted,
    No,
    Prefer,
    Force,
}

/// The number nfqws uses for each link-local mode.
pub open spec fn bind_ll_code(ll: BindLl) -> i32 {
    match ll {
        BindLl::Unwanted => 0,
        BindLl::No => 1,
        BindLl::Prefer => 2,
        BindLl::Force => 3,
    }
}

impl BindLl {
    /// The number nfqws uses for this mode (`Unwanted` 0, `No` 1,
    /// `Prefer` 2, `Force` 3).
    pub fn code(&self) -> (res: i32)
        ensures
            res == bind_ll_code(*self),
    {
        match self {
            BindLl::Unwanted => 0,
            BindLl::No => 1,
            BindLl::Prefer => 2,
            BindLl::Force => 3,
        }
    }
}

/// Timeouts of the internal connection tracker.
#[derive(Debug, Copy, Clone)]
pub struct ConnTrackTimeouts {
    pub syn: Duration,
    pub established: Duration,
    pub fin: Duration,
    pub udp: Option<Duration>,
}

impl ConnTrackTimeouts {
    /// Timeouts with the given values.
    pub fn new(syn: Duration, established: Duration, fin: Duration, udp: Option<Duration>) -> (res:
        Self)
        ensures
            res.syn == syn,
            res.established == established,
            res.fin == fin,
            res.udp == udp,
    {
        ConnTrackTimeouts { syn, established, fin, udp }
    }
}

/// A TCP window size, with an optional scale factor.
#[derive(Debug, Copy, Clone)]
pub struct WindowSize {
    pub size: u32,
    pub scale_factor: Option<u32>,
}

impl WindowSize {
    /// A window size with the given values.
    pub fn new(size: u32, scale_factor: Option<u32>) -> (res: Self)
        ensures
            res.size == size,
            res.scale_factor == scale_factor,
    {
        WindowSize { size, scale_factor }
    }

    /// A window size of `size` with scale factor 0.
    pub fn size(size: u32) -> (res: Self)
        ensures
            res.size == size,
            res.scale_factor == Some(0u32),
    {
        WindowSize { size, scale_factor: Some(0) }
    }
}

/// What to send in place of SYN,ACK in the TCP handshake.
#[derive(Debug, Copy, Clone)]
pub enum SynackSplit {
    Sny,
    SynAck,
    AckSyn,
}

/// Automatic TTL: a delta with optional lower and upper bounds.
#[derive(Debug, Copy, Clone)]
pub struct AutoTTL {
    delta: i32,
    min: Option<u32>,
    max: Option<u32>,
}

impl View for AutoTTL {
    type V = (i32, Option<u32>, Option<u32>);

    closed spec fn view(&self) -> (i32, Option<u32>, Option<u32>) {
        (self.delta, self.min, self.max)
    }
}

impl AutoTTL {
    /// Automatic TTL with the given delta and bounds.
    pub fn new(delta: i32, min: Option<u32>, max: Option<u32>) -> (res: Self)
        ensures
            res@ == (delta, min, max),
    {
        AutoTTL { delta, min, max }
    }
}

} // verus!
