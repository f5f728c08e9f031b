//! Selection of the output endpoint that encoded messages go to.
//!
//! The transport itself lies outside the library: `route` addresses the bytes
//! of one message to the endpoint selected at that moment, the caller sends
//! them and reports the outcome with `record`. Since the endpoint is captured
//! per message, switching endpoints neither drops nor reorders messages already
//! routed.
use vstd::prelude::*;

verus! {

/// Why a message did not reach an endpoint.
#[derive(Clone, Copy, Debug, PartialEq, Eq, Structural)]
pub enum SendError {
    NoEndpoint,
    EndpointClosed,
    EndpointRemoved,
    TransportBusy,
}

/// Encoded bytes together with the endpoint they are for, captured when the
/// message was routed.
#[derive(Clone, Copy, Debug, PartialEq, Eq)]
pub struct Delivery {
    pub endpoint: u32,
    pub bytes: [u8; 3],
}

/// The selected endpoint, and counts of what was delivered and what failed.
#[derive(Clone, Copy, Debug, PartialEq, Eq, Structural)]
pub struct OutputRouter {
    pub selected: Option<u32>,
    pub sent: u64,
    pub failed: u64,
}

/// A counter after one more event; it stops at its largest value.
pub open spec fn bump(n: u64) -> u64 {
    if n < u64::MAX {
        (n + 1) as u64
    } else {
        n
    }
}

impl OutputRouter {
    /// A router with no endpoint selected.
    pub fn new() -> (r: OutputRouter)
        ensures
            r == (OutputRouter { selected: None, sent: 0, failed: 0 }),
    {
        OutputRouter { selected: None, sent: 0, failed: 0 }
    }

    /// Makes `endpoint` the destination of every message routed from now on.
    pub fn select(&mut self, endpoint: u32)
        ensures
            *final(self) == (OutputRouter { selected: Some(endpoint), ..*old(self) }),
    {
        self.selected = Some(endpoint);
    }

    /// Forgets the selected endpoint, for instance once it has gone away.
    pub fn deselect(&mut self)
        ensures
            *final(self) == (OutputRouter { selected: None, ..*old(self) }),
    {
        self.selected = None;
    }

    /// Addresses `bytes` to the endpoint selected at the time of the call.
    pub fn route(&self, bytes: [u8; 3]) -> (r: Result<Delivery, SendError>)
        ensures
            match self.selected {
                Some(e) => r == Ok::<Delivery, SendError>(Delivery { endpoint: e, bytes }),
                None => r == Err::<Delivery, SendError>(SendError::NoEndpoint),
            },
    {
        match self.selected {
            Some(e) => Ok(Delivery { endpoint: e, bytes }),
            None => Err(SendError::NoEndpoint),
        }
    }

    /// Counts the outcome of one send; a failure is counted and otherwise
    /// changes nothing.
    pub fn record(&mut self, outcome: Result<(), SendError>)
        ensures
            final(self).selected == old(self).selected,
            outcome is Ok ==> final(self).sent == bump(old(self).sent) && final(self).failed == old(
                self,
            ).failed,
            outcome is Err ==> final(self).failed == bump(old(self).failed) && final(self).sent
                == old(self).sent,
    {
        match outcome {
            Ok(()) => {
                if self.sent < u64::MAX {
                    self.sent = self.sent + 1;
                }
            },
            Err(_) => {
                if self.failed < u64::MAX {
                    self.failed = self.failed + 1;
                }
            },
        }
    }
}

} // verus!
