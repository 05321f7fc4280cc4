use vstd::prelude::*;
use crate::hub::{Hub, HubSubscription, HubView};

verus! {

/// The number of downstream connections accepted since start; it never
/// decreases.
pub struct ConnectionCounter {
    count: u64,
}

impl ConnectionCounter {
    /// The number of accepted connections.
    pub closed spec fn value_of(&self) -> nat {
        self.count as nat
    }

    /// A counter at zero.
    pub fn new() -> (r: ConnectionCounter)
        ensures
            r.value_of() == 0,
    {
        ConnectionCounter { count: 0 }
    }

    /// The number of accepted connections.
    pub fn value(&self) -> (r: u64)
        ensures
            r == self.value_of(),
    {
        self.count
    }

    /// Counts one more accepted connection; the count stays at its largest
    /// value once it gets there.
    pub fn record_accept(&mut self)
        ensures
            final(self).value_of() == if old(self).value_of() < u64::MAX {
                old(self).value_of() + 1
            } else {
                old(self).value_of()
            },
    {
        if self.count < u64::MAX {
            self.count = self.count + 1;
        }
    }
}

/// Accepts a downstream connection: counts it and opens the hub subscription
/// that its session reads from.
pub fn accept_connection(counter: &mut ConnectionCounter, hub: &mut Hub) -> (s: HubSubscription)
    requires
        old(hub)@.well_formed(),
        old(hub)@.receivers < u64::MAX,
    ensures
        final(counter).value_of() == if old(counter).value_of() < u64::MAX {
            old(counter).value_of() + 1
        } else {
            old(counter).value_of()
        },
        final(hub)@ == (HubView { receivers: old(hub)@.receivers + 1, ..old(hub)@ }),
        final(hub)@.well_formed(),
        s.cursor() == old(hub)@.next_seq(),
{
    counter.record_accept();
    hub.subscribe()
}

} // verus!
