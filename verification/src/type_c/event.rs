//! Port events: the per-port set of conditions that a controller reports, and
//! the system-wide set of ports that have something pending.

use crate::bits::{bit_at, get_bit, lemma_bit_after_write, lemma_zero_iff_no_bit, set_bit, with_bit};
use crate::type_c::MAX_PORTS;
use vstd::prelude::*;

verus! {

/// Plug inserted or removed
pub const PLUG_INSERTED_OR_REMOVED: usize = 0;

/// New power contract as provider
pub const NEW_POWER_CONTRACT_AS_PROVIDER: usize = 1;

/// New power contract as consumer
pub const NEW_POWER_CONTRACT_AS_CONSUMER: usize = 2;

/// Power role swap completed
pub const POWER_SWAP_COMPLETED: usize = 3;

/// Data role swap completed
pub const DATA_SWAP_COMPLETED: usize = 4;

/// Alternate mode entered
pub const ALT_MODE_ENTERED: usize = 5;

/// PD hard reset
pub const PD_HARD_RESET: usize = 6;

/// The source is ready to deliver the contracted power
pub const SINK_READY: usize = 7;

/// Custom mode entered
pub const CUSTOM_MODE_ENTERED: usize = 8;

/// Custom mode exited
pub const CUSTOM_MODE_EXITED: usize = 9;

/// Attention VDM received
pub const CUSTOM_MODE_ATTENTION_RECEIVED: usize = 10;

/// Other VDM received
pub const CUSTOM_MODE_OTHER_VDM_RECEIVED: usize = 11;

/// Discover mode completed
pub const DISCOVER_MODE_COMPLETED: usize = 12;

/// PD alert received
pub const ALERT: usize = 13;

/// Number of conditions in a port event; the first `NOTIFICATION_START` change the port status.
pub const EVENT_BITS: usize = 14;

/// First condition that is a notification rather than a status change.
pub const NOTIFICATION_START: usize = 8;

/// Conditions that change the port status.
pub const STATUS_MASK: u32 = 0x00ff;

/// Conditions that only notify.
pub const NOTIFICATION_MASK: u32 = 0x3f00;

/// Per-port set of independent conditions.
#[derive(Copy, Clone, Debug, PartialEq, Eq, Structural)]
pub struct PortEventKind(pub u32);

/// A status change: a port event that holds status conditions only.
pub type PortStatusChanged = PortEventKind;

/// A notification: a port event that holds notification conditions only.
pub type PortNotification = PortEventKind;

impl PortEventKind {
    /// Whether condition `bit` is part of the event.
    pub open spec fn has(&self, bit: usize) -> bool {
        bit_at(self.0, bit as u32)
    }

    /// The event holds no condition at all.
    pub open spec fn spec_is_none(&self) -> bool {
        self.0 == 0
    }

    /// The event without any condition.
    pub fn none() -> (event: Self)
        ensures
            event.0 == 0,
            forall|bit: usize| bit < 32 ==> !#[trigger] event.has(bit),
    {
        proof {
            lemma_zero_iff_no_bit(0);
        }
        PortEventKind(0)
    }

    /// Whether the event holds no condition.
    pub fn is_none(&self) -> (none: bool)
        ensures
            none == self.spec_is_none(),
            none <==> (forall|bit: u32| bit < 32 ==> !#[trigger] bit_at(self.0, bit)),
    {
        proof {
            lemma_zero_iff_no_bit(self.0);
        }
        self.0 == 0
    }

    /// Whether condition `bit` is part of the event.
    pub fn get(&self, bit: usize) -> (set: bool)
        requires
            bit < 32,
        ensures
            set == self.has(bit),
    {
        get_bit(self.0, bit)
    }

    /// Add condition `bit` to the event, or take it out.
    pub fn set(&mut self, bit: usize, value: bool)
        requires
            bit < 32,
        ensures
            final(self).0 == with_bit(old(self).0, bit as u32, value),
            forall|other: usize|
                other < 32 ==> #[trigger] final(self).has(other) == (if other == bit {
                    value
                } else {
                    old(self).has(other)
                }),
    {
        proof {
            assert forall|other: usize| other < 32 implies #[trigger] bit_at(
                with_bit(self.0, bit as u32, value),
                other as u32,
            ) == (if other == bit {
                value
            } else {
                bit_at(self.0, other as u32)
            }) by {
                lemma_bit_after_write(self.0, bit as u32, value, other as u32);
            }
        }
        let mut raw = self.0;
        set_bit(&mut raw, bit, value);
        self.0 = raw;
    }

    /// The conditions of either event.
    pub fn union(self, other: Self) -> (both: Self)
        ensures
            both.0 == self.0 | other.0,
            forall|bit: usize|
                bit < 32 ==> #[trigger] both.has(bit) == (self.has(bit) || other.has(bit)),
    {
        proof {
            let a = self.0;
            let b = other.0;
            assert forall|bit: usize| bit < 32 implies #[trigger] bit_at(a | b, bit as u32) == (
            bit_at(a, bit as u32) || bit_at(b, bit as u32)) by {
                let k = bit as u32;
                assert((((a | b) >> k) & 1u32 == 1u32) == (((a >> k) & 1u32 == 1u32) || ((b >> k)
                    & 1u32 == 1u32))) by (bit_vector);
            }
        }
        PortEventKind(self.0 | other.0)
    }

    /// The conditions that change the port status.
    pub fn status_changed(&self) -> (status: PortStatusChanged)
        ensures
            status.0 == self.0 & STATUS_MASK,
            forall|bit: usize|
                bit < 32 ==> #[trigger] status.has(bit) == (self.has(bit) && bit
                    < NOTIFICATION_START),
    {
        proof {
            let a = self.0;
            assert forall|bit: usize| bit < 32 implies #[trigger] bit_at(
                a & STATUS_MASK,
                bit as u32,
            ) == (bit_at(a, bit as u32) && bit < NOTIFICATION_START) by {
                let k = bit as u32;
                assert((((a & 0x00ffu32) >> k) & 1u32 == 1u32) == (((a >> k) & 1u32 == 1u32) && k
                    < 8)) by (bit_vector)
                    requires
                        k < 32,
                ;
            }
        }
        PortEventKind(self.0 & STATUS_MASK)
    }

    /// The conditions that only notify.
    pub fn notification(&self) -> (notification: PortNotification)
        ensures
            notification.0 == self.0 & NOTIFICATION_MASK,
            forall|bit: usize|
                bit < 32 ==> #[trigger] notification.has(bit) == (self.has(bit)
                    && NOTIFICATION_START <= bit < EVENT_BITS),
    {
        proof {
            let a = self.0;
            assert forall|bit: usize| bit < 32 implies #[trigger] bit_at(
                a & NOTIFICATION_MASK,
                bit as u32,
            ) == (bit_at(a, bit as u32) && NOTIFICATION_START <= bit < EVENT_BITS) by {
                let k = bit as u32;
                assert((((a & 0x3f00u32) >> k) & 1u32 == 1u32) == (((a >> k) & 1u32 == 1u32) && 8
                    <= k < 14)) by (bit_vector)
                    requires
                        k < 32,
                ;
            }
        }
        PortEventKind(self.0 & NOTIFICATION_MASK)
    }

    /// Plug inserted or removed
    pub fn plug_inserted_or_removed(&self) -> (set: bool)
        ensures
            set == self.has(PLUG_INSERTED_OR_REMOVED),
    {
        self.get(PLUG_INSERTED_OR_REMOVED)
    }

    /// New power contract as provider
    pub fn new_power_contract_as_provider(&self) -> (set: bool)
        ensures
            set == self.has(NEW_POWER_CONTRACT_AS_PROVIDER),
    {
        self.get(NEW_POWER_CONTRACT_AS_PROVIDER)
    }

    /// New power contract as consumer
    pub fn new_power_contract_as_consumer(&self) -> (set: bool)
        ensures
            set == self.has(NEW_POWER_CONTRACT_AS_CONSUMER),
    {
        self.get(NEW_POWER_CONTRACT_AS_CONSUMER)
    }

    /// Power role swap completed
    pub fn power_swap_completed(&self) -> (set: bool)
        ensures
            set == self.has(POWER_SWAP_COMPLETED),
    {
        self.get(POWER_SWAP_COMPLETED)
    }

    /// Data role swap completed
    pub fn data_swap_completed(&self) -> (set: bool)
        ensures
            set == self.has(DATA_SWAP_COMPLETED),
    {
        self.get(DATA_SWAP_COMPLETED)
    }

    /// Alternate mode entered
    pub fn alt_mode_entered(&self) -> (set: bool)
        ensures
            set == self.has(ALT_MODE_ENTERED),
    {
        self.get(ALT_MODE_ENTERED)
    }

    /// PD hard reset
    pub fn pd_hard_reset(&self) -> (set: bool)
        ensures
            set == self.has(PD_HARD_RESET),
    {
        self.get(PD_HARD_RESET)
    }

    /// The source is ready to deliver the contracted power
    pub fn sink_ready(&self) -> (set: bool)
        ensures
            set == self.has(SINK_READY),
    {
        self.get(SINK_READY)
    }
}

/// Notification of a vendor defined message.
#[derive(Copy, Clone, Debug, PartialEq, Eq, Structural)]
pub enum VdmNotification {
    /// Custom mode entered
    Entered,
    /// Custom mode exited
    Exited,
    /// Other VDM received
    OtherReceived,
    /// Attention VDM received
    AttentionReceived,
}

/// Set of global ports that have something pending.
#[derive(Copy, Clone, Debug, PartialEq, Eq, Structural)]
pub struct PortPending(pub u32);

impl PortPending {
    /// Whether `port` is in the set.
    pub open spec fn contains(&self, port: int) -> bool {
        0 <= port < 32 && bit_at(self.0, port as u32)
    }

    /// The set holds no port.
    pub open spec fn spec_is_none(&self) -> bool {
        forall|port: int| !self.contains(port)
    }

    /// Create a set with no port pending
    pub fn none() -> (pending: Self)
        ensures
            pending.0 == 0,
            pending.spec_is_none(),
    {
        proof {
            lemma_zero_iff_no_bit(0);
        }
        PortPending(0)
    }

    /// Returns true if no port is pending
    pub fn is_none(&self) -> (none: bool)
        ensures
            none == self.spec_is_none(),
            none == (self.0 == 0),
    {
        proof {
            lemma_zero_iff_no_bit(self.0);
            if self.0 != 0 {
                let bit = crate::bits::choose_set_bit(self.0);
                assert(self.contains(bit as int));
            }
        }
        self.0 == 0
    }

    /// Number of ports that the set can hold
    pub fn len(&self) -> (n: usize)
        ensures
            n == MAX_PORTS,
    {
        MAX_PORTS
    }

    /// Returns true if `port` is pending; a port beyond the set's size never is
    pub fn is_pending(&self, port: usize) -> (pending: bool)
        ensures
            pending == self.contains(port as int),
    {
        if port >= MAX_PORTS {
            return false;
        }
        get_bit(self.0, port)
    }

    /// Mark `port` as pending
    pub fn pend_port(&mut self, port: usize)
        requires
            port < MAX_PORTS,
        ensures
            final(self).0 == with_bit(old(self).0, port as u32, true),
            forall|other: int|
                #[trigger] final(self).contains(other) == (other == port || old(self).contains(
                    other,
                )),
    {
        proof {
            assert forall|other: int| (0 <= other < 32 && #[trigger] bit_at(
                with_bit(self.0, port as u32, true),
                other as u32,
            )) == (other == port || self.contains(other)) by {
                if 0 <= other < 32 {
                    lemma_bit_after_write(self.0, port as u32, true, other as u32);
                }
            }
        }
        let mut raw = self.0;
        set_bit(&mut raw, port, true);
        self.0 = raw;
    }

    /// Clear `port`; a port beyond the set's size is not in it
    pub fn clear_port(&mut self, port: usize)
        ensures
            forall|other: int|
                #[trigger] final(self).contains(other) == (other != port && old(self).contains(
                    other,
                )),
    {
        if port >= MAX_PORTS {
            return ;
        }
        proof {
            assert forall|other: int| (0 <= other < 32 && #[trigger] bit_at(
                with_bit(self.0, port as u32, false),
                other as u32,
            )) == (other != port && self.contains(other)) by {
                if 0 <= other < 32 {
                    lemma_bit_after_write(self.0, port as u32, false, other as u32);
                }
            }
        }
        let mut raw = self.0;
        set_bit(&mut raw, port, false);
        self.0 = raw;
    }

    /// The ports of either set
    pub fn union(self, other: Self) -> (both: Self)
        ensures
            both.0 == self.0 | other.0,
            forall|port: int|
                #[trigger] both.contains(port) == (self.contains(port) || other.contains(port)),
    {
        proof {
            let a = self.0;
            let b = other.0;
            assert forall|port: int| (0 <= port < 32 && #[trigger] bit_at(a | b, port as u32)) == (
            self.contains(port) || other.contains(port)) by {
                if 0 <= port < 32 {
                    let k = port as u32;
                    assert((((a | b) >> k) & 1u32 == 1u32) == (((a >> k) & 1u32 == 1u32) || ((b
                        >> k) & 1u32 == 1u32))) by (bit_vector);
                }
            }
        }
        PortPending(self.0 | other.0)
    }

    /// Walk the pending ports in ascending order
    pub fn into_iter(self) -> (iter: PortPendingIter)
        ensures
            forall|port: int| #[trigger] iter.remaining(port) == self.contains(port),
    {
        PortPendingIter { flags: self, index: 0 }
    }
}

/// Cursor over a snapshot of pending ports, in ascending order.
#[derive(Copy, Clone, Debug, PartialEq, Eq, Structural)]
pub struct PortPendingIter {
    flags: PortPending,
    index: usize,
}

impl PortPendingIter {
    /// Whether the cursor has yet to hand out `port`.
    pub closed spec fn remaining(&self, port: int) -> bool {
        self.index <= port && self.flags.contains(port)
    }

    /// Nothing is left to hand out.
    pub open spec fn exhausted(&self) -> bool {
        forall|port: int| !self.remaining(port)
    }

    /// `port` is the lowest port left to hand out.
    pub open spec fn is_first(&self, port: int) -> bool {
        self.remaining(port) && forall|other: int| #[trigger]
            self.remaining(other) ==> port <= other
    }

    /// A port that is left to hand out is below the bitmap's size.
    pub proof fn lemma_remaining_bounded(&self, port: int)
        requires
            self.remaining(port),
        ensures
            0 <= port < MAX_PORTS,
    {
    }

    /// Whether the cursor has yet to hand out `port`
    pub fn is_remaining(&self, port: usize) -> (left: bool)
        ensures
            left == self.remaining(port as int),
    {
        self.index <= port && self.flags.is_pending(port)
    }

    /// The lowest port left without advancing the cursor
    pub fn peek(&self) -> (first: Option<usize>)
        ensures
            match first {
                Some(port) => self.is_first(port as int),
                None => self.exhausted(),
            },
    {
        let mut cursor = *self;
        cursor.next()
    }

    /// Hand out the lowest port left and advance past it
    pub fn next(&mut self) -> (first: Option<usize>)
        ensures
            match first {
                Some(port) => old(self).is_first(port as int) && forall|other: int| #[trigger]
                    final(self).remaining(other) == (old(self).remaining(other) && other != port),
                None => old(self).exhausted() && final(self).exhausted(),
            },
    {
        let mut i: usize = self.index;
        while i < MAX_PORTS
            invariant
                self.index <= i,
                *self == *old(self),
                forall|port: int| self.index <= port < i ==> !self.flags.contains(port),
            decreases MAX_PORTS - i,
        {
            if get_bit(self.flags.0, i) {
                self.index = i + 1;
                return Some(i);
            }
            i += 1;
        }
        self.index = i;
        None
    }
}

} // verus!
