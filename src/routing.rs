//! Which pins each timer channel can be routed to.
//!
//! A timer's compare/capture channel reaches the pins through a route location; each (timer,
//! channel, location) triple of the device's routing table names one pin. The table is fixed and
//! is consulted, never changed.
use vstd::prelude::*;

use crate::gpio::{Output, Pin};
use crate::timer::{ChannelInstance, TimerInstance};

verus! {

/// The pin (port, index) that channel `channel` of timer `timer` reaches at route location
/// `location`, if that location exists for the channel.
pub open spec fn route_pin(timer: u8, channel: u8, location: u8) -> Option<(u8, u8)> {
    match (timer, channel, location) {
        (0, 0, 0) => Some((0, 0)),
        (0, 0, 1) => Some((0, 0)),
        (0, 0, 2) => Some((5, 6)),
        (0, 0, 3) => Some((3, 1)),
        (0, 0, 4) => Some((0, 0)),
        (0, 0, 5) => Some((5, 0)),
        (0, 1, 0) => Some((0, 1)),
        (0, 1, 1) => Some((0, 1)),
        (0, 1, 2) => Some((5, 7)),
        (0, 1, 3) => Some((3, 2)),
        (0, 1, 4) => Some((2, 0)),
        (0, 1, 5) => Some((5, 1)),
        (0, 2, 0) => Some((0, 2)),
        (0, 2, 1) => Some((0, 2)),
        (0, 2, 2) => Some((5, 8)),
        (0, 2, 3) => Some((3, 3)),
        (0, 2, 4) => Some((2, 1)),
        (0, 2, 5) => Some((5, 2)),
        (1, 0, 1) => Some((4, 10)),
        (1, 0, 2) => Some((1, 0)),
        (1, 0, 3) => Some((1, 7)),
        (1, 0, 4) => Some((3, 6)),
        (1, 1, 1) => Some((4, 11)),
        (1, 1, 2) => Some((1, 1)),
        (1, 1, 3) => Some((1, 8)),
        (1, 1, 4) => Some((3, 7)),
        (1, 2, 1) => Some((4, 12)),
        (1, 2, 2) => Some((1, 2)),
        (1, 2, 3) => Some((1, 11)),
        (2, 0, 0) => Some((0, 8)),
        (2, 0, 1) => Some((0, 12)),
        (2, 0, 2) => Some((2, 8)),
        (2, 1, 0) => Some((0, 9)),
        (2, 1, 1) => Some((0, 13)),
        (2, 1, 2) => Some((2, 9)),
        (2, 2, 0) => Some((0, 10)),
        (2, 2, 1) => Some((0, 14)),
        (2, 2, 2) => Some((2, 10)),
        _ => None,
    }
}

/// The pin that channel `channel` of timer `timer` reaches at route location `location`.
pub fn route_pin_of(timer: u8, channel: u8, location: u8) -> (r: Option<(u8, u8)>)
    ensures
        r == route_pin(timer, channel, location),
{
    match (timer, channel, location) {
        (0, 0, 0) => Some((0, 0)),
        (0, 0, 1) => Some((0, 0)),
        (0, 0, 2) => Some((5, 6)),
        (0, 0, 3) => Some((3, 1)),
        (0, 0, 4) => Some((0, 0)),
        (0, 0, 5) => Some((5, 0)),
        (0, 1, 0) => Some((0, 1)),
        (0, 1, 1) => Some((0, 1)),
        (0, 1, 2) => Some((5, 7)),
        (0, 1, 3) => Some((3, 2)),
        (0, 1, 4) => Some((2, 0)),
        (0, 1, 5) => Some((5, 1)),
        (0, 2, 0) => Some((0, 2)),
        (0, 2, 1) => Some((0, 2)),
        (0, 2, 2) => Some((5, 8)),
        (0, 2, 3) => Some((3, 3)),
        (0, 2, 4) => Some((2, 1)),
        (0, 2, 5) => Some((5, 2)),
        (1, 0, 1) => Some((4, 10)),
        (1, 0, 2) => Some((1, 0)),
        (1, 0, 3) => Some((1, 7)),
        (1, 0, 4) => Some((3, 6)),
        (1, 1, 1) => Some((4, 11)),
        (1, 1, 2) => Some((1, 1)),
        (1, 1, 3) => Some((1, 8)),
        (1, 1, 4) => Some((3, 7)),
        (1, 2, 1) => Some((4, 12)),
        (1, 2, 2) => Some((1, 2)),
        (1, 2, 3) => Some((1, 11)),
        (2, 0, 0) => Some((0, 8)),
        (2, 0, 1) => Some((0, 12)),
        (2, 0, 2) => Some((2, 8)),
        (2, 1, 0) => Some((0, 9)),
        (2, 1, 1) => Some((0, 13)),
        (2, 1, 2) => Some((2, 9)),
        (2, 2, 0) => Some((0, 10)),
        (2, 2, 1) => Some((0, 14)),
        (2, 2, 2) => Some((2, 10)),
        _ => None,
    }
}

/// A pin that can carry signal `F` of peripheral `P` at some route location.
pub trait HasLocForFunction<P, F> {
    /// Whether the pin is the one reached at route location `location`.
    spec fn routable_at(&self, location: nat) -> bool;

    /// Whether the pin is the one reached at route location `location`.
    fn is_routable_at(&self, location: u8) -> (r: bool)
        ensures
            r == self.routable_at(location as nat),
    ;
}

impl<M, T: TimerInstance, C: ChannelInstance> HasLocForFunction<T, C> for Pin<Output<M>> {
    open spec fn routable_at(&self, location: nat) -> bool {
        location < 8 && route_pin(T::spec_index() as u8, C::spec_index() as u8, location as u8)
            == Some((self@.0 as u8, self@.1 as u8))
    }

    fn is_routable_at(&self, location: u8) -> (r: bool) {
        if location >= 8 {
            return false;
        }
        match route_pin_of(T::index(), C::index(), location) {
            Some(id) => id.0 == self.port() && id.1 == self.index(),
            None => false,
        }
    }
}

} // verus!
