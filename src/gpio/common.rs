//! Marker types that name a pin's configuration in its type.
use vstd::prelude::*;

use core::marker::PhantomData;

verus! {

/// A pin with its input disabled. Its output level selects floating (`Floating`) or pulled up
/// (`PullUp`).
pub struct Disabled<TYPE> {
    _private: PhantomData<TYPE>,
}

/// A pin that drives its output in the drive style `TYPE`, for example `PushPull<Normal>` or
/// `WithFilter<WiredAnd<Alternate, PullUp>>`.
pub struct Output<TYPE> {
    _private: PhantomData<TYPE>,
}

/// A pin whose input is read. `TYPE` is the pull state (`Floating`, `PullUp`, `PullDown`,
/// optionally inside `WithFilter`), or `Output<_>` for a pin that is both read and driven.
pub struct Input<TYPE> {
    _private: PhantomData<TYPE>,
}

/// No pull resistor.
pub struct Floating;

/// Pull-up resistor.
pub struct PullUp;

/// Pull-down resistor.
pub struct PullDown;

/// Push-pull output, in normal or alternate drive strength.
pub struct PushPull<CFG> {
    _private: PhantomData<CFG>,
}

/// Open-source (wired "or") output: only driven high; idle state floating or pulled down.
pub struct OpenSource<STATE> {
    _private: PhantomData<STATE>,
}

/// Open-drain (wired "and") output: only driven low; idle state floating or pulled up.
pub struct OpenDrain<MODE, STATE> {
    _private0: PhantomData<MODE>,
    _private1: PhantomData<STATE>,
}

/// The input deglitch filter is enabled.
pub struct WithFilter<STATE> {
    _private: PhantomData<STATE>,
}

pub type WiredOr<STATE> = OpenSource<STATE>;

pub type WiredAnd<MODE, STATE> = OpenDrain<MODE, STATE>;

/// Normal drive strength.
pub struct Normal;

/// Alternate drive strength (as set per port).
pub struct Alternate;

} // verus!
