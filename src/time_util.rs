//! Time helpers.
use vstd::prelude::*;

verus! {

/// A frequency in Hertz.
#[derive(Clone, Copy)]
pub struct Hertz(pub u32);

} // verus!
