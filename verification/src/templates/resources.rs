//! The resource bounds of a template.
use vstd::prelude::*;

verus! {

/// One bound: processors and memory.
///
/// The processor share is a fraction. It is held as the 32 bits of its
/// IEEE 754 single-precision encoding, which keeps every share exactly.
#[derive(Clone, Copy, Debug, PartialEq, Eq, Structural)]
pub struct ResourcesInfo {
    pub cpu_bits: u32,
    pub ram: u32,
}

/// The least and the most that a server of a template may use.
#[derive(Clone, Copy, Debug, PartialEq, Eq, Structural)]
pub struct Resources {
    pub minimum: ResourcesInfo,
    pub maximum: ResourcesInfo,
}

} // verus!
