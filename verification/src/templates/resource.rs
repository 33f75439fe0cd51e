//! Resource bounds in whole processors.
use vstd::prelude::*;

verus! {

/// One bound: processors and memory.
#[derive(Clone, Copy, Debug, PartialEq, Eq, Structural)]
pub struct ResourceInfo {
    pub cpu: u8,
    pub ram: u32,
}

/// The least and the most that a server of a template may use.
#[derive(Clone, Copy, Debug, PartialEq, Eq, Structural)]
pub struct Resource {
    pub minimum: ResourceInfo,
    pub maximum: ResourceInfo,
}

} // verus!
