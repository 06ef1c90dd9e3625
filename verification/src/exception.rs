//! The register frame that the exception vector saves and restores.
use vstd::prelude::*;

verus! {

/// The state of the interrupted code: the general registers, the stack
/// pointer, the return address, the saved program status, and for a
/// synchronous exception its syndrome and fault address.
#[derive(Clone, Copy)]
pub struct ExceptionFrame {
    pub x: [u64; 31],
    pub sp: u64,
    pub elr: u64,
    pub spsr: u64,
    pub esr: u64,
    pub far: u64,
}

} // verus!
