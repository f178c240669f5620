//! Bridge between a memory-safe extension and an embedding script host.
//!
//! The host engine defines fixed-layout records (SAPI module descriptors,
//! configuration builders) that an extension populates before handing control
//! back to the host, plus primitives for raising exceptions and observing
//! diagnostic events.  This crate models that boundary with plain values: the
//! builders produce fully-populated record values, the exception bridge turns
//! an exception descriptor into the host call it asks for, and the observer
//! registry plans listener dispatch.  An embedder performs the resulting host
//! calls; everything up to that point is verified.

use vstd::prelude::*;

pub mod allocator;
pub mod exception;
pub mod ini;
pub mod observer;
pub mod php_config;
pub mod sapi;

verus! {

/// Failure values surfaced by the bridge.
///
/// Every recoverable condition is returned to the immediate caller; only
/// allocator exhaustion is fatal by host convention, and the model arena
/// never exhausts, so `AllocationFailure` is reported rather than raised.
#[derive(Clone, Copy, Debug, PartialEq, Eq, Structural)]
pub enum Error {
    /// The host allocator returned no memory.
    AllocationFailure,
    /// An exception throw targeted an interface or abstract class; the flags
    /// of the rejected class are carried along.
    InvalidExceptionTarget { flags: u32 },
    /// A byte sequence with an embedded terminator cannot form a host string.
    StringConversionFailure,
    /// A finished record would violate a cross-field constraint.
    BuilderConstraintViolation,
}

/// Whether a byte sequence holds an embedded terminator, which no host
/// string may contain.
pub open spec fn has_nul(s: Seq<u8>) -> bool {
    exists|i: int| 0 <= i < s.len() && s[i] == 0u8
}

/// Decides whether `bytes` holds an embedded terminator.
pub fn contains_nul(bytes: &[u8]) -> (r: bool)
    ensures
        r == has_nul(bytes@),
{
    let mut i: usize = 0;
    while i < bytes.len()
        invariant
            0 <= i <= bytes@.len(),
            forall|j: int| 0 <= j < i ==> bytes@[j] != 0u8,
        decreases bytes@.len() - i,
    {
        if bytes[i] == 0u8 {
            return true;
        }
        i += 1;
    }
    false
}

} // verus!
