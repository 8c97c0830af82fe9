//! The fence between publishing a trial and running it.

use core::sync::atomic::{compiler_fence, Ordering};
use vstd::prelude::*;

verus! {

/// Calls `core::sync::atomic::compiler_fence` with sequentially consistent
/// ordering, so that the compiler moves no write across this point and a
/// handler that interrupts the thread afterwards sees what was written before.
/// Nothing is claimed of the call: it returns nothing and changes no value.
#[verifier::external_body]
pub(crate) fn publish_fence() {
    compiler_fence(Ordering::SeqCst);
}

} // verus!
