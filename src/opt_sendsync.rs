use vstd::prelude::*;

verus! {

/// Declares, for a concrete type, whether its values may be handed to another
/// thread.
///
/// Each error type states this once; erasing a value records the answer, and
/// later re-tagging is decided by that record alone.
pub trait OptSend {
    const IMPL_SEND: bool;
}

/// Declares, for a concrete type, whether its values may be observed from
/// several threads at once.
pub trait OptSync {
    const IMPL_SYNC: bool;
}

impl OptSend for String {
    const IMPL_SEND: bool = true;
}

impl OptSync for String {
    const IMPL_SYNC: bool = true;
}

impl OptSend for str {
    const IMPL_SEND: bool = true;
}

impl OptSync for str {
    const IMPL_SYNC: bool = true;
}

} // verus!
