//! The scheduler collaborator's reason-for-firing value.

use vstd::prelude::*;

verus! {

/// Why a scheduled backup fired. Produced by the external scheduler; the
/// runtime treats it as inert payload and forwards it unexamined.
#[derive(Clone, Copy, Debug, PartialEq, Eq, Structural)]
pub enum DueCause {
    /// The run was due on its regular schedule.
    Regular,
    /// The run makes up for one that could not happen on time.
    Retry,
}

} // verus!
