use vstd::prelude::*;

verus! {

/// Error returned when a connection to the display server cannot be opened.
///
/// No palette can ever be produced without a display connection, so this is
/// the one condition that escalates to the caller rather than being resolved
/// into an absent result.
#[derive(Copy, Clone, Debug)]
pub struct XDisplayError;

} // verus!
