//! Which screen the user is on.

use vstd::prelude::*;

verus! {

#[derive(Clone, Copy, PartialEq, Eq, Structural, Debug)]
pub enum Screen {
    /// Where the activity's name, tag and color are set.
    Start,
    /// Where a running session is timed.
    Tracking,
}

} // verus!
