//! The cgroup filesystem layout in use, decided once at process start.

use vstd::prelude::*;

verus! {

/// The two incompatible cgroup filesystem layouts: v1 has one subtree per
/// resource controller, v2 one unified subtree.
#[derive(Clone, Copy, Debug, PartialEq, Eq, Structural)]
pub enum CGroupType {
    V1,
    V2,
}

} // verus!
