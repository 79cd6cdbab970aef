//! Choosing among what a physical device offers.

use vstd::prelude::*;

verus! {

/// What one queue family of a device can do.
#[derive(Clone, Copy, Debug, PartialEq, Eq, Structural)]
pub struct QueueFamily {
    /// Whether the family takes graphics work.
    pub graphics: bool,
    /// Whether the family can present to the window's surface.
    pub presents: bool,
}

/// Whether work can be sent to `family` under the demand `need_present`.
pub open spec fn suits(family: QueueFamily, need_present: bool) -> bool {
    family.graphics && (need_present ==> family.presents)
}

/// The first queue family that takes graphics work and, if `need_present`
/// is set, can also present to the surface; none if no family does.
pub fn pick_queue_family(families: &Vec<QueueFamily>, need_present: bool) -> (picked: Option<usize>)
    ensures
        match picked {
            Some(i) => {
                &&& i < families.len()
                &&& suits(families[i as int], need_present)
                &&& forall|j: int| 0 <= j < i ==> !suits(#[trigger] families[j], need_present)
            },
            None => forall|j: int|
                0 <= j < families.len() ==> !suits(#[trigger] families[j], need_present),
        },
{
    let mut i: usize = 0;
    while i < families.len()
        invariant
            i <= families.len(),
            forall|j: int| 0 <= j < i ==> !suits(#[trigger] families[j], need_present),
        decreases families.len() - i,
    {
        let family = families[i];
        if family.graphics && (!need_present || family.presents) {
            return Some(i);
        }
        i += 1;
    }
    None
}

} // verus!
