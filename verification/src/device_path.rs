//! The device node of the action-injector `uinput` device.
use vstd::prelude::*;

verus! {

/// The `/dev/input/eventN` node to report for the action-injector device,
/// given the nodes the kernel lists for it (none when the device could not be
/// created): the first listed node, or `None` when there is none.
pub fn action_device_path(nodes: Vec<String>) -> (r: Option<String>)
    ensures
        nodes.len() == 0 ==> r is None,
        nodes.len() > 0 ==> (r matches Some(path) && path@ == nodes@[0]@),
{
    let mut nodes = nodes;
    if nodes.len() == 0 {
        None
    } else {
        Some(nodes.remove(0))
    }
}

} // verus!
