//! The number of a device, with the table of numbers made on first use.

use crate::device_ids::DeviceIds;
use std::hash::Hash;
use vstd::prelude::*;
use vstd::std_specs::hash::obeys_key_model;

verus! {

/// The table that `state` holds, or an empty one if it holds none yet.
pub open spec fn table_of<K: Eq + Hash>(state: Option<DeviceIds<K>>) -> Map<K, u32> {
    match state {
        Some(ids) => ids@,
        None => Map::empty(),
    }
}

/// The number that the next new device gets.
pub open spec fn next_of<K: Eq + Hash>(state: Option<DeviceIds<K>>) -> u32 {
    match state {
        Some(ids) => ids.next_id(),
        None => 1,
    }
}

/// The number of a device. The table is made when the first device is looked up, and
/// stays in `state` from then on.
pub fn serialize_device_id<K: Eq + Hash>(state: &mut Option<DeviceIds<K>>, device_id: K) -> (r: u32)
    requires
        obeys_key_model::<K>(),
        *old(state) matches Some(ids) ==> ids.wf(),
        table_of(*old(state)).contains_key(device_id) || next_of(*old(state)) < u32::MAX,
    ensures
        *final(state) matches Some(ids) && ids.wf(),
        table_of(*old(state)).contains_key(device_id) ==> {
            &&& r == table_of(*old(state))[device_id]
            &&& table_of(*final(state)) == table_of(*old(state))
            &&& next_of(*final(state)) == next_of(*old(state))
        },
        !table_of(*old(state)).contains_key(device_id) ==> {
            &&& r == next_of(*old(state))
            &&& table_of(*final(state)) == table_of(*old(state)).insert(device_id, r)
            &&& next_of(*final(state)) == next_of(*old(state)) + 1
        },
{
    let mut ids = match state.take() {
        Some(ids) => ids,
        None => DeviceIds::new(),
    };
    let number = ids.get(device_id);
    *state = Some(ids);
    number
}

} // verus!
