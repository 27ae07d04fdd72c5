//! Small stable numbers for the native library's opaque device identifiers.

use std::collections::HashMap;
use std::hash::Hash;
use vstd::prelude::*;
use vstd::std_specs::hash::obeys_key_model;

verus! {

broadcast use vstd::std_specs::hash::group_hash_axioms;

/// Hands out the numbers 1, 2, 3, ... to device identifiers in the order in which
/// they are first seen, and remembers which identifier got which number.
///
/// `K` is the native identifier. All that is asked of it is that equal identifiers
/// hash alike, which `obeys_key_model` states.
pub struct DeviceIds<K> {
    map: HashMap<K, u32>,
    next: u32,
}

impl<K: Eq + Hash> View for DeviceIds<K> {
    type V = Map<K, u32>;

    closed spec fn view(&self) -> Map<K, u32> {
        self.map@
    }
}

impl<K: Eq + Hash> DeviceIds<K> {
    /// The number that the next new identifier gets.
    pub closed spec fn next_id(&self) -> u32 {
        self.next
    }

    /// The numbers handed out so far are 1 up to the next one, each to one identifier.
    pub open spec fn wf(&self) -> bool {
        &&& self.next_id() >= 1
        &&& forall|k: K| #[trigger] self@.contains_key(k) ==> 1 <= self@[k] < self.next_id()
        &&& forall|k1: K, k2: K|
            self@.contains_key(k1) && self@.contains_key(k2) && self@[k1] == self@[k2] ==> k1
                == k2
    }

    /// No identifier has been seen yet.
    pub fn new() -> (r: Self)
        ensures
            r@ == Map::<K, u32>::empty(),
            r.next_id() == 1,
            r.wf(),
    {
        DeviceIds { map: HashMap::new(), next: 1 }
    }

    /// Whether no number is left for a new device.
    pub open spec fn is_full(&self) -> bool {
        self.next_id() == u32::MAX
    }

    /// The number of a device, or `None`, with nothing changed, if the device is new
    /// and no number is left for it.
    pub fn try_get(&mut self, device_id: K) -> (r: Option<u32>)
        requires
            obeys_key_model::<K>(),
            old(self).wf(),
        ensures
            final(self).wf(),
            old(self)@.contains_key(device_id) ==> {
                &&& r == Some(old(self)@[device_id])
                &&& final(self)@ == old(self)@
                &&& final(self).next_id() == old(self).next_id()
            },
            !old(self)@.contains_key(device_id) && old(self).is_full() ==> {
                &&& r is None
                &&& final(self)@ == old(self)@
                &&& final(self).next_id() == old(self).next_id()
            },
            !old(self)@.contains_key(device_id) && !old(self).is_full() ==> {
                &&& r == Some(old(self).next_id())
                &&& final(self)@ == old(self)@.insert(device_id, old(self).next_id())
                &&& final(self).next_id() == old(self).next_id() + 1
            },
    {
        if self.next == u32::MAX && !self.map.contains_key(&device_id) {
            None
        } else {
            Some(self.get(device_id))
        }
    }

    /// The number of a device: the one it was given before, or the next free one if
    /// the device is new.
    pub fn get(&mut self, device_id: K) -> (r: u32)
        requires
            obeys_key_model::<K>(),
            old(self).wf(),
            old(self)@.contains_key(device_id) || old(self).next_id() < u32::MAX,
        ensures
            final(self).wf(),
            old(self)@.contains_key(device_id) ==> {
                &&& r == old(self)@[device_id]
                &&& final(self)@ == old(self)@
                &&& final(self).next_id() == old(self).next_id()
            },
            !old(self)@.contains_key(device_id) ==> {
                &&& r == old(self).next_id()
                &&& final(self)@ == old(self)@.insert(device_id, r)
                &&& final(self).next_id() == old(self).next_id() + 1
            },
    {
        let known = match self.map.get(&device_id) {
            Some(u) => Some(*u),
            None => None,
        };
        match known {
            Some(u) => u,
            None => {
                let u = self.next;
                self.next += 1;
                self.map.insert(device_id, u);
                u
            },
        }
    }
}

/// A device keeps its number, and two devices never share one.
pub proof fn law_device_numbers_are_stable_and_distinct<K: Eq + Hash>(
    before: DeviceIds<K>,
    after: DeviceIds<K>,
    device_id: K,
    number: u32,
)
    requires
        before.wf(),
        !before@.contains_key(device_id),
        number == before.next_id(),
        after@ == before@.insert(device_id, number),
    ensures
        forall|k: K| before@.contains_key(k) ==> after@.contains_key(k) && after@[k] == before@[k],
        forall|k: K| before@.contains_key(k) ==> before@[k] != number,
{
}

} // verus!
