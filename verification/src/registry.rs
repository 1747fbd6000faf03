//! The concurrent-readable device registry: a single-writer map from device
//! index to device record, whose writes become visible to readers only at an
//! explicit `refresh` publication point.
//!
//! The registry is held by an eventually consistent map of the `evmap`
//! crate. Its contents are described by two names: `staged`, the map as the
//! writer has built it, and `published`, the map as readers see it. Every
//! write moves `staged`; `refresh` copies `staged` into `published`.

use vstd::prelude::*;

use crate::messages::MessageAttributes;

verus! {

/// What the registry holds for one identified device: the snapshot the
/// device manager needs to answer `RequestDeviceList` and to address
/// commands. The index is the registry key and is not repeated here.
#[derive(Clone, Debug, PartialEq, Eq, Hash)]
pub struct DeviceRecord {
    pub device_name: String,
    pub device_messages: MessageAttributes,
}

/// The registry map as the writer has built it: every insert and every
/// eviction applied, whether or not readers can see them yet.
pub uninterp spec fn staged(r: DeviceRegistry) -> Map<u32, DeviceRecord>;

/// The registry map as readers see it: the staged map as of the last
/// `refresh` call.
pub uninterp spec fn published(r: DeviceRegistry) -> Map<u32, DeviceRecord>;

/// The device registry. One writer (the device-manager event loop) inserts
/// on identification and evicts on removal; command dispatch reads it.
#[verifier::external_body]
pub struct DeviceRegistry {
    reader: evmap::ReadHandle<u32, Box<DeviceRecord>>,
    writer: evmap::WriteHandle<u32, Box<DeviceRecord>>,
}

impl DeviceRegistry {
    /// Relies on `evmap::new`: both sides of a fresh eventually consistent
    /// map are empty, and reads before the first refresh see nothing.
    #[verifier::external_body]
    pub fn new() -> (r: DeviceRegistry)
        ensures
            staged(r) =~= Map::empty(),
            published(r) =~= Map::empty(),
    {
        let (reader, writer) = evmap::new();
        DeviceRegistry { reader, writer }
    }

    /// Relies on `evmap::WriteHandle::insert`: adds the value to the
    /// value-bag of the key, visible to readers only after the next
    /// `refresh`. The key must be absent from the staged map, so that each
    /// key keeps at most one value; the device manager never reuses an
    /// index, so it never inserts a key twice.
    #[verifier::external_body]
    pub fn insert(&mut self, device_index: u32, record: DeviceRecord)
        requires
            !staged(*old(self)).contains_key(device_index),
        ensures
            staged(*final(self)) == staged(*old(self)).insert(device_index, record),
            published(*final(self)) == published(*old(self)),
    {
        self.writer.insert(device_index, Box::new(record));
    }

    /// Relies on `evmap::WriteHandle::empty`: removes the value-bag of the
    /// key, visible to readers only after the next `refresh`.
    #[verifier::external_body]
    pub fn evict(&mut self, device_index: u32)
        ensures
            staged(*final(self)) == staged(*old(self)).remove(device_index),
            published(*final(self)) == published(*old(self)),
    {
        self.writer.empty(device_index);
    }

    /// Relies on `evmap::WriteHandle::refresh`: makes every pending write
    /// visible to readers.
    #[verifier::external_body]
    pub fn refresh(&mut self)
        ensures
            staged(*final(self)) == staged(*old(self)),
            published(*final(self)) == staged(*old(self)),
    {
        self.writer.refresh();
    }

    /// Relies on `evmap::ReadHandle::get_one`: returns a value of the key's
    /// value-bag as of the last refresh, or nothing when the key is absent
    /// or no refresh has happened. Each bag here holds at most one value.
    #[verifier::external_body]
    pub fn get_one(&self, device_index: u32) -> (r: Option<DeviceRecord>)
        ensures
            r == published(*self).get(device_index),
    {
        self.reader.get_one(&device_index).map(|guard| (**guard).clone())
    }

    /// Relies on `evmap::ReadHandle::read` and the read guard's iterator:
    /// hands out every key with the value of its bag as of the last refresh,
    /// each key once, in no promised order.
    #[verifier::external_body]
    pub fn snapshot(&self) -> (r: Vec<(u32, DeviceRecord)>)
        ensures
            (forall|i: int, j: int|
                0 <= i < j < r@.len() ==> #[trigger] r@[i].0 != #[trigger] r@[j].0),
            forall|i: int|
                0 <= i < r@.len() ==> published(*self).get(#[trigger] r@[i].0) == Some(
                    r@[i].1,
                ),
            forall|k: u32|
                published(*self).contains_key(k) ==> exists|i: int|
                    0 <= i < r@.len() && #[trigger] r@[i].0 == k,
    {
        let mut out = Vec::new();
        if let Some(guard) = self.reader.read() {
            for (k, values) in guard.iter() {
                if let Some(v) = values.get_one() {
                    out.push((*k, (**v).clone()));
                }
            }
        }
        out
    }
}

} // verus!
