//! The values the script deserializer hands out by number: a script function or a
//! reactive value travels through serde as a payload holding its number, and the
//! configuration type that reads the payload takes the value back, once.
use std::collections::HashMap;
use vstd::prelude::*;

verus! {

/// Values waiting to be taken back, by number.
pub struct Registry<T> {
    map: HashMap<u64, T>,
}

impl<T> View for Registry<T> {
    type V = Map<u64, T>;

    closed spec fn view(&self) -> Map<u64, T> {
        self.map@
    }
}

impl<T> Registry<T> {
    /// A registry with nothing waiting.
    pub fn new() -> (r: Self)
        ensures
            r@ == Map::<u64, T>::empty(),
    {
        Registry { map: HashMap::new() }
    }

    /// Keeps `value` under `id`, in place of any value kept under it before.
    pub fn insert(&mut self, id: u64, value: T)
        ensures
            final(self)@ == old(self)@.insert(id, value),
    {
        self.map.insert(id, value);
    }

    /// Takes back the value kept under `id`, if there is one; it is no longer kept.
    pub fn take(&mut self, id: u64) -> (r: Option<T>)
        ensures
            final(self)@ == old(self)@.remove(id),
            match r {
                Some(v) => old(self)@.contains_key(id) && v == old(self)@[id],
                None => !old(self)@.contains_key(id),
            },
    {
        self.map.remove(&id)
    }
}

/// A value kept under a number is taken back as it was kept, and only once: after it is
/// taken, nothing is kept under that number.
pub proof fn law_taken_back_once<T>(kept: Map<u64, T>, id: u64, value: T)
    ensures
        kept.insert(id, value).contains_key(id),
        kept.insert(id, value)[id] == value,
        !kept.insert(id, value).remove(id).contains_key(id),
{
}

} // verus!
