//! Where the notification reader remembers how far it has read.

use vstd::prelude::*;

verus! {

/// A store of the index up to which notifications have been processed.
pub trait IndexStore: Sized {
    /// The index stored, if any.
    spec fn stored(&self) -> Option<i64>;

    /// The index stored, if any; a failing store gives its error.
    fn get(&self) -> (r: Result<Option<i64>, String>)
        ensures
            r matches Ok(v) ==> v == self.stored(),
    ;

    /// Stores the index; a failing store gives its error and keeps what it had.
    fn set(&mut self, index: i64) -> (r: Result<(), String>)
        ensures
            r is Ok ==> final(self).stored() == Some(index),
            r is Err ==> final(self).stored() == old(self).stored(),
    ;
}

/// A store that keeps the index in memory.
#[derive(Debug, Clone)]
pub struct DummyStore {
    indexes_processed_up_to: Option<i64>,
}

impl DummyStore {
    /// A store that starts with the given index.
    pub fn new(notification_index: Option<i64>) -> (s: DummyStore)
        ensures
            s.stored() == notification_index,
    {
        DummyStore { indexes_processed_up_to: notification_index }
    }
}

impl Default for DummyStore {
    fn default() -> (s: DummyStore)
        ensures
            s.stored() is None,
    {
        DummyStore { indexes_processed_up_to: None }
    }
}

impl IndexStore for DummyStore {
    closed spec fn stored(&self) -> Option<i64> {
        self.indexes_processed_up_to
    }

    fn get(&self) -> (r: Result<Option<i64>, String>)
        ensures
            r == Ok::<Option<i64>, String>(self.stored()),
    {
        Ok(self.indexes_processed_up_to)
    }

    fn set(&mut self, index: i64) -> (r: Result<(), String>)
        ensures
            r is Ok,
    {
        self.indexes_processed_up_to = Some(index);
        Ok(())
    }
}

} // verus!
