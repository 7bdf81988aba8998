use vstd::prelude::*;

verus! {

/// One feed entry as the controller holds it in memory.
///
/// Storage is the system of record for the two mutable flags; the in-memory
/// copy is a cache for the current session, and every flag change the
/// controller makes is handed back to the caller as a [`FlagWrite`] so it
/// can be mirrored to storage.
pub struct Item {
    pub title: Option<String>,
    pub url: Option<String>,
    pub channel: String,
    pub description: Option<String>,
    pub published_at: Option<i64>,
    pub retrieved_at: i64,
    pub read: bool,
    pub starred: bool,
}

impl Item {
    /// Sort rank: the publication time, with a missing timestamp treated as
    /// 0, i.e. as the oldest possible entry.
    pub open spec fn sort_ts(self) -> int {
        match self.published_at {
            Some(ts) => ts as int,
            None => 0,
        }
    }

    /// The same item with its `read` flag replaced by `r`.
    pub open spec fn with_read(self, r: bool) -> Item {
        Item { read: r, ..self }
    }

    /// The sort rank as a machine integer.
    pub fn rank(&self) -> (r: i64)
        ensures
            r == self.sort_ts(),
    {
        match self.published_at {
            Some(ts) => ts,
            None => 0,
        }
    }
}

/// A flag change that the caller must write through to storage: set the
/// `read` flag of the item at `index` in the current item list to `read`.
#[derive(Clone, Copy, Debug, PartialEq, Eq, Structural)]
pub struct FlagWrite {
    pub index: usize,
    pub read: bool,
}

} // verus!
