//! The records that a client of the to-do list sends.

use vstd::prelude::*;

verus! {

/// What creates an entry: its date and its title.
#[derive(Debug, PartialEq, Eq)]
pub struct CreateEntryData {
    pub date: i64,
    pub title: String,
}

/// What updates an entry: its new title.
#[derive(Debug, PartialEq, Eq)]
pub struct UpdateEntryData {
    pub title: String,
}

impl Clone for CreateEntryData {
    fn clone(&self) -> (copy: Self)
        ensures
            copy.date == self.date,
            copy.title@ == self.title@,
    {
        CreateEntryData { date: self.date, title: self.title.clone() }
    }
}

impl Clone for UpdateEntryData {
    fn clone(&self) -> (copy: Self)
        ensures
            copy.title@ == self.title@,
    {
        UpdateEntryData { title: self.title.clone() }
    }
}

} // verus!
