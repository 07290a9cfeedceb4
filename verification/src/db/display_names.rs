//! The names under which a person was seen.

use vstd::prelude::*;

use crate::ids::{PseudoId, Timestamp};

verus! {

#[derive(Debug, PartialEq, Eq)]
pub struct DisplayName {
    pub pseudo_id: PseudoId,
    pub display_name: String,
    pub source: String,
    pub seen_count: i64,
    pub last_seen_at: Timestamp,
    /// The whole row as JSON. It is handed to clients and never read here.
    pub body: String,
}

impl Clone for DisplayName {
    fn clone(&self) -> (res: Self)
        ensures
            res == *self,
    {
        DisplayName {
            pseudo_id: self.pseudo_id.clone(),
            display_name: self.display_name.clone(),
            source: self.source.clone(),
            seen_count: self.seen_count,
            last_seen_at: self.last_seen_at,
            body: self.body.clone(),
        }
    }
}

/// A report that a name was seen, as the JSON in which it came. It is passed on
/// to the table and never read here.
#[derive(Debug, PartialEq, Eq)]
pub struct UpsertDisplayName {
    pub body: String,
}

impl Clone for UpsertDisplayName {
    fn clone(&self) -> (res: Self)
        ensures
            res == *self,
    {
        UpsertDisplayName { body: self.body.clone() }
    }
}

} // verus!
