//! Recorded sessions.

use vstd::prelude::*;

use crate::ids::{Timestamp, Uuid};
use crate::text::clone_text;

verus! {

#[derive(Debug, PartialEq, Eq)]
pub struct Session {
    pub id: Uuid,
    pub guild_id: i64,
    pub campaign_name: Option<String>,
    pub started_at: Timestamp,
    pub ended_at: Option<Timestamp>,
    pub status: String,
    /// The whole row as JSON. It is handed to clients and never read here.
    pub body: String,
}

impl Clone for Session {
    fn clone(&self) -> (res: Self)
        ensures
            res == *self,
    {
        Session {
            id: self.id,
            guild_id: self.guild_id,
            campaign_name: clone_text(&self.campaign_name),
            started_at: self.started_at,
            ended_at: self.ended_at,
            status: self.status.clone(),
            body: self.body.clone(),
        }
    }
}

/// The rows of the session `id`.
pub open spec fn session_row(id: Uuid) -> spec_fn(Session) -> bool {
    |row: Session| row.id == id
}

} // verus!
