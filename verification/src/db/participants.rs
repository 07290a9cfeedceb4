//! Who took part in which session, and on what terms.

use vstd::prelude::*;

use crate::ids::{PseudoId, Timestamp, Uuid};
use crate::text::clone_text;

verus! {

#[derive(Debug, PartialEq, Eq)]
pub struct Participant {
    pub id: Uuid,
    pub session_id: Uuid,
    pub pseudo_id: PseudoId,
    pub consent_scope: Option<String>,
    pub data_wiped_at: Option<Timestamp>,
    /// The whole row as JSON. It is handed to clients and never read here.
    pub body: String,
}

impl Clone for Participant {
    fn clone(&self) -> (res: Self)
        ensures
            res == *self,
    {
        Participant {
            id: self.id,
            session_id: self.session_id,
            pseudo_id: self.pseudo_id.clone(),
            consent_scope: clone_text(&self.consent_scope),
            data_wiped_at: self.data_wiped_at,
            body: self.body.clone(),
        }
    }
}

/// A change of the terms under which a participant's recording may be used.
#[derive(Debug, PartialEq, Eq)]
pub struct UpdateConsent {
    pub consent_scope: String,
    pub consented_at: Option<Timestamp>,
}

/// A change of the licence flags. An absent flag is left as it is.
#[derive(Clone, Copy, Debug, PartialEq, Eq)]
pub struct UpdateLicense {
    pub no_llm_training: Option<bool>,
    pub no_public_release: Option<bool>,
}

/// The rows of the participation `id`.
pub open spec fn participant_row(id: Uuid) -> spec_fn(Participant) -> bool {
    |row: Participant| row.id == id
}

} // verus!
