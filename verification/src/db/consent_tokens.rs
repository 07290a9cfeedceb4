//! Consent tokens: whoever holds one may manage one participant's consent.

use vstd::prelude::*;

use crate::db::participants::Participant;
use crate::db::select;
use crate::db::sessions::Session;
use crate::error::AppError;
use crate::ids::{PseudoId, Timestamp, Uuid};

verus! {

#[derive(Debug, PartialEq, Eq)]
pub struct ConsentToken {
    pub token: Uuid,
    pub session_id: Uuid,
    pub participant_id: Uuid,
    pub pseudo_id: PseudoId,
    pub created_at: Timestamp,
    pub expires_at: Timestamp,
    pub revoked_at: Option<Timestamp>,
}

impl Clone for ConsentToken {
    fn clone(&self) -> (res: Self)
        ensures
            res == *self,
    {
        ConsentToken {
            token: self.token,
            session_id: self.session_id,
            participant_id: self.participant_id,
            pseudo_id: self.pseudo_id.clone(),
            created_at: self.created_at,
            expires_at: self.expires_at,
            revoked_at: self.revoked_at,
        }
    }
}

/// A token joined with its session and participant rows.
#[derive(Debug, PartialEq, Eq)]
pub struct ConsentTokenWithContext {
    pub token: ConsentToken,
    pub session: Session,
    pub participant: Participant,
}

/// The columns that the table itself fills in when a token is inserted.
#[derive(Clone, Copy, Debug, PartialEq, Eq)]
pub struct Issued {
    pub token: Uuid,
    pub created_at: Timestamp,
    pub expires_at: Timestamp,
    pub revoked_at: Option<Timestamp>,
}

/// The rows of `token` that are neither revoked nor, at `now`, expired.
pub open spec fn live(token: Uuid, now: Timestamp) -> spec_fn(ConsentToken) -> bool {
    |row: ConsentToken|
        row.token == token && row.revoked_at is None && row.expires_at.micros > now.micros
}

/// What validating `token` at `now` gives: nothing without a live row, and else
/// the row with its session and its participant, both of which must be there.
pub open spec fn validated(
    tokens: Seq<ConsentToken>,
    sessions: Seq<Session>,
    participants: Seq<Participant>,
    token: Uuid,
    now: Timestamp,
) -> Result<Option<ConsentTokenWithContext>, AppError> {
    match select::first_where(tokens, live(token, now)) {
        None => Ok(None),
        Some(row) => match (
            select::first_where(sessions, crate::db::sessions::session_row(row.session_id)),
            select::first_where(participants, crate::db::participants::participant_row(row.participant_id)),
        ) {
            (Some(session), Some(participant)) => Ok(
                Some(ConsentTokenWithContext { token: row, session, participant }),
            ),
            _ => Err(AppError::RowNotFound),
        },
    }
}

/// The row that an insertion makes of its arguments and the table's columns.
pub open spec fn issued_row(
    session_id: Uuid,
    participant_id: Uuid,
    pseudo_id: PseudoId,
    issued: Issued,
) -> ConsentToken {
    ConsentToken {
        token: issued.token,
        session_id,
        participant_id,
        pseudo_id,
        created_at: issued.created_at,
        expires_at: issued.expires_at,
        revoked_at: issued.revoked_at,
    }
}

/// The table after `token` was revoked at `now`.
pub open spec fn revoked(tokens: Seq<ConsentToken>, token: Uuid, now: Timestamp) -> Seq<
    ConsentToken,
> {
    tokens.map_values(
        |row: ConsentToken|
            if row.token == token {
                ConsentToken { revoked_at: Some(now), ..row }
            } else {
                row
            },
    )
}

/// Inserts a token for a participant of a session and returns its row.
pub fn create(
    tokens: &mut Vec<ConsentToken>,
    session_id: Uuid,
    participant_id: Uuid,
    pseudo_id: &PseudoId,
    issued: Issued,
) -> (res: ConsentToken)
    ensures
        res == issued_row(session_id, participant_id, *pseudo_id, issued),
        final(tokens)@ == old(tokens)@.push(res),
        res.token == issued.token,
        res.session_id == session_id,
        res.participant_id == participant_id,
        res.pseudo_id == *pseudo_id,
        res.created_at == issued.created_at,
        res.expires_at == issued.expires_at,
        res.revoked_at == issued.revoked_at,
{
    let row = ConsentToken {
        token: issued.token,
        session_id,
        participant_id,
        pseudo_id: pseudo_id.clone(),
        created_at: issued.created_at,
        expires_at: issued.expires_at,
        revoked_at: issued.revoked_at,
    };
    tokens.push(row.clone());
    row
}

/// The row of `token`, if it is neither revoked nor, at `now`, expired.
pub fn find_live(tokens: &Vec<ConsentToken>, token: Uuid, now: Timestamp) -> (res: Option<
    &ConsentToken,
>)
    ensures
        match res {
            Some(row) => select::first_where(tokens@, live(token, now)) == Some(*row),
            None => select::first_where(tokens@, live(token, now)) is None,
        },
        res matches Some(row) ==> tokens@.contains(*row) && row.token == token && row.revoked_at
            is None && row.expires_at.micros > now.micros,
        res is None ==> forall|i: int|
            0 <= i < tokens@.len() && (#[trigger] tokens@[i]).token == token ==> tokens@[i].revoked_at
                is Some || tokens@[i].expires_at.micros <= now.micros,
{
    proof {
        select::lemma_first_where(tokens@, live(token, now));
        assert(select::first_where(tokens@, live(token, now)) is None ==> forall|i: int|
            0 <= i < tokens@.len() ==> !live(token, now)(#[trigger] tokens@[i]));
    }
    let is_live = |row: &ConsentToken| -> (b: bool)
        ensures
            b == live(token, now)(*row),
    {
        row.token == token && row.revoked_at.is_none() && row.expires_at.micros > now.micros
    };
    select::find(tokens, is_live, Ghost(live(token, now)))
}

/// Validates a token: gives it with its session and participant, only if it
/// exists, is not expired and is not revoked.
pub fn validate(
    tokens: &Vec<ConsentToken>,
    sessions: &Vec<Session>,
    participants: &Vec<Participant>,
    token: Uuid,
    now: Timestamp,
) -> (res: Result<Option<ConsentTokenWithContext>, AppError>)
    ensures
        res == validated(tokens@, sessions@, participants@, token, now),
{
    let row = match find_live(tokens, token, now) {
        Some(row) => row,
        None => return Ok(None),
    };
    let session_id = row.session_id;
    let is_session = |s: &Session| -> (b: bool)
        ensures
            b == crate::db::sessions::session_row(session_id)(*s),
    {
        s.id == session_id
    };
    let session = match select::find(sessions, is_session, Ghost(crate::db::sessions::session_row(session_id))) {
        Some(session) => session,
        None => return Err(AppError::RowNotFound),
    };
    let participant_id = row.participant_id;
    let is_participant = |p: &Participant| -> (b: bool)
        ensures
            b == crate::db::participants::participant_row(participant_id)(*p),
    {
        p.id == participant_id
    };
    match select::find(participants, is_participant, Ghost(crate::db::participants::participant_row(participant_id))) {
        Some(participant) => Ok(
            Some(
                ConsentTokenWithContext {
                    token: row.clone(),
                    session: session.clone(),
                    participant: participant.clone(),
                },
            ),
        ),
        None => Err(AppError::RowNotFound),
    }
}

/// Revokes a token.
pub fn revoke(tokens: &mut Vec<ConsentToken>, token: Uuid, now: Timestamp)
    ensures
        final(tokens)@ == revoked(old(tokens)@, token, now),
        final(tokens)@.len() == old(tokens)@.len(),
        forall|i: int|
            0 <= i < old(tokens)@.len() ==> #[trigger] final(tokens)@[i] == (ConsentToken {
                revoked_at: if old(tokens)@[i].token == token {
                    Some(now)
                } else {
                    old(tokens)@[i].revoked_at
                },
                ..old(tokens)@[i]
            }),
{
    let ghost before = tokens@;
    let mut i: usize = 0;
    while i < tokens.len()
        invariant
            i <= tokens@.len(),
            tokens@.len() == before.len(),
            forall|j: int| 0 <= j < i ==> tokens@[j] == revoked(before, token, now)[j],
            forall|j: int| i <= j < tokens@.len() ==> tokens@[j] == before[j],
        decreases tokens@.len() - i,
    {
        if tokens[i].token == token {
            let mut row = tokens[i].clone();
            row.revoked_at = Some(now);
            tokens.set(i, row);
        }
        i = i + 1;
    }
    assert(tokens@ =~= revoked(before, token, now));
}

/// A token that was just created, for a session and a participant that are there,
/// is valid until it expires: its validation gives the row that was created.
pub proof fn law_created_token_is_valid(
    tokens: Seq<ConsentToken>,
    sessions: Seq<Session>,
    participants: Seq<Participant>,
    session: Session,
    participant: Participant,
    issued: Issued,
    pseudo_id: PseudoId,
    now: Timestamp,
)
    requires
        forall|i: int| 0 <= i < tokens.len() ==> (#[trigger] tokens[i]).token != issued.token,
        issued.revoked_at is None,
        issued.expires_at.micros > now.micros,
        sessions.contains(session),
        participants.contains(participant),
    ensures
        ({
            let row = issued_row(session.id, participant.id, pseudo_id, issued);
            validated(tokens.push(row), sessions, participants, issued.token, now) matches Ok(
                Some(context),
            ) && context.token == row && context.session.id == session.id
                && context.participant.id == participant.id
        }),
{
    let row = issued_row(session.id, participant.id, pseudo_id, issued);
    let table = tokens.push(row);
    let p = live(issued.token, now);
    select::lemma_first_where_skip(table, p, tokens.len() as int);
    assert(table.skip(tokens.len() as int) =~= seq![row]);
    select::lemma_first_where(sessions, crate::db::sessions::session_row(session.id));
    select::lemma_first_where(participants, crate::db::participants::participant_row(participant.id));
    let i = choose|i: int| 0 <= i < sessions.len() && sessions[i] == session;
    assert(crate::db::sessions::session_row(session.id)(sessions[i]));
    let k = choose|k: int| 0 <= k < participants.len() && participants[k] == participant;
    assert(crate::db::participants::participant_row(participant.id)(participants[k]));
}

/// A validation gives something only of a row that carries the token, is not
/// revoked, and expires later than now.
pub proof fn law_valid_means_known_unrevoked_unexpired(
    tokens: Seq<ConsentToken>,
    sessions: Seq<Session>,
    participants: Seq<Participant>,
    token: Uuid,
    now: Timestamp,
)
    ensures
        validated(tokens, sessions, participants, token, now) matches Ok(Some(context)) ==> {
            &&& tokens.contains(context.token)
            &&& context.token.token == token
            &&& context.token.revoked_at is None
            &&& context.token.expires_at.micros > now.micros
            &&& sessions.contains(context.session)
            &&& context.session.id == context.token.session_id
            &&& participants.contains(context.participant)
            &&& context.participant.id == context.token.participant_id
        },
{
    select::lemma_first_where(tokens, live(token, now));
    if let Some(row) = select::first_where(tokens, live(token, now)) {
        select::lemma_first_where(sessions, crate::db::sessions::session_row(row.session_id));
        select::lemma_first_where(participants, crate::db::participants::participant_row(row.participant_id));
    }
}

/// Once revoked, a token is valid at no time.
pub proof fn law_revoked_token_is_never_valid(
    tokens: Seq<ConsentToken>,
    sessions: Seq<Session>,
    participants: Seq<Participant>,
    token: Uuid,
    at: Timestamp,
    now: Timestamp,
)
    ensures
        validated(revoked(tokens, token, at), sessions, participants, token, now) == Ok::<
            Option<ConsentTokenWithContext>,
            AppError,
        >(None),
{
    select::lemma_first_where(revoked(tokens, token, at), live(token, now));
}

/// Revoking one token changes nothing for another.
pub proof fn law_revoking_leaves_other_tokens(
    tokens: Seq<ConsentToken>,
    sessions: Seq<Session>,
    participants: Seq<Participant>,
    token: Uuid,
    other: Uuid,
    at: Timestamp,
    now: Timestamp,
)
    requires
        other != token,
    ensures
        validated(revoked(tokens, token, at), sessions, participants, other, now) == validated(
            tokens,
            sessions,
            participants,
            other,
            now,
        ),
{
    lemma_revoking_keeps_first(tokens, token, other, at, now);
}

proof fn lemma_revoking_keeps_first(
    tokens: Seq<ConsentToken>,
    token: Uuid,
    other: Uuid,
    at: Timestamp,
    now: Timestamp,
)
    requires
        other != token,
    ensures
        select::first_where(revoked(tokens, token, at), live(other, now)) == select::first_where(
            tokens,
            live(other, now),
        ),
    decreases tokens.len(),
{
    if tokens.len() > 0 {
        lemma_revoking_keeps_first(tokens.drop_first(), token, other, at, now);
        assert(revoked(tokens, token, at).drop_first() =~= revoked(tokens.drop_first(), token, at));
    }
}

/// A token that is not valid stays so as time goes by.
pub proof fn law_validity_does_not_return(
    tokens: Seq<ConsentToken>,
    sessions: Seq<Session>,
    participants: Seq<Participant>,
    token: Uuid,
    now: Timestamp,
    later: Timestamp,
)
    requires
        now.micros <= later.micros,
        validated(tokens, sessions, participants, token, now) == Ok::<
            Option<ConsentTokenWithContext>,
            AppError,
        >(None),
    ensures
        validated(tokens, sessions, participants, token, later) == Ok::<
            Option<ConsentTokenWithContext>,
            AppError,
        >(None),
{
    select::lemma_first_where(tokens, live(token, now));
    select::lemma_first_where(tokens, live(token, later));
    assert forall|i: int| 0 <= i < tokens.len() implies !live(token, later)(
        #[trigger] tokens[i],
    ) by {
        assert(!live(token, now)(tokens[i]));
    }
}


/// A validation finds nothing if and only if every row of the token is revoked
/// or expired.
pub proof fn law_missing_means_revoked_or_expired(
    tokens: Seq<ConsentToken>,
    sessions: Seq<Session>,
    participants: Seq<Participant>,
    token: Uuid,
    now: Timestamp,
)
    ensures
        validated(tokens, sessions, participants, token, now) matches Ok(None) <==> (forall|i: int|
            0 <= i < tokens.len() && (#[trigger] tokens[i]).token == token
                ==> tokens[i].revoked_at is Some || tokens[i].expires_at.micros <= now.micros),
{
    select::lemma_first_where(tokens, live(token, now));
    if select::first_where(tokens, live(token, now)) is None {
        assert forall|i: int|
            0 <= i < tokens.len() && (#[trigger] tokens[i]).token == token implies
            tokens[i].revoked_at is Some || tokens[i].expires_at.micros <= now.micros by {
            assert(!live(token, now)(tokens[i]));
        }
    } else {
        let i = select::lemma_first_where_place(tokens, live(token, now));
        assert(tokens[i].token == token);
    }
}

/// Wherever in the table it stands, a token that is neither revoked nor expired
/// is valid, and is given with the rows of its own session and participant.
pub proof fn law_live_token_is_valid(
    tokens: Seq<ConsentToken>,
    sessions: Seq<Session>,
    participants: Seq<Participant>,
    now: Timestamp,
    i: int,
    s: int,
    p: int,
)
    requires
        0 <= i < tokens.len(),
        tokens[i].revoked_at is None,
        tokens[i].expires_at.micros > now.micros,
        forall|j: int|
            0 <= j < tokens.len() && j != i ==> (#[trigger] tokens[j]).token != tokens[i].token,
        0 <= s < sessions.len(),
        sessions[s].id == tokens[i].session_id,
        0 <= p < participants.len(),
        participants[p].id == tokens[i].participant_id,
    ensures
        validated(tokens, sessions, participants, tokens[i].token, now) matches Ok(Some(context))
            && {
            &&& context.token == tokens[i]
            &&& sessions.contains(context.session)
            &&& context.session.id == tokens[i].session_id
            &&& participants.contains(context.participant)
            &&& context.participant.id == tokens[i].participant_id
            &&& (forall|j: int|
                0 <= j < sessions.len() && j != s ==> (#[trigger] sessions[j]).id != sessions[s].id)
                ==> context.session == sessions[s]
            &&& (forall|j: int|
                0 <= j < participants.len() && j != p ==> (#[trigger] participants[j]).id
                    != participants[p].id) ==> context.participant == participants[p]
        },
{
    let row = tokens[i];
    let is_session = crate::db::sessions::session_row(row.session_id);
    let is_participant = crate::db::participants::participant_row(row.participant_id);
    select::law_first_where_is_first(tokens, live(row.token, now), i);
    select::lemma_first_where(sessions, is_session);
    select::lemma_first_where(participants, is_participant);
    assert(is_session(sessions[s]));
    assert(is_participant(participants[p]));
    let a = select::lemma_first_where_place(sessions, is_session);
    let b = select::lemma_first_where_place(participants, is_participant);
    assert(sessions[a].id == sessions[s].id);
    assert(participants[b].id == participants[p].id);
}

/// A token that is neither revoked nor expired, but whose session or participant
/// is not there, is answered with the missing row, and no other token is.
pub proof fn law_missing_row_is_an_error(
    tokens: Seq<ConsentToken>,
    sessions: Seq<Session>,
    participants: Seq<Participant>,
    now: Timestamp,
    i: int,
)
    requires
        0 <= i < tokens.len(),
        forall|j: int|
            0 <= j < tokens.len() && j != i ==> (#[trigger] tokens[j]).token != tokens[i].token,
    ensures
        validated(tokens, sessions, participants, tokens[i].token, now) is Err <==> {
            &&& tokens[i].revoked_at is None
            &&& tokens[i].expires_at.micros > now.micros
            &&& (forall|j: int|
                0 <= j < sessions.len() ==> (#[trigger] sessions[j]).id != tokens[i].session_id) || (
            forall|j: int|
                0 <= j < participants.len() ==> (#[trigger] participants[j]).id
                    != tokens[i].participant_id)
        },
        validated(tokens, sessions, participants, tokens[i].token, now) matches Err(error) ==> error
            == AppError::RowNotFound,
{
    let row = tokens[i];
    let is_session = crate::db::sessions::session_row(row.session_id);
    let is_participant = crate::db::participants::participant_row(row.participant_id);
    select::lemma_first_where(sessions, is_session);
    select::lemma_first_where(participants, is_participant);
    if row.revoked_at is None && row.expires_at.micros > now.micros {
        select::law_first_where_is_first(tokens, live(row.token, now), i);
        if select::first_where(sessions, is_session) is Some {
            let a = select::lemma_first_where_place(sessions, is_session);
            assert(sessions[a].id == row.session_id);
        } else {
            assert forall|j: int| 0 <= j < sessions.len() implies (#[trigger] sessions[j]).id
                != row.session_id by {
                assert(!is_session(sessions[j]));
            }
        }
        if select::first_where(participants, is_participant) is Some {
            let b = select::lemma_first_where_place(participants, is_participant);
            assert(participants[b].id == row.participant_id);
        } else {
            assert forall|j: int| 0 <= j < participants.len() implies (
            #[trigger] participants[j]).id != row.participant_id by {
                assert(!is_participant(participants[j]));
            }
        }
    } else {
        law_missing_means_revoked_or_expired(tokens, sessions, participants, row.token, now);
    }
}

/// A row of another token, wherever it is put, changes nothing for a token.
pub proof fn law_other_tokens_do_not_matter(
    tokens: Seq<ConsentToken>,
    sessions: Seq<Session>,
    participants: Seq<Participant>,
    token: Uuid,
    now: Timestamp,
    row: ConsentToken,
    at: int,
)
    requires
        0 <= at <= tokens.len(),
        row.token != token,
    ensures
        validated(tokens.insert(at, row), sessions, participants, token, now) == validated(
            tokens,
            sessions,
            participants,
            token,
            now,
        ),
{
    let p = live(token, now);
    let table = tokens.insert(at, row);
    select::lemma_first_where(tokens, p);
    select::lemma_first_where(table, p);
    if select::first_where(tokens, p) is Some {
        let i = select::lemma_first_where_place(tokens, p);
        let k = if i < at {
            i
        } else {
            i + 1
        };
        assert(table[k] == tokens[i]);
        assert forall|j: int| 0 <= j < k implies !p(#[trigger] table[j]) by {
            if j < at {
                assert(table[j] == tokens[j]);
            } else if j > at {
                assert(table[j] == tokens[j - 1]);
            }
        }
        select::law_first_where_is_first(table, p, k);
    } else {
        assert forall|j: int| 0 <= j < table.len() implies !p(#[trigger] table[j]) by {
            if j < at {
                assert(table[j] == tokens[j]);
            } else if j > at {
                assert(table[j] == tokens[j - 1]);
            }
        }
    }
}

/// A created row carries what it was created with, and what the table filled in.
pub proof fn law_created_row_carries_its_columns(
    session_id: Uuid,
    participant_id: Uuid,
    pseudo_id: PseudoId,
    issued: Issued,
)
    ensures
        ({
            let row = issued_row(session_id, participant_id, pseudo_id, issued);
            &&& row.session_id == session_id
            &&& row.participant_id == participant_id
            &&& row.pseudo_id == pseudo_id
            &&& row.token == issued.token
            &&& row.created_at == issued.created_at
            &&& row.expires_at == issued.expires_at
            &&& row.revoked_at == issued.revoked_at
        }),
{
}

/// Revoking sets the time of revocation of the token's rows, and changes no other
/// column and no other row.
pub proof fn law_revoking_sets_one_column(
    tokens: Seq<ConsentToken>,
    token: Uuid,
    now: Timestamp,
    i: int,
)
    requires
        0 <= i < tokens.len(),
    ensures
        revoked(tokens, token, now).len() == tokens.len(),
        ({
            let row = revoked(tokens, token, now)[i];
            &&& row.token == tokens[i].token
            &&& row.session_id == tokens[i].session_id
            &&& row.participant_id == tokens[i].participant_id
            &&& row.pseudo_id == tokens[i].pseudo_id
            &&& row.created_at == tokens[i].created_at
            &&& row.expires_at == tokens[i].expires_at
            &&& tokens[i].token == token ==> row.revoked_at == Some(now)
            &&& tokens[i].token != token ==> row.revoked_at == tokens[i].revoked_at
        }),
{
}

} // verus!
