//! What the admin pages show of the users and of the sessions that they joined.

use std::collections::{HashMap, HashSet};

use vstd::prelude::*;

use crate::db::display_names::DisplayName;
use crate::db::listing;
use crate::db::listing::Listed;
use crate::db::participants::Participant;
use crate::db::sessions::Session;
use crate::db::users::User;
use crate::ids::{PseudoId, Timestamp, Uuid};
use crate::text::clone_text;

verus! {

/// A user with the latest name, the number of distinct sessions joined, the
/// latest start of one of them, and whether any of the participations has a
/// consent scope recorded.
#[derive(Debug, PartialEq, Eq)]
pub struct AdminUserListItem {
    pub pseudo_id: PseudoId,
    pub is_admin: bool,
    pub data_wiped_at: Option<Timestamp>,
    pub created_at: Timestamp,
    pub latest_display_name: Option<String>,
    pub session_count: i64,
    pub last_active_at: Option<Timestamp>,
    pub has_consent_on_file: bool,
}

/// One session of a user, as the detail page shows it.
#[derive(Debug, PartialEq, Eq)]
pub struct ParticipatedSession {
    pub session_id: Uuid,
    pub campaign_name: Option<String>,
    pub title: Option<String>,
    pub started_at: Timestamp,
    pub ended_at: Option<Timestamp>,
    pub status: String,
    pub consent_scope: Option<String>,
    pub data_wiped_at: Option<Timestamp>,
}

impl Listed for AdminUserListItem {
    /// The most recently active first; those never active last; among equals,
    /// the newest first.
    open spec fn comes_before(&self, other: &Self) -> bool {
        let newer = self.created_at.micros > other.created_at.micros;
        match (self.last_active_at, other.last_active_at) {
            (Some(a), Some(b)) => a.micros > b.micros || (a.micros == b.micros && newer),
            (Some(_), None) => true,
            (None, Some(_)) => false,
            (None, None) => newer,
        }
    }

    proof fn order_is_transitive(a: &Self, b: &Self, c: &Self) {
    }

    proof fn order_is_asymmetric(a: &Self, b: &Self) {
    }

    fn before(&self, other: &Self) -> (res: bool) {
        let newer = self.created_at.micros > other.created_at.micros;
        match (self.last_active_at, other.last_active_at) {
            (Some(a), Some(b)) => a.micros > b.micros || (a.micros == b.micros && newer),
            (Some(_), None) => true,
            (None, Some(_)) => false,
            (None, None) => newer,
        }
    }
}

impl Listed for ParticipatedSession {
    /// The latest start first.
    open spec fn comes_before(&self, other: &Self) -> bool {
        self.started_at.micros > other.started_at.micros
    }

    proof fn order_is_transitive(a: &Self, b: &Self, c: &Self) {
    }

    proof fn order_is_asymmetric(a: &Self, b: &Self) {
    }

    fn before(&self, other: &Self) -> (res: bool) {
        self.started_at.micros > other.started_at.micros
    }
}

/// `name` is the latest of the names of `pseudo_id`; `None` where there is none.
pub open spec fn latest_name(
    name: Option<String>,
    names: Seq<DisplayName>,
    pseudo_id: Seq<char>,
) -> bool {
    match name {
        None => forall|i: int|
            0 <= i < names.len() ==> (#[trigger] names[i]).pseudo_id@ != pseudo_id,
        Some(text) => exists|i: int|
            {
                &&& 0 <= i < names.len()
                &&& (#[trigger] names[i]).pseudo_id@ == pseudo_id
                &&& names[i].display_name == text
                &&& forall|j: int|
                    0 <= j < names.len() && (#[trigger] names[j]).pseudo_id@ == pseudo_id
                        ==> names[j].last_seen_at.micros <= names[i].last_seen_at.micros
            },
    }
}

/// The participation `p` is one of `pseudo_id` in the session `s`.
pub open spec fn joins(p: Participant, s: Session, pseudo_id: Seq<char>) -> bool {
    p.pseudo_id@ == pseudo_id && p.session_id == s.id
}

/// The sessions that `pseudo_id` joined.
pub open spec fn joined_sessions(
    participants: Seq<Participant>,
    sessions: Seq<Session>,
    pseudo_id: Seq<char>,
) -> Set<u128> {
    Set::new(
        |bits: u128|
            exists|i: int, j: int|
                0 <= i < participants.len() && 0 <= j < sessions.len() && #[trigger] joins(
                    participants[i],
                    sessions[j],
                    pseudo_id,
                ) && sessions[j].id.bits == bits,
    )
}

/// `at` is the latest start of a session that `pseudo_id` joined; `None` where
/// there is no such session.
pub open spec fn last_active(
    at: Option<Timestamp>,
    participants: Seq<Participant>,
    sessions: Seq<Session>,
    pseudo_id: Seq<char>,
) -> bool {
    match at {
        None => forall|i: int, j: int|
            0 <= i < participants.len() && 0 <= j < sessions.len() ==> !#[trigger] joins(
                participants[i],
                sessions[j],
                pseudo_id,
            ),
        Some(t) => {
            &&& exists|i: int, j: int|
                0 <= i < participants.len() && 0 <= j < sessions.len() && #[trigger] joins(
                    participants[i],
                    sessions[j],
                    pseudo_id,
                ) && sessions[j].started_at == t
            &&& forall|i: int, j: int|
                0 <= i < participants.len() && 0 <= j < sessions.len() && #[trigger] joins(
                    participants[i],
                    sessions[j],
                    pseudo_id,
                ) ==> sessions[j].started_at.micros <= t.micros
        },
    }
}

/// Whether a participation of `pseudo_id` has a consent scope recorded.
pub open spec fn consent_on_file(
    participants: Seq<Participant>,
    sessions: Seq<Session>,
    pseudo_id: Seq<char>,
) -> bool {
    exists|i: int, j: int|
        0 <= i < participants.len() && 0 <= j < sessions.len() && #[trigger] joins(
            participants[i],
            sessions[j],
            pseudo_id,
        ) && participants[i].consent_scope is Some
}

/// `item` is the line of `user` in the admin list.
pub open spec fn describes(
    item: AdminUserListItem,
    user: User,
    names: Seq<DisplayName>,
    participants: Seq<Participant>,
    sessions: Seq<Session>,
) -> bool {
    let who = user.pseudo_id@;
    &&& item.pseudo_id == user.pseudo_id
    &&& item.is_admin == user.is_admin
    &&& item.data_wiped_at == user.data_wiped_at
    &&& item.created_at == user.created_at
    &&& latest_name(item.latest_display_name, names, who)
    &&& item.session_count == joined_sessions(participants, sessions, who).len()
    &&& last_active(item.last_active_at, participants, sessions, who)
    &&& item.has_consent_on_file == consent_on_file(participants, sessions, who)
}

/// One line for each user.
pub open spec fn describe_all(
    items: Seq<AdminUserListItem>,
    users: Seq<User>,
    names: Seq<DisplayName>,
    participants: Seq<Participant>,
    sessions: Seq<Session>,
) -> bool {
    &&& items.len() == users.len()
    &&& forall|i: int|
        0 <= i < users.len() ==> describes(
            #[trigger] items[i],
            users[i],
            names,
            participants,
            sessions,
        )
}

/// What the detail page shows of a participation.
pub open spec fn participation(p: Participant, s: Session) -> ParticipatedSession {
    ParticipatedSession {
        session_id: s.id,
        campaign_name: s.campaign_name,
        title: None,
        started_at: s.started_at,
        ended_at: s.ended_at,
        status: s.status,
        consent_scope: p.consent_scope,
        data_wiped_at: p.data_wiped_at,
    }
}

/// One participation with each session row that it belongs to.
pub open spec fn participations_of(p: Participant, sessions: Seq<Session>) -> Seq<
    ParticipatedSession,
> {
    sessions.filter(crate::db::sessions::session_row(p.session_id)).map_values(
        |s: Session| participation(p, s),
    )
}

/// All participations of `pseudo_id`, in the order of the tables.
pub open spec fn participations(
    participants: Seq<Participant>,
    sessions: Seq<Session>,
    pseudo_id: Seq<char>,
) -> Seq<ParticipatedSession>
    decreases participants.len(),
{
    if participants.len() == 0 {
        Seq::empty()
    } else {
        let rest = participations(participants.drop_last(), sessions, pseudo_id);
        if participants.last().pseudo_id@ == pseudo_id {
            rest + participations_of(participants.last(), sessions)
        } else {
            rest
        }
    }
}

/// The latest start of each session.
pub open spec fn starts_of(starts: Map<u128, i64>, sessions: Seq<Session>) -> bool {
    &&& forall|j: int|
        0 <= j < sessions.len() ==> starts.contains_key((#[trigger] sessions[j]).id.bits)
            && sessions[j].started_at.micros <= starts[sessions[j].id.bits]
    &&& forall|bits: u128| #[trigger]
        starts.contains_key(bits) ==> exists|j: int|
            0 <= j < sessions.len() && (#[trigger] sessions[j]).id.bits == bits
                && sessions[j].started_at.micros == starts[bits]
}

fn index_starts(sessions: &Vec<Session>) -> (res: HashMap<u128, i64>)
    ensures
        starts_of(res@, sessions@),
{
    broadcast use vstd::std_specs::hash::group_hash_axioms;

    let mut starts: HashMap<u128, i64> = HashMap::new();
    let mut k: usize = 0;
    while k < sessions.len()
        invariant
            k <= sessions@.len(),
            starts_of(starts@, sessions@.take(k as int)),
        decreases sessions@.len() - k,
    {
        let bits: u128 = sessions[k].id.bits;
        let started: i64 = sessions[k].started_at.micros;
        let later = match starts.get(&bits) {
            Some(known) => *known < started,
            None => true,
        };
        let ghost before = starts@;
        if later {
            starts.insert(bits, started);
        }
        proof {
            let old_rows = sessions@.take(k as int);
            let rows = sessions@.take(k + 1);
            assert(rows[k as int] == sessions@[k as int]);
            assert forall|j: int| 0 <= j < rows.len() implies starts@.contains_key(
                (#[trigger] rows[j]).id.bits,
            ) && rows[j].started_at.micros <= starts@[rows[j].id.bits] by {
                if j < k {
                    assert(rows[j] == old_rows[j]);
                }
            }
            assert forall|b: u128| #[trigger] starts@.contains_key(b) implies exists|j: int|
                0 <= j < rows.len() && (#[trigger] rows[j]).id.bits == b
                    && rows[j].started_at.micros == starts@[b] by {
                if later && b == bits {
                    assert(rows[k as int].id.bits == b);
                } else {
                    assert(before.contains_key(b));
                    let j = choose|j: int|
                        0 <= j < old_rows.len() && (#[trigger] old_rows[j]).id.bits == b
                            && old_rows[j].started_at.micros == before[b];
                    assert(rows[j] == old_rows[j]);
                }
            }
        }
        k = k + 1;
    }
    assert(sessions@.take(k as int) =~= sessions@);
    starts
}

fn find_latest_name(names: &Vec<DisplayName>, pseudo_id: &PseudoId) -> (res: Option<String>)
    ensures
        latest_name(res, names@, pseudo_id@),
{
    let mut latest: Option<usize> = None;
    let mut i: usize = 0;
    while i < names.len()
        invariant
            i <= names@.len(),
            match latest {
                None => forall|j: int|
                    0 <= j < i ==> (#[trigger] names@[j]).pseudo_id@ != pseudo_id@,
                Some(k) => {
                    &&& k < i
                    &&& names@[k as int].pseudo_id@ == pseudo_id@
                    &&& forall|j: int|
                        0 <= j < i && (#[trigger] names@[j]).pseudo_id@ == pseudo_id@
                            ==> names@[j].last_seen_at.micros
                            <= names@[k as int].last_seen_at.micros
                },
            },
        decreases names@.len() - i,
    {
        if names[i].pseudo_id.same(pseudo_id) {
            let later = match latest {
                Some(k) => names[k].last_seen_at.micros < names[i].last_seen_at.micros,
                None => true,
            };
            if later {
                latest = Some(i);
            }
        }
        i = i + 1;
    }
    match latest {
        Some(k) => {
            let name = names[k].display_name.clone();
            assert(names@[k as int].display_name == name);
            Some(name)
        },
        None => None,
    }
}

/// The line of one user.
fn describe(
    user: &User,
    names: &Vec<DisplayName>,
    participants: &Vec<Participant>,
    sessions: &Vec<Session>,
    starts: &HashMap<u128, i64>,
) -> (res: AdminUserListItem)
    requires
        participants@.len() <= i64::MAX,
        starts_of(starts@, sessions@),
    ensures
        describes(res, *user, names@, participants@, sessions@),
{
    broadcast use vstd::std_specs::hash::group_hash_axioms;

    let who = &user.pseudo_id;
    let mut joined: HashSet<u128> = HashSet::new();
    let mut last: Option<Timestamp> = None;
    let mut consent = false;
    let mut k: usize = 0;
    proof {
        assert(joined@ =~= joined_sessions(participants@.take(0), sessions@, who@));
    }
    while k < participants.len()
        invariant
            k <= participants@.len(),
            starts_of(starts@, sessions@),
            joined@ == joined_sessions(participants@.take(k as int), sessions@, who@),
            joined@.finite(),
            joined@.len() <= k,
            last_active(last, participants@.take(k as int), sessions@, who@),
            consent == consent_on_file(participants@.take(k as int), sessions@, who@),
        decreases participants@.len() - k,
    {
        let p = &participants[k];
        let ghost seen = participants@.take(k as int);
        let ghost now = participants@.take(k + 1);
        assert(now =~= seen.push(*p));
        if p.pseudo_id.same(who) {
            if let Some(started) = starts.get(&p.session_id.bits) {
                let started: i64 = *started;
                proof {
                    lemma_joined(seen, *p, sessions@, who@, starts@, last);
                }
                joined.insert(p.session_id.bits);
                let later = match last {
                    Some(t) => t.micros < started,
                    None => true,
                };
                if later {
                    last = Some(Timestamp { micros: started });
                }
                if p.consent_scope.is_some() {
                    consent = true;
                }
            } else {
                proof {
                    lemma_not_joined(seen, *p, sessions@, who@, starts@, last);
                }
            }
        } else {
            proof {
                lemma_not_joined(seen, *p, sessions@, who@, starts@, last);
            }
        }
        k = k + 1;
    }
    assert(participants@.take(k as int) =~= participants@);
    AdminUserListItem {
        pseudo_id: user.pseudo_id.clone(),
        is_admin: user.is_admin,
        data_wiped_at: user.data_wiped_at,
        created_at: user.created_at,
        latest_display_name: find_latest_name(names, who),
        session_count: joined.len() as i64,
        last_active_at: last,
        has_consent_on_file: consent,
    }
}

/// A participation that joins no session row adds nothing to a user's line.
proof fn lemma_not_joined(
    seen: Seq<Participant>,
    p: Participant,
    sessions: Seq<Session>,
    who: Seq<char>,
    starts: Map<u128, i64>,
    last: Option<Timestamp>,
)
    requires
        starts_of(starts, sessions),
        last_active(last, seen, sessions, who),
        p.pseudo_id@ == who ==> !starts.contains_key(p.session_id.bits),
    ensures
        joined_sessions(seen.push(p), sessions, who) == joined_sessions(seen, sessions, who),
        last_active(last, seen.push(p), sessions, who),
        consent_on_file(seen.push(p), sessions, who) == consent_on_file(seen, sessions, who),
{
    let now = seen.push(p);
    assert forall|i: int, j: int|
        0 <= i < now.len() && 0 <= j < sessions.len() && #[trigger] joins(
            now[i],
            sessions[j],
            who,
        ) implies i < seen.len() && now[i] == seen[i] by {
        if i == seen.len() {
            assert(starts.contains_key(sessions[j].id.bits));
        }
    }
    lemma_same_joins(seen, now, sessions, who);
    assert(joined_sessions(now, sessions, who) =~= joined_sessions(seen, sessions, who));
}

/// What a participation in a known session adds to a user's line.
proof fn lemma_joined(
    seen: Seq<Participant>,
    p: Participant,
    sessions: Seq<Session>,
    who: Seq<char>,
    starts: Map<u128, i64>,
    last: Option<Timestamp>,
)
    requires
        starts_of(starts, sessions),
        last_active(last, seen, sessions, who),
        p.pseudo_id@ == who,
        starts.contains_key(p.session_id.bits),
    ensures
        joined_sessions(seen.push(p), sessions, who) == joined_sessions(
            seen,
            sessions,
            who,
        ).insert(p.session_id.bits),
        ({
            let started = Timestamp { micros: starts[p.session_id.bits] };
            let latest = match last {
                Some(t) => if t.micros < started.micros {
                    started
                } else {
                    t
                },
                None => started,
            };
            last_active(Some(latest), seen.push(p), sessions, who)
        }),
        consent_on_file(seen.push(p), sessions, who) == (consent_on_file(seen, sessions, who)
            || p.consent_scope is Some),
{
    let now = seen.push(p);
    let bits = p.session_id.bits;
    let n = seen.len() as int;
    let at = choose|j: int|
        0 <= j < sessions.len() && (#[trigger] sessions[j]).id.bits == bits
            && sessions[j].started_at.micros == starts[bits];
    assert(sessions[at].id == p.session_id);
    assert(joins(now[n], sessions[at], who));
    assert forall|i: int, j: int|
        0 <= i < seen.len() && 0 <= j < sessions.len() && #[trigger] joins(
            seen[i],
            sessions[j],
            who,
        ) implies joins(now[i], sessions[j], who) by {
        assert(now[i] == seen[i]);
    }
    assert forall|i: int, j: int|
        0 <= i < now.len() && 0 <= j < sessions.len() && #[trigger] joins(
            now[i],
            sessions[j],
            who,
        ) implies (if i < n {
        joins(seen[i], sessions[j], who) && now[i] == seen[i]
    } else {
        now[i] == p && sessions[j].id.bits == bits && sessions[j].started_at.micros
            <= starts[bits]
    }) by {}
    let before_set = joined_sessions(seen, sessions, who);
    let after_set = joined_sessions(now, sessions, who);
    assert forall|b: u128| #[trigger] after_set.contains(b) == before_set.insert(bits).contains(
        b,
    ) by {
        if after_set.contains(b) {
            let (i, j) = choose|i: int, j: int|
                0 <= i < now.len() && 0 <= j < sessions.len() && #[trigger] joins(
                    now[i],
                    sessions[j],
                    who,
                ) && sessions[j].id.bits == b;
            if i < n {
                assert(joins(seen[i], sessions[j], who));
            }
        }
        if before_set.contains(b) {
            let (i, j) = choose|i: int, j: int|
                0 <= i < seen.len() && 0 <= j < sessions.len() && #[trigger] joins(
                    seen[i],
                    sessions[j],
                    who,
                ) && sessions[j].id.bits == b;
            assert(joins(now[i], sessions[j], who));
        }
    }
    assert(after_set =~= before_set.insert(bits));
    if let Some(t) = last {
        let (i, j) = choose|i: int, j: int|
            0 <= i < seen.len() && 0 <= j < sessions.len() && #[trigger] joins(
                seen[i],
                sessions[j],
                who,
            ) && sessions[j].started_at == t;
        assert(joins(now[i], sessions[j], who));
    }
    if consent_on_file(seen, sessions, who) {
        let (i, j) = choose|i: int, j: int|
            0 <= i < seen.len() && 0 <= j < sessions.len() && #[trigger] joins(
                seen[i],
                sessions[j],
                who,
            ) && seen[i].consent_scope is Some;
        assert(joins(now[i], sessions[j], who));
    }
}

/// Tables of participations with the same joins give the same line.
proof fn lemma_same_joins(
    seen: Seq<Participant>,
    now: Seq<Participant>,
    sessions: Seq<Session>,
    who: Seq<char>,
)
    requires
        seen.len() <= now.len(),
        forall|i: int| 0 <= i < seen.len() ==> seen[i] == now[i],
        forall|i: int, j: int|
            0 <= i < now.len() && 0 <= j < sessions.len() && #[trigger] joins(
                now[i],
                sessions[j],
                who,
            ) ==> i < seen.len(),
    ensures
        forall|bits: u128|
            joined_sessions(now, sessions, who).contains(bits) == joined_sessions(
                seen,
                sessions,
                who,
            ).contains(bits),
        forall|last: Option<Timestamp>|
            last_active(last, seen, sessions, who) ==> last_active(last, now, sessions, who),
        consent_on_file(now, sessions, who) == consent_on_file(seen, sessions, who),
{
    assert forall|i: int, j: int|
        0 <= i < seen.len() && 0 <= j < sessions.len() && #[trigger] joins(
            seen[i],
            sessions[j],
            who,
        ) implies joins(now[i], sessions[j], who) by {}
    assert forall|i: int, j: int|
        0 <= i < now.len() && 0 <= j < sessions.len() && #[trigger] joins(
            now[i],
            sessions[j],
            who,
        ) implies joins(seen[i], sessions[j], who) by {}
}

/// Every user with details, the most recently active first. Each user has one
/// line, also one without a name or a session.
pub fn list_all_with_details(
    users: &Vec<User>,
    names: &Vec<DisplayName>,
    participants: &Vec<Participant>,
    sessions: &Vec<Session>,
) -> (res: Vec<AdminUserListItem>)
    requires
        participants@.len() <= i64::MAX,
    ensures
        exists|items: Seq<AdminUserListItem>|
            {
                &&& #[trigger] describe_all(items, users@, names@, participants@, sessions@)
                &&& listing::listing_of(res@, items)
            },
        res@.len() == users@.len(),
        forall|i: int, j: int|
            #![trigger res@[i], res@[j]]
            0 <= i < j < res@.len() ==> {
                &&& res@[j].last_active_at matches Some(later) ==> res@[i].last_active_at matches Some(
                    earlier,
                ) && earlier.micros >= later.micros
                &&& res@[i].last_active_at == res@[j].last_active_at
                    ==> res@[i].created_at.micros >= res@[j].created_at.micros
            },
{
    let starts = index_starts(sessions);
    let mut items: Vec<AdminUserListItem> = Vec::new();
    let mut i: usize = 0;
    while i < users.len()
        invariant
            i <= users@.len(),
            participants@.len() <= i64::MAX,
            starts_of(starts@, sessions@),
            items@.len() == i,
            forall|j: int|
                0 <= j < i ==> describes(
                    #[trigger] items@[j],
                    users@[j],
                    names@,
                    participants@,
                    sessions@,
                ),
        decreases users@.len() - i,
    {
        let item = describe(&users[i], names, participants, sessions, &starts);
        items.push(item);
        i = i + 1;
    }
    assert(describe_all(items@, users@, names@, participants@, sessions@));
    let ghost all = items@;
    let res = listing::listing(items);
    proof {
        listing::law_listing_keeps_rows(res@, all);
        law_most_recently_active_come_first(res@, all);
    }
    res
}

/// Adds one participation, with each session row that it belongs to.
fn push_participations(
    rows: &mut Vec<ParticipatedSession>,
    p: &Participant,
    sessions: &Vec<Session>,
)
    ensures
        final(rows)@ == old(rows)@ + participations_of(*p, sessions@),
{
    let ghost before = rows@;
    let ghost same = crate::db::sessions::session_row(p.session_id);
    let mut j: usize = 0;
    assert(sessions@.take(0).filter(same) =~= Seq::empty());
    assert(participations_of(*p, sessions@.take(0)) =~= Seq::empty());
    assert(rows@ =~= before + participations_of(*p, sessions@.take(0)));
    while j < sessions.len()
        invariant
            j <= sessions@.len(),
            same == crate::db::sessions::session_row(p.session_id),
            rows@ == before + participations_of(*p, sessions@.take(j as int)),
        decreases sessions@.len() - j,
    {
        let s = &sessions[j];
        proof {
            assert(sessions@.take(j + 1) =~= sessions@.take(j as int).push(*s));
            sessions@.take(j as int).lemma_filter_push(*s, same);
        }
        if s.id == p.session_id {
            rows.push(
                ParticipatedSession {
                    session_id: s.id,
                    campaign_name: clone_text(&s.campaign_name),
                    title: None,
                    started_at: s.started_at,
                    ended_at: s.ended_at,
                    status: s.status.clone(),
                    consent_scope: clone_text(&p.consent_scope),
                    data_wiped_at: p.data_wiped_at,
                },
            );
            assert(participations_of(*p, sessions@.take(j + 1)) =~= participations_of(
                *p,
                sessions@.take(j as int),
            ).push(participation(*p, *s)));
        }
        j = j + 1;
        assert(rows@ =~= before + participations_of(*p, sessions@.take(j as int)));
    }
    assert(sessions@.take(j as int) =~= sessions@);
}

/// The sessions in which a user took part, the latest start first.
pub fn list_sessions_for_user(
    participants: &Vec<Participant>,
    sessions: &Vec<Session>,
    pseudo_id: &PseudoId,
) -> (res: Vec<ParticipatedSession>)
    ensures
        listing::listing_of(res@, participations(participants@, sessions@, pseudo_id@)),
        forall|i: int, j: int|
            #![trigger res@[i], res@[j]]
            0 <= i < j < res@.len() ==> res@[i].started_at.micros >= res@[j].started_at.micros,
{
    let mut rows: Vec<ParticipatedSession> = Vec::new();
    let mut i: usize = 0;
    while i < participants.len()
        invariant
            i <= participants@.len(),
            rows@ == participations(participants@.take(i as int), sessions@, pseudo_id@),
        decreases participants@.len() - i,
    {
        let p = &participants[i];
        assert(participants@.take(i + 1).drop_last() =~= participants@.take(i as int));
        if p.pseudo_id.same(pseudo_id) {
            push_participations(&mut rows, p, sessions);
        }
        i = i + 1;
    }
    assert(participants@.take(i as int) =~= participants@);
    listing::listing(rows)
}

/// Some line is that of `user`.
pub open spec fn has_line(
    lines: Seq<AdminUserListItem>,
    user: User,
    names: Seq<DisplayName>,
    participants: Seq<Participant>,
    sessions: Seq<Session>,
) -> bool {
    exists|k: int|
        0 <= k < lines.len() && describes(
            #[trigger] lines[k],
            user,
            names,
            participants,
            sessions,
        )
}

/// `line` is that of some user.
pub open spec fn is_line(
    line: AdminUserListItem,
    users: Seq<User>,
    names: Seq<DisplayName>,
    participants: Seq<Participant>,
    sessions: Seq<Session>,
) -> bool {
    exists|i: int|
        0 <= i < users.len() && describes(
            line,
            #[trigger] users[i],
            names,
            participants,
            sessions,
        )
}

/// The list shows each user exactly once: as many lines as users, the line of
/// each, and, as no two users share a pseudonym, no two lines of one user.
pub proof fn law_every_user_has_a_line(
    lines: Seq<AdminUserListItem>,
    items: Seq<AdminUserListItem>,
    users: Seq<User>,
    names: Seq<DisplayName>,
    participants: Seq<Participant>,
    sessions: Seq<Session>,
)
    requires
        describe_all(items, users, names, participants, sessions),
        listing::listing_of(lines, items),
    ensures
        lines.len() == users.len(),
        forall|i: int|
            0 <= i < users.len() ==> has_line(
                lines,
                #[trigger] users[i],
                names,
                participants,
                sessions,
            ),
        forall|k: int|
            0 <= k < lines.len() ==> is_line(
                #[trigger] lines[k],
                users,
                names,
                participants,
                sessions,
            ),
        crate::db::users::keyed(users) ==> forall|j: int, k: int|
            #![trigger lines[j], lines[k]]
            0 <= j < k < lines.len() ==> lines[j].pseudo_id@ != lines[k].pseudo_id@,
{
    listing::law_listing_keeps_rows(lines, items);
    if crate::db::users::keyed(users) {
        assert forall|j: int, k: int| 0 <= j < items.len() && 0 <= k < items.len() && j != k implies
            (#[trigger] items[j]).pseudo_id@ != (#[trigger] items[k]).pseudo_id@ by {
            assert(describes(items[j], users[j], names, participants, sessions));
            assert(describes(items[k], users[k], names, participants, sessions));
        }
        assert(items.no_duplicates());
        items.lemma_multiset_has_no_duplicates();
        lines.lemma_multiset_has_no_duplicates_conv();
        assert forall|j: int, k: int|
            #![trigger lines[j], lines[k]]
            0 <= j < k < lines.len() implies lines[j].pseudo_id@ != lines[k].pseudo_id@ by {
            assert(lines.contains(lines[j]) && lines.contains(lines[k]));
            let a = choose|a: int| 0 <= a < items.len() && items[a] == lines[j];
            let b = choose|b: int| 0 <= b < items.len() && items[b] == lines[k];
            assert(a != b);
        }
    }
    assert forall|i: int| 0 <= i < users.len() implies has_line(
        lines,
        #[trigger] users[i],
        names,
        participants,
        sessions,
    ) by {
        assert(items.contains(items[i]));
        let k = choose|k: int| 0 <= k < lines.len() && lines[k] == items[i];
        assert(describes(lines[k], users[i], names, participants, sessions));
    }
    assert forall|k: int| 0 <= k < lines.len() implies is_line(
        #[trigger] lines[k],
        users,
        names,
        participants,
        sessions,
    ) by {
        assert(lines.contains(lines[k]));
        let i = choose|i: int| 0 <= i < items.len() && items[i] == lines[k];
        assert(describes(items[i], users[i], names, participants, sessions));
    }
}

/// The columns of a line agree: a user without a session was never active, and
/// consent on file comes from some session.
pub proof fn law_line_is_consistent(
    item: AdminUserListItem,
    user: User,
    names: Seq<DisplayName>,
    participants: Seq<Participant>,
    sessions: Seq<Session>,
)
    requires
        describes(item, user, names, participants, sessions),
    ensures
        item.session_count == 0 <==> item.last_active_at is None,
        item.has_consent_on_file ==> item.session_count > 0,
        item.session_count <= participants.len(),
{
    let who = user.pseudo_id@;
    let joined = joined_sessions(participants, sessions, who);
    lemma_joined_is_finite(participants, sessions, who);
    if item.last_active_at is Some {
        let (i, j) = choose|i: int, j: int|
            0 <= i < participants.len() && 0 <= j < sessions.len() && #[trigger] joins(
                participants[i],
                sessions[j],
                who,
            );
        assert(joined.contains(sessions[j].id.bits));
    } else {
        assert(joined =~= Set::empty());
    }
}

proof fn lemma_joined_is_finite(
    participants: Seq<Participant>,
    sessions: Seq<Session>,
    who: Seq<char>,
)
    ensures
        joined_sessions(participants, sessions, who).finite(),
        joined_sessions(participants, sessions, who).len() <= participants.len(),
{
    let joined = joined_sessions(participants, sessions, who);
    let all = participants.map_values(|p: Participant| p.session_id.bits);
    assert forall|bits: u128| joined.contains(bits) implies all.to_set().contains(bits) by {
        let (i, j) = choose|i: int, j: int|
            0 <= i < participants.len() && 0 <= j < sessions.len() && #[trigger] joins(
                participants[i],
                sessions[j],
                who,
            ) && sessions[j].id.bits == bits;
        assert(all[i] == bits);
    }
    vstd::seq_lib::seq_to_set_is_finite(all);
    all.lemma_cardinality_of_set();
    vstd::set_lib::lemma_len_subset(joined, all.to_set());
}

/// The detail page shows a participation if and only if the user took part in
/// that session.
pub proof fn law_shown_sessions_are_those_joined(
    participants: Seq<Participant>,
    sessions: Seq<Session>,
    pseudo_id: Seq<char>,
    row: ParticipatedSession,
)
    ensures
        participations(participants, sessions, pseudo_id).contains(row) <==> exists|i: int, j: int|
            0 <= i < participants.len() && 0 <= j < sessions.len() && #[trigger] joins(
                participants[i],
                sessions[j],
                pseudo_id,
            ) && row == participation(participants[i], sessions[j]),
    decreases participants.len(),
{
    let shown = participations(participants, sessions, pseudo_id);
    if participants.len() > 0 {
        let rest = participants.drop_last();
        let p = participants.last();
        let last = participants.len() - 1;
        law_shown_sessions_are_those_joined(rest, sessions, pseudo_id, row);
        lemma_participations_of(p, sessions, row);
        let earlier = participations(rest, sessions, pseudo_id);
        if p.pseudo_id@ == pseudo_id {
            assert(shown == earlier + participations_of(p, sessions));
            if earlier.contains(row) {
                let k = choose|k: int| 0 <= k < earlier.len() && earlier[k] == row;
                assert(shown[k] == row);
            }
            if participations_of(p, sessions).contains(row) {
                let own = participations_of(p, sessions);
                let k = choose|k: int| 0 <= k < own.len() && own[k] == row;
                assert(shown[earlier.len() + k] == row);
                let j = choose|j: int|
                    0 <= j < sessions.len() && (#[trigger] sessions[j]).id == p.session_id && row
                        == participation(p, sessions[j]);
                assert(joins(participants[last], sessions[j], pseudo_id));
            }
            if shown.contains(row) {
                let k = choose|k: int| 0 <= k < shown.len() && shown[k] == row;
                if k < earlier.len() {
                    assert(earlier[k] == row);
                } else {
                    assert(participations_of(p, sessions)[k - earlier.len()] == row);
                }
            }
        }
        if earlier.contains(row) {
            let (i, j) = choose|i: int, j: int|
                0 <= i < rest.len() && 0 <= j < sessions.len() && #[trigger] joins(
                    rest[i],
                    sessions[j],
                    pseudo_id,
                ) && row == participation(rest[i], sessions[j]);
            assert(joins(participants[i], sessions[j], pseudo_id));
        }
        assert forall|i: int, j: int|
            0 <= i < participants.len() && 0 <= j < sessions.len() && #[trigger] joins(
                participants[i],
                sessions[j],
                pseudo_id,
            ) && row == participation(participants[i], sessions[j]) implies shown.contains(
            row,
        ) by {
            if i < last {
                assert(joins(rest[i], sessions[j], pseudo_id));
            } else {
                assert(sessions[j].id == p.session_id);
            }
        }
    }
}

proof fn lemma_participations_of(p: Participant, sessions: Seq<Session>, row: ParticipatedSession)
    ensures
        participations_of(p, sessions).contains(row) <==> exists|j: int|
            0 <= j < sessions.len() && (#[trigger] sessions[j]).id == p.session_id && row
                == participation(p, sessions[j]),
{
    broadcast use vstd::seq_lib::group_filter_ensures;

    let same = crate::db::sessions::session_row(p.session_id);
    let own = sessions.filter(same);
    let rows = participations_of(p, sessions);
    if rows.contains(row) {
        let k = choose|k: int| 0 <= k < rows.len() && rows[k] == row;
        assert(rows[k] == participation(p, own[k]));
        sessions.lemma_filter_contains_rev(same, own[k]);
        let j = choose|j: int| 0 <= j < sessions.len() && sessions[j] == own[k];
        assert(sessions[j].id == p.session_id);
    }
    assert forall|j: int|
        0 <= j < sessions.len() && (#[trigger] sessions[j]).id == p.session_id && row
            == participation(p, sessions[j]) implies rows.contains(row) by {
        assert(own.contains(sessions[j]));
        let k = choose|k: int| 0 <= k < own.len() && own[k] == sessions[j];
        assert(rows[k] == row);
    }
}


/// In the list, a user who was active stands behind none who was active longer
/// ago or never; among users who were last active at the same time, or never,
/// none stands behind one who is older.
pub proof fn law_most_recently_active_come_first(
    lines: Seq<AdminUserListItem>,
    items: Seq<AdminUserListItem>,
)
    requires
        listing::listing_of(lines, items),
    ensures
        lines.to_multiset() == items.to_multiset(),
        forall|i: int, j: int|
            #![trigger lines[i], lines[j]]
            0 <= i < j < lines.len() ==> {
                &&& lines[j].last_active_at matches Some(later) ==> lines[i].last_active_at matches Some(
                    earlier,
                ) && earlier.micros >= later.micros
                &&& lines[i].last_active_at == lines[j].last_active_at
                    ==> lines[i].created_at.micros >= lines[j].created_at.micros
            },
{
    assert forall|i: int, j: int|
        #![trigger lines[i], lines[j]]
        0 <= i < j < lines.len() implies {
        &&& lines[j].last_active_at matches Some(later) ==> lines[i].last_active_at matches Some(
            earlier,
        ) && earlier.micros >= later.micros
        &&& lines[i].last_active_at == lines[j].last_active_at ==> lines[i].created_at.micros
            >= lines[j].created_at.micros
    } by {
        assert(!lines[j].comes_before(&lines[i]));
    }
}

/// A line shows the user's own columns.
pub proof fn law_line_shows_the_user(
    item: AdminUserListItem,
    user: User,
    names: Seq<DisplayName>,
    participants: Seq<Participant>,
    sessions: Seq<Session>,
)
    requires
        describes(item, user, names, participants, sessions),
    ensures
        item.pseudo_id == user.pseudo_id,
        item.is_admin == user.is_admin,
        item.data_wiped_at == user.data_wiped_at,
        item.created_at == user.created_at,
{
}

/// A line shows a name if and only if the user was seen under one, and then one
/// under which the user was seen last.
pub proof fn law_line_shows_the_latest_name(
    item: AdminUserListItem,
    user: User,
    names: Seq<DisplayName>,
    participants: Seq<Participant>,
    sessions: Seq<Session>,
)
    requires
        describes(item, user, names, participants, sessions),
    ensures
        item.latest_display_name is Some <==> exists|i: int|
            0 <= i < names.len() && (#[trigger] names[i]).pseudo_id.text@
                == user.pseudo_id.text@,
        item.latest_display_name matches Some(name) ==> exists|i: int|
            {
                &&& 0 <= i < names.len()
                &&& (#[trigger] names[i]).pseudo_id.text@ == user.pseudo_id.text@
                &&& names[i].display_name == name
                &&& forall|j: int|
                    0 <= j < names.len() && (#[trigger] names[j]).pseudo_id.text@
                        == user.pseudo_id.text@ ==> names[j].last_seen_at.micros
                        <= names[i].last_seen_at.micros
            },
{
    if let Some(name) = item.latest_display_name {
        let i = choose|i: int|
            {
                &&& 0 <= i < names.len()
                &&& (#[trigger] names[i]).pseudo_id@ == user.pseudo_id@
                &&& names[i].display_name == name
                &&& forall|j: int|
                    0 <= j < names.len() && (#[trigger] names[j]).pseudo_id@ == user.pseudo_id@
                        ==> names[j].last_seen_at.micros <= names[i].last_seen_at.micros
            };
        assert(names[i].pseudo_id.text@ == user.pseudo_id.text@);
    }
}

/// The count of a line is the number of distinct sessions that the user took part
/// in and that are there.
pub proof fn law_line_counts_distinct_sessions(
    item: AdminUserListItem,
    user: User,
    names: Seq<DisplayName>,
    participants: Seq<Participant>,
    sessions: Seq<Session>,
    joined: Set<u128>,
)
    requires
        describes(item, user, names, participants, sessions),
        forall|bits: u128| #[trigger]
            joined.contains(bits) <==> exists|i: int, j: int|
                #![trigger participants[i], sessions[j]]
                0 <= i < participants.len() && 0 <= j < sessions.len()
                    && participants[i].pseudo_id.text@ == user.pseudo_id.text@
                    && participants[i].session_id == sessions[j].id && sessions[j].id.bits == bits,
    ensures
        joined.finite(),
        item.session_count == joined.len(),
{
    let who = user.pseudo_id@;
    let known = joined_sessions(participants, sessions, who);
    assert forall|bits: u128| joined.contains(bits) == known.contains(bits) by {
        if joined.contains(bits) {
            let (i, j) = choose|i: int, j: int|
                #![trigger participants[i], sessions[j]]
                0 <= i < participants.len() && 0 <= j < sessions.len()
                    && participants[i].pseudo_id.text@ == user.pseudo_id.text@
                    && participants[i].session_id == sessions[j].id && sessions[j].id.bits == bits;
            assert(joins(participants[i], sessions[j], who));
        }
        if known.contains(bits) {
            let (i, j) = choose|i: int, j: int|
                0 <= i < participants.len() && 0 <= j < sessions.len() && #[trigger] joins(
                    participants[i],
                    sessions[j],
                    who,
                ) && sessions[j].id.bits == bits;
            assert(participants[i].session_id == sessions[j].id);
        }
    }
    assert(joined =~= known);
    lemma_joined_is_finite(participants, sessions, who);
}

/// A line shows when the user was last active if and only if the user took part
/// in a session that is there: then the latest start of those.
pub proof fn law_line_shows_the_latest_start(
    item: AdminUserListItem,
    user: User,
    names: Seq<DisplayName>,
    participants: Seq<Participant>,
    sessions: Seq<Session>,
    i: int,
    j: int,
)
    requires
        describes(item, user, names, participants, sessions),
    ensures
        0 <= i < participants.len() && 0 <= j < sessions.len() && participants[i].pseudo_id.text@
            == user.pseudo_id.text@ && participants[i].session_id == sessions[j].id
            ==> (item.last_active_at matches Some(at) && sessions[j].started_at.micros
            <= at.micros),
        item.last_active_at matches Some(at) ==> exists|a: int, b: int|
            #![trigger participants[a], sessions[b]]
            0 <= a < participants.len() && 0 <= b < sessions.len()
                && participants[a].pseudo_id.text@ == user.pseudo_id.text@
                && participants[a].session_id == sessions[b].id && sessions[b].started_at == at,
{
    let who = user.pseudo_id@;
    if 0 <= i < participants.len() && 0 <= j < sessions.len() && participants[i].pseudo_id.text@
        == user.pseudo_id.text@ && participants[i].session_id == sessions[j].id {
        assert(joins(participants[i], sessions[j], who));
    }
    if let Some(at) = item.last_active_at {
        let (a, b) = choose|a: int, b: int|
            0 <= a < participants.len() && 0 <= b < sessions.len() && #[trigger] joins(
                participants[a],
                sessions[b],
                who,
            ) && sessions[b].started_at == at;
        assert(participants[a].session_id == sessions[b].id);
    }
}

/// A line says that consent is on file if and only if a participation of the user
/// in a session that is there has a consent scope.
pub proof fn law_line_shows_consent_on_file(
    item: AdminUserListItem,
    user: User,
    names: Seq<DisplayName>,
    participants: Seq<Participant>,
    sessions: Seq<Session>,
)
    requires
        describes(item, user, names, participants, sessions),
    ensures
        item.has_consent_on_file <==> exists|i: int, j: int|
            #![trigger participants[i], sessions[j]]
            0 <= i < participants.len() && 0 <= j < sessions.len()
                && participants[i].pseudo_id.text@ == user.pseudo_id.text@
                && participants[i].session_id == sessions[j].id && participants[i].consent_scope
                is Some,
{
    let who = user.pseudo_id@;
    if item.has_consent_on_file {
        let (i, j) = choose|i: int, j: int|
            0 <= i < participants.len() && 0 <= j < sessions.len() && #[trigger] joins(
                participants[i],
                sessions[j],
                who,
            ) && participants[i].consent_scope is Some;
        assert(participants[i].session_id == sessions[j].id);
    }
    if exists|i: int, j: int|
        #![trigger participants[i], sessions[j]]
        0 <= i < participants.len() && 0 <= j < sessions.len() && participants[i].pseudo_id.text@
            == user.pseudo_id.text@ && participants[i].session_id == sessions[j].id
            && participants[i].consent_scope is Some {
        let (i, j) = choose|i: int, j: int|
            #![trigger participants[i], sessions[j]]
            0 <= i < participants.len() && 0 <= j < sessions.len()
                && participants[i].pseudo_id.text@ == user.pseudo_id.text@
                && participants[i].session_id == sessions[j].id && participants[i].consent_scope
                is Some;
        assert(joins(participants[i], sessions[j], who));
    }
}

/// The rows of the detail page stand for the pairs of a participation of the user
/// and a session row that it belongs to: each pair has one row, and each row shows
/// the session's columns and the participation's. There is no title.
pub proof fn law_rows_stand_for_participations(
    participants: Seq<Participant>,
    sessions: Seq<Session>,
    pseudo_id: Seq<char>,
) -> (pairs: Seq<(int, int)>)
    ensures
        pairs.len() == participations(participants, sessions, pseudo_id).len(),
        pairs.no_duplicates(),
        forall|i: int, j: int| #[trigger]
            pairs.contains((i, j)) <==> 0 <= i < participants.len() && 0 <= j < sessions.len()
                && participants[i].pseudo_id.text@ == pseudo_id && participants[i].session_id
                == sessions[j].id,
        forall|k: int|
            0 <= k < pairs.len() ==> {
                let row = #[trigger] participations(participants, sessions, pseudo_id)[k];
                let p = participants[pairs[k].0];
                let s = sessions[pairs[k].1];
                &&& row.session_id == s.id
                &&& row.campaign_name == s.campaign_name
                &&& row.title is None
                &&& row.started_at == s.started_at
                &&& row.ended_at == s.ended_at
                &&& row.status == s.status
                &&& row.consent_scope == p.consent_scope
                &&& row.data_wiped_at == p.data_wiped_at
            },
    decreases participants.len(),
{
    if participants.len() == 0 {
        Seq::empty()
    } else {
        let rest = participants.drop_last();
        let last = participants.len() - 1;
        let p = participants.last();
        let before = law_rows_stand_for_participations(rest, sessions, pseudo_id);
        let rows = participations(participants, sessions, pseudo_id);
        let earlier = participations(rest, sessions, pseudo_id);
        if p.pseudo_id@ == pseudo_id {
            let own = participations_of(p, sessions);
            let at = lemma_places(sessions, crate::db::sessions::session_row(p.session_id));
            let pairs = before + at.map_values(|j: int| (last, j));
            assert forall|i: int, j: int| #[trigger]
                pairs.contains((i, j)) <==> 0 <= i < participants.len() && 0 <= j < sessions.len()
                    && participants[i].pseudo_id.text@ == pseudo_id && participants[i].session_id
                    == sessions[j].id by {
                if pairs.contains((i, j)) {
                    let k = choose|k: int| 0 <= k < pairs.len() && pairs[k] == (i, j);
                    if k < before.len() {
                        assert(before[k] == (i, j));
                        assert(before.contains((i, j)));
                    } else {
                        assert(at[k - before.len()] == j);
                        assert(at.contains(j));
                    }
                }
                if 0 <= i < participants.len() && 0 <= j < sessions.len()
                    && participants[i].pseudo_id.text@ == pseudo_id && participants[i].session_id
                    == sessions[j].id {
                    if i < last {
                        assert(rest[i] == participants[i]);
                        assert(before.contains((i, j)));
                        let k = choose|k: int| 0 <= k < before.len() && before[k] == (i, j);
                        assert(pairs[k] == (i, j));
                    } else {
                        assert(at.contains(j));
                        let k = choose|k: int| 0 <= k < at.len() && at[k] == j;
                        assert(pairs[before.len() + k] == (i, j));
                    }
                }
            }
            assert(pairs.no_duplicates()) by {
                assert forall|a: int, b: int|
                    0 <= a < pairs.len() && 0 <= b < pairs.len() && a != b implies pairs[a]
                    != pairs[b] by {
                    if a < before.len() {
                        assert(before.contains((before[a].0, before[a].1)));
                    }
                    if b < before.len() {
                        assert(before.contains((before[b].0, before[b].1)));
                    }
                }
            }
            assert forall|k: int| 0 <= k < pairs.len() implies {
                let row = #[trigger] rows[k];
                let p = participants[pairs[k].0];
                let s = sessions[pairs[k].1];
                &&& row.session_id == s.id
                &&& row.campaign_name == s.campaign_name
                &&& row.title is None
                &&& row.started_at == s.started_at
                &&& row.ended_at == s.ended_at
                &&& row.status == s.status
                &&& row.consent_scope == p.consent_scope
                &&& row.data_wiped_at == p.data_wiped_at
            } by {
                if k < before.len() {
                    assert(rows[k] == earlier[k]);
                    assert(before.contains((before[k].0, before[k].1)));
                    assert(rest[before[k].0] == participants[before[k].0]);
                } else {
                    assert(rows[k] == own[k - before.len()]);
                }
            }
            pairs
        } else {
            assert forall|i: int, j: int| #[trigger]
                before.contains((i, j)) <==> 0 <= i < participants.len() && 0 <= j
                    < sessions.len() && participants[i].pseudo_id.text@ == pseudo_id
                    && participants[i].session_id == sessions[j].id by {
                if 0 <= i < last {
                    assert(rest[i] == participants[i]);
                }
            }
            assert forall|k: int| 0 <= k < before.len() implies {
                let row = #[trigger] rows[k];
                let p = participants[before[k].0];
                let s = sessions[before[k].1];
                &&& row.session_id == s.id
                &&& row.campaign_name == s.campaign_name
                &&& row.title is None
                &&& row.started_at == s.started_at
                &&& row.ended_at == s.ended_at
                &&& row.status == s.status
                &&& row.consent_scope == p.consent_scope
                &&& row.data_wiped_at == p.data_wiped_at
            } by {
                assert(rows[k] == earlier[k]);
                assert(before.contains((before[k].0, before[k].1)));
                assert(rest[before[k].0] == participants[before[k].0]);
            }
            before
        }
    }
}

/// Where the elements of a filtered sequence stand in the sequence.
proof fn lemma_places<T>(s: Seq<T>, p: spec_fn(T) -> bool) -> (at: Seq<int>)
    ensures
        at.len() == s.filter(p).len(),
        at.no_duplicates(),
        forall|k: int|
            0 <= k < at.len() ==> 0 <= #[trigger] at[k] < s.len() && s[at[k]] == s.filter(p)[k],
        forall|j: int| #[trigger] at.contains(j) <==> 0 <= j < s.len() && p(s[j]),
    decreases s.len(),
{
    reveal(Seq::filter);
    if s.len() == 0 {
        Seq::empty()
    } else {
        let rest = s.drop_last();
        let before = lemma_places(rest, p);
        let last = s.len() - 1;
        assert(s =~= rest.push(s.last()));
        rest.lemma_filter_push(s.last(), p);
        assert forall|k: int| 0 <= k < before.len() implies 0 <= #[trigger] before[k] < last
            && s[before[k]] == rest.filter(p)[k] by {
            assert(rest[before[k]] == s[before[k]]);
        }
        if p(s.last()) {
            let at = before.push(last);
            assert forall|j: int| #[trigger] at.contains(j) <==> 0 <= j < s.len() && p(s[j]) by {
                if at.contains(j) {
                    let k = choose|k: int| 0 <= k < at.len() && at[k] == j;
                    if k < before.len() {
                        assert(before.contains(j));
                        assert(rest[j] == s[j]);
                    }
                }
                if 0 <= j < last && p(s[j]) {
                    assert(rest[j] == s[j]);
                    assert(before.contains(j));
                    let k = choose|k: int| 0 <= k < before.len() && before[k] == j;
                    assert(at[k] == j);
                }
                if j == last {
                    assert(at[before.len() as int] == j);
                }
            }
            at
        } else {
            assert forall|j: int| #[trigger] before.contains(j) <==> 0 <= j < s.len() && p(
                s[j],
            ) by {
                if 0 <= j < last {
                    assert(rest[j] == s[j]);
                }
            }
            before
        }
    }
}

/// The detail page shows the rows of the user's participations, each as often as
/// there are such, and none stands behind one of a session that started earlier.
pub proof fn law_latest_sessions_come_first(
    shown: Seq<ParticipatedSession>,
    participants: Seq<Participant>,
    sessions: Seq<Session>,
    pseudo_id: Seq<char>,
)
    requires
        listing::listing_of(shown, participations(participants, sessions, pseudo_id)),
    ensures
        shown.to_multiset() == participations(participants, sessions, pseudo_id).to_multiset(),
        forall|i: int, j: int|
            #![trigger shown[i], shown[j]]
            0 <= i < j < shown.len() ==> shown[i].started_at.micros >= shown[j].started_at.micros,
{
}

/// Each row of the detail page shows a participation of the user, column by
/// column.
pub proof fn law_each_row_shows_a_participation(
    shown: Seq<ParticipatedSession>,
    participants: Seq<Participant>,
    sessions: Seq<Session>,
    pseudo_id: Seq<char>,
    k: int,
) -> (pair: (int, int))
    requires
        listing::listing_of(shown, participations(participants, sessions, pseudo_id)),
        0 <= k < shown.len(),
    ensures
        0 <= pair.0 < participants.len(),
        0 <= pair.1 < sessions.len(),
        participants[pair.0].pseudo_id.text@ == pseudo_id,
        participants[pair.0].session_id == sessions[pair.1].id,
        shown[k].session_id == sessions[pair.1].id,
        shown[k].campaign_name == sessions[pair.1].campaign_name,
        shown[k].title is None,
        shown[k].started_at == sessions[pair.1].started_at,
        shown[k].ended_at == sessions[pair.1].ended_at,
        shown[k].status == sessions[pair.1].status,
        shown[k].consent_scope == participants[pair.0].consent_scope,
        shown[k].data_wiped_at == participants[pair.0].data_wiped_at,
{
    let rows = participations(participants, sessions, pseudo_id);
    let pairs = law_rows_stand_for_participations(participants, sessions, pseudo_id);
    listing::law_listing_keeps_rows(shown, rows);
    assert(shown.contains(shown[k]));
    let r = choose|r: int| 0 <= r < rows.len() && rows[r] == shown[k];
    assert(pairs.contains((pairs[r].0, pairs[r].1)));
    pairs[r]
}

/// Each participation of the user in a session that is there has a row on the
/// detail page.
pub proof fn law_each_participation_is_shown(
    shown: Seq<ParticipatedSession>,
    participants: Seq<Participant>,
    sessions: Seq<Session>,
    pseudo_id: Seq<char>,
    i: int,
    j: int,
) -> (k: int)
    requires
        listing::listing_of(shown, participations(participants, sessions, pseudo_id)),
        0 <= i < participants.len(),
        0 <= j < sessions.len(),
        participants[i].pseudo_id.text@ == pseudo_id,
        participants[i].session_id == sessions[j].id,
    ensures
        0 <= k < shown.len(),
        shown[k].session_id == sessions[j].id,
        shown[k].campaign_name == sessions[j].campaign_name,
        shown[k].title is None,
        shown[k].started_at == sessions[j].started_at,
        shown[k].ended_at == sessions[j].ended_at,
        shown[k].status == sessions[j].status,
        shown[k].consent_scope == participants[i].consent_scope,
        shown[k].data_wiped_at == participants[i].data_wiped_at,
{
    let rows = participations(participants, sessions, pseudo_id);
    let pairs = law_rows_stand_for_participations(participants, sessions, pseudo_id);
    listing::law_listing_keeps_rows(shown, rows);
    assert(pairs.contains((i, j)));
    let r = choose|r: int| 0 <= r < pairs.len() && pairs[r] == (i, j);
    assert(rows.contains(rows[r]));
    choose|k: int| 0 <= k < shown.len() && shown[k] == rows[r]
}

} // verus!
