//! The user directory. A pseudonym is the primary key; account numbers never
//! land here.

use vstd::prelude::*;

pub use crate::db::admin_views::{
    list_all_with_details, list_sessions_for_user, AdminUserListItem, ParticipatedSession,
};
use crate::db::listing;
use crate::db::listing::Listed;
use crate::db::select;
use crate::error::AppError;
use crate::ids::{PseudoId, Timestamp};

verus! {

#[derive(Debug, PartialEq, Eq)]
pub struct User {
    pub pseudo_id: PseudoId,
    pub is_admin: bool,
    pub data_wiped_at: Option<Timestamp>,
    pub created_at: Timestamp,
}

impl Clone for User {
    fn clone(&self) -> (res: Self)
        ensures
            res == *self,
    {
        User {
            pseudo_id: self.pseudo_id.clone(),
            is_admin: self.is_admin,
            data_wiped_at: self.data_wiped_at,
            created_at: self.created_at,
        }
    }
}

#[derive(Debug, PartialEq, Eq)]
pub struct UpsertUser {
    pub pseudo_id: PseudoId,
}

/// The columns that the table itself fills in when a user is inserted.
#[derive(Clone, Copy, Debug, PartialEq, Eq)]
pub struct Registered {
    pub is_admin: bool,
    pub data_wiped_at: Option<Timestamp>,
    pub created_at: Timestamp,
}

/// The rows of the user `pseudo_id`.
pub open spec fn user_row(pseudo_id: Seq<char>) -> spec_fn(User) -> bool {
    |row: User| row.pseudo_id@ == pseudo_id
}

/// The user `pseudo_id`, if there is one.
pub open spec fn lookup(users: Seq<User>, pseudo_id: Seq<char>) -> Option<User> {
    select::first_where(users, user_row(pseudo_id))
}

/// No two users share a pseudonym.
pub open spec fn keyed(users: Seq<User>) -> bool {
    forall|i: int, j: int|
        #![trigger users[i], users[j]]
        0 <= i < j < users.len() ==> users[i].pseudo_id@ != users[j].pseudo_id@
}

/// The directory after `pseudo_id` was upserted: as it was where the user is
/// known, and else with one more row, filled in by the table.
pub open spec fn upserted(users: Seq<User>, pseudo_id: PseudoId, row: Registered) -> Seq<User> {
    if lookup(users, pseudo_id@) is Some {
        users
    } else {
        users.push(
            User {
                pseudo_id,
                is_admin: row.is_admin,
                data_wiped_at: row.data_wiped_at,
                created_at: row.created_at,
            },
        )
    }
}

/// The directory after the admin flag of `pseudo_id` was set: the flag alone is
/// changed where the user is known, and else a row with that flag is added.
pub open spec fn with_admin(
    users: Seq<User>,
    pseudo_id: PseudoId,
    is_admin: bool,
    row: Registered,
) -> Seq<User> {
    if lookup(users, pseudo_id@) is Some {
        users.map_values(
            |u: User|
                if u.pseudo_id@ == pseudo_id@ {
                    User { is_admin, ..u }
                } else {
                    u
                },
        )
    } else {
        users.push(
            User {
                pseudo_id,
                is_admin,
                data_wiped_at: row.data_wiped_at,
                created_at: row.created_at,
            },
        )
    }
}

impl Listed for User {
    /// Newest first.
    open spec fn comes_before(&self, other: &Self) -> bool {
        self.created_at.micros > other.created_at.micros
    }

    proof fn order_is_transitive(a: &Self, b: &Self, c: &Self) {
    }

    proof fn order_is_asymmetric(a: &Self, b: &Self) {
    }

    fn before(&self, other: &Self) -> (res: bool) {
        self.created_at.micros > other.created_at.micros
    }
}

fn find_user<'a>(users: &'a Vec<User>, pseudo_id: &PseudoId) -> (res: Option<&'a User>)
    ensures
        match res {
            Some(row) => lookup(users@, pseudo_id@) == Some(*row),
            None => lookup(users@, pseudo_id@) is None,
        },
{
    let is_user = |row: &User| -> (b: bool)
        ensures
            b == user_row(pseudo_id@)(*row),
    {
        row.pseudo_id.same(pseudo_id)
    };
    select::find(users, is_user, Ghost(user_row(pseudo_id@)))
}

/// Makes sure that a user is in the directory, and returns the user's row.
pub fn upsert(users: &mut Vec<User>, input: &UpsertUser, row: Registered) -> (res: User)
    ensures
        final(users)@ == upserted(old(users)@, input.pseudo_id, row),
        lookup(final(users)@, input.pseudo_id@) == Some(res),
        keyed(old(users)@) ==> keyed(final(users)@),
{
    let known = match find_user(users, &input.pseudo_id) {
        Some(user) => Some(user.clone()),
        None => None,
    };
    match known {
        Some(user) => user,
        None => {
            let user = User {
                pseudo_id: input.pseudo_id.clone(),
                is_admin: row.is_admin,
                data_wiped_at: row.data_wiped_at,
                created_at: row.created_at,
            };
            proof {
                lemma_added(users@, user);
            }
            users.push(user.clone());
            user
        },
    }
}

/// The user `pseudo_id`.
pub fn get(users: &Vec<User>, pseudo_id: &PseudoId) -> (res: Result<User, AppError>)
    ensures
        match lookup(users@, pseudo_id@) {
            Some(user) => res == Ok::<User, AppError>(user),
            None => res matches Err(AppError::NotFound(message)) && message@ == "user "@
                + pseudo_id@ + " not found"@,
        },
        res matches Ok(user) ==> users@.contains(user) && user.pseudo_id.text@
            == pseudo_id.text@,
        res is Ok <==> exists|i: int|
            0 <= i < users@.len() && (#[trigger] users@[i]).pseudo_id.text@ == pseudo_id.text@,
{
    proof {
        law_lookup_goes_by_the_pseudonym(users@, pseudo_id@);
    }
    match find_user(users, pseudo_id) {
        Some(user) => Ok(user.clone()),
        None => Err(
            AppError::NotFound("user ".to_owned().concat(pseudo_id.as_str()).concat(" not found")),
        ),
    }
}

/// Every user, newest first.
pub fn list_all(users: &Vec<User>) -> (res: Vec<User>)
    ensures
        listing::listing_of(res@, users@),
        res@.to_multiset() == users@.to_multiset(),
        forall|i: int, j: int|
            #![trigger res@[i], res@[j]]
            0 <= i < j < res@.len() ==> res@[i].created_at.micros >= res@[j].created_at.micros,
{
    let mut rows: Vec<User> = Vec::new();
    let mut i: usize = 0;
    while i < users.len()
        invariant
            i <= users@.len(),
            rows@ == users@.take(i as int),
        decreases users@.len() - i,
    {
        rows.push(users[i].clone());
        i = i + 1;
        assert(rows@ =~= users@.take(i as int));
    }
    assert(rows@ =~= users@);
    listing::listing(rows)
}

/// Grants or withdraws a user's admin rights, and returns the user's row.
pub fn set_admin(
    users: &mut Vec<User>,
    pseudo_id: &PseudoId,
    is_admin: bool,
    row: Registered,
) -> (res: User)
    ensures
        final(users)@ == with_admin(old(users)@, *pseudo_id, is_admin, row),
        lookup(final(users)@, pseudo_id@) == Some(res),
        keyed(old(users)@) ==> keyed(final(users)@),
{
    let ghost before = users@;
    let known = match find_user(users, pseudo_id) {
        Some(user) => Some(user.clone()),
        None => None,
    };
    match known {
        Some(user) => {
            let mut i: usize = 0;
            while i < users.len()
                invariant
                    i <= users@.len(),
                    users@.len() == before.len(),
                    lookup(before, pseudo_id@) is Some,
                    forall|j: int|
                        0 <= j < i ==> users@[j] == with_admin(
                            before,
                            *pseudo_id,
                            is_admin,
                            row,
                        )[j],
                    forall|j: int| i <= j < users@.len() ==> users@[j] == before[j],
                decreases users@.len() - i,
            {
                if users[i].pseudo_id.same(pseudo_id) {
                    let mut user = users[i].clone();
                    user.is_admin = is_admin;
                    users.set(i, user);
                }
                i = i + 1;
            }
            proof {
                assert(users@ =~= with_admin(before, *pseudo_id, is_admin, row));
                lemma_flagged(before, *pseudo_id, is_admin, row);
            }
            let mut user = user;
            user.is_admin = is_admin;
            user
        },
        None => {
            let user = User {
                pseudo_id: pseudo_id.clone(),
                is_admin,
                data_wiped_at: row.data_wiped_at,
                created_at: row.created_at,
            };
            proof {
                lemma_added(users@, user);
            }
            users.push(user.clone());
            user
        },
    }
}

/// A user who is added under a new pseudonym is found under it, and everyone
/// else as before.
proof fn lemma_added(users: Seq<User>, user: User)
    requires
        lookup(users, user.pseudo_id@) is None,
    ensures
        lookup(users.push(user), user.pseudo_id@) == Some(user),
        keyed(users) ==> keyed(users.push(user)),
        forall|other: Seq<char>|
            other != user.pseudo_id@ ==> #[trigger] lookup(users.push(user), other) == lookup(
                users,
                other,
            ),
{
    let table = users.push(user);
    select::lemma_first_where(users, user_row(user.pseudo_id@));
    assert forall|j: int| 0 <= j < users.len() implies !user_row(user.pseudo_id@)(
        #[trigger] table[j],
    ) by {
        assert(table[j] == users[j]);
    }
    select::lemma_first_where_skip(table, user_row(user.pseudo_id@), users.len() as int);
    assert(table.skip(users.len() as int) =~= seq![user]);
    assert forall|other: Seq<char>| other != user.pseudo_id@ implies #[trigger] lookup(
        table,
        other,
    ) == lookup(users, other) by {
        lemma_added_keeps(users, user, other);
    }
}

proof fn lemma_added_keeps(users: Seq<User>, user: User, other: Seq<char>)
    requires
        other != user.pseudo_id@,
    ensures
        lookup(users.push(user), other) == lookup(users, other),
    decreases users.len(),
{
    if users.len() > 0 {
        lemma_added_keeps(users.drop_first(), user, other);
        assert(users.push(user).drop_first() =~= users.drop_first().push(user));
    } else {
        reveal_with_fuel(select::first_where, 2);
        assert(users.push(user).drop_first() =~= users);
    }
}

/// Setting the flag of a known user changes that flag and nothing else.
proof fn lemma_flagged(users: Seq<User>, pseudo_id: PseudoId, is_admin: bool, row: Registered)
    requires
        lookup(users, pseudo_id@) is Some,
    ensures
        ({
            let after = with_admin(users, pseudo_id, is_admin, row);
            &&& lookup(after, pseudo_id@) == Some(User { is_admin, ..lookup(users, pseudo_id@)->0 })
            &&& forall|other: Seq<char>|
                other != pseudo_id@ ==> #[trigger] lookup(after, other) == lookup(users, other)
            &&& keyed(users) ==> keyed(after)
        }),
{
    let f = |u: User|
        if u.pseudo_id@ == pseudo_id@ {
            User { is_admin, ..u }
        } else {
            u
        };
    lemma_mapped(users, pseudo_id@, is_admin, f, pseudo_id@);
    assert forall|other: Seq<char>| other != pseudo_id@ implies #[trigger] lookup(
        users.map_values(f),
        other,
    ) == lookup(users, other) by {
        lemma_mapped(users, pseudo_id@, is_admin, f, other);
        select::lemma_first_where(users, user_row(other));
    }
    select::lemma_first_where(users, user_row(pseudo_id@));
    assert(with_admin(users, pseudo_id, is_admin, row) =~= users.map_values(f));
}

proof fn lemma_mapped(
    users: Seq<User>,
    pseudo_id: Seq<char>,
    is_admin: bool,
    f: spec_fn(User) -> User,
    sought: Seq<char>,
)
    requires
        forall|u: User|
            #[trigger] f(u) == (if u.pseudo_id@ == pseudo_id {
                User { is_admin, ..u }
            } else {
                u
            }),
    ensures
        lookup(users.map_values(f), sought) == (match lookup(users, sought) {
            Some(u) => Some(f(u)),
            None => None,
        }),
    decreases users.len(),
{
    if users.len() > 0 {
        lemma_mapped(users.drop_first(), pseudo_id, is_admin, f, sought);
        assert(users.map_values(f).drop_first() =~= users.drop_first().map_values(f));
        assert(users.map_values(f)[0] == f(users[0]));
    }
}

/// Whoever is upserted is then in the directory: a known user as before, a new
/// one as the table registered the row.
pub proof fn law_upserted_user_is_found(users: Seq<User>, pseudo_id: PseudoId, row: Registered)
    ensures
        lookup(upserted(users, pseudo_id, row), pseudo_id@) == (match lookup(users, pseudo_id@) {
            Some(user) => Some(user),
            None => Some(
                User {
                    pseudo_id,
                    is_admin: row.is_admin,
                    data_wiped_at: row.data_wiped_at,
                    created_at: row.created_at,
                },
            ),
        }),
{
    if lookup(users, pseudo_id@) is None {
        lemma_added(
            users,
            User {
                pseudo_id,
                is_admin: row.is_admin,
                data_wiped_at: row.data_wiped_at,
                created_at: row.created_at,
            },
        );
    }
}

/// Upserting a user again changes nothing.
pub proof fn law_upsert_is_idempotent(
    users: Seq<User>,
    pseudo_id: PseudoId,
    first: Registered,
    second: Registered,
)
    ensures
        upserted(upserted(users, pseudo_id, first), pseudo_id, second) == upserted(
            users,
            pseudo_id,
            first,
        ),
{
    law_upserted_user_is_found(users, pseudo_id, first);
}

/// Upserting one user changes no other.
pub proof fn law_upsert_leaves_others(
    users: Seq<User>,
    pseudo_id: PseudoId,
    row: Registered,
    other: Seq<char>,
)
    requires
        other != pseudo_id@,
    ensures
        lookup(upserted(users, pseudo_id, row), other) == lookup(users, other),
{
    if lookup(users, pseudo_id@) is None {
        lemma_added_keeps(
            users,
            User {
                pseudo_id,
                is_admin: row.is_admin,
                data_wiped_at: row.data_wiped_at,
                created_at: row.created_at,
            },
            other,
        );
    }
}

/// The admin flag that was set is the one that is read back, and a known user's
/// other columns are as before.
pub proof fn law_admin_flag_is_read_back(
    users: Seq<User>,
    pseudo_id: PseudoId,
    is_admin: bool,
    row: Registered,
)
    ensures
        lookup(with_admin(users, pseudo_id, is_admin, row), pseudo_id@) == (match lookup(
            users,
            pseudo_id@,
        ) {
            Some(user) => Some(User { is_admin, ..user }),
            None => Some(
                User {
                    pseudo_id,
                    is_admin,
                    data_wiped_at: row.data_wiped_at,
                    created_at: row.created_at,
                },
            ),
        }),
{
    if lookup(users, pseudo_id@) is None {
        lemma_added(
            users,
            User {
                pseudo_id,
                is_admin,
                data_wiped_at: row.data_wiped_at,
                created_at: row.created_at,
            },
        );
    } else {
        lemma_flagged(users, pseudo_id, is_admin, row);
    }
}

/// Setting one user's admin flag changes no other user.
pub proof fn law_set_admin_leaves_others(
    users: Seq<User>,
    pseudo_id: PseudoId,
    is_admin: bool,
    row: Registered,
    other: Seq<char>,
)
    requires
        other != pseudo_id@,
    ensures
        lookup(with_admin(users, pseudo_id, is_admin, row), other) == lookup(users, other),
{
    if lookup(users, pseudo_id@) is None {
        lemma_added_keeps(
            users,
            User {
                pseudo_id,
                is_admin,
                data_wiped_at: row.data_wiped_at,
                created_at: row.created_at,
            },
            other,
        );
    } else {
        lemma_flagged(users, pseudo_id, is_admin, row);
    }
}

/// Of two settings of a user's admin flag, the later one holds.
pub proof fn law_last_admin_flag_holds(
    users: Seq<User>,
    pseudo_id: PseudoId,
    first: bool,
    second: bool,
    row: Registered,
    later_row: Registered,
)
    ensures
        with_admin(with_admin(users, pseudo_id, first, row), pseudo_id, second, later_row)
            == with_admin(users, pseudo_id, second, row),
{
    law_admin_flag_is_read_back(users, pseudo_id, first, row);
    let once = with_admin(users, pseudo_id, first, row);
    if lookup(users, pseudo_id@) is None {
        select::lemma_first_where(users, user_row(pseudo_id@));
    }
    assert(with_admin(once, pseudo_id, second, later_row) =~= with_admin(
        users,
        pseudo_id,
        second,
        row,
    ));
}

/// Upserting changes no row of a known user, the admin flag included.
pub proof fn law_upsert_keeps_known_users(
    users: Seq<User>,
    pseudo_id: PseudoId,
    row: Registered,
    who: Seq<char>,
)
    ensures
        lookup(users, who) matches Some(user) ==> lookup(
            upserted(users, pseudo_id, row),
            who,
        ) == Some(user),
{
    if who == pseudo_id@ {
        law_upserted_user_is_found(users, pseudo_id, row);
    } else {
        law_upsert_leaves_others(users, pseudo_id, row, who);
    }
}


/// Whoever is looked up under a pseudonym has that pseudonym and is in the
/// directory; nobody is found if and only if nobody has it.
pub proof fn law_lookup_goes_by_the_pseudonym(users: Seq<User>, pseudo_id: Seq<char>)
    ensures
        lookup(users, pseudo_id) matches Some(user) ==> users.contains(user)
            && user.pseudo_id.text@ == pseudo_id,
        lookup(users, pseudo_id) is Some <==> exists|i: int|
            0 <= i < users.len() && (#[trigger] users[i]).pseudo_id.text@ == pseudo_id,
{
    select::lemma_first_where(users, user_row(pseudo_id));
    if lookup(users, pseudo_id) is Some {
        let i = select::lemma_first_where_place(users, user_row(pseudo_id));
        assert(users[i].pseudo_id.text@ == pseudo_id);
    } else {
        assert forall|i: int| 0 <= i < users.len() implies (#[trigger] users[i]).pseudo_id.text@
            != pseudo_id by {
            assert(!user_row(pseudo_id)(users[i]));
        }
    }
}

/// Where no two users share a pseudonym, each is found under their own.
pub proof fn law_every_user_is_found(users: Seq<User>, i: int)
    requires
        0 <= i < users.len(),
        forall|j: int|
            0 <= j < users.len() && j != i ==> (#[trigger] users[j]).pseudo_id.text@
                != users[i].pseudo_id.text@,
    ensures
        lookup(users, users[i].pseudo_id.text@) == Some(users[i]),
{
    select::law_first_where_is_first(users, user_row(users[i].pseudo_id@), i);
}

/// Upserting a known user leaves the directory as it is. Upserting a new one adds
/// a row at its end, with the pseudonym and what the table filled in, and leaves
/// all others.
pub proof fn law_upsert_adds_at_most_a_row(users: Seq<User>, pseudo_id: PseudoId, row: Registered)
    ensures
        ({
            let after = upserted(users, pseudo_id, row);
            let known = exists|i: int|
                0 <= i < users.len() && (#[trigger] users[i]).pseudo_id.text@
                    == pseudo_id.text@;
            &&& known ==> after == users
            &&& !known ==> {
                &&& after.len() == users.len() + 1
                &&& after.drop_last() == users
                &&& after.last().pseudo_id == pseudo_id
                &&& after.last().is_admin == row.is_admin
                &&& after.last().data_wiped_at == row.data_wiped_at
                &&& after.last().created_at == row.created_at
            }
        }),
{
    law_lookup_goes_by_the_pseudonym(users, pseudo_id@);
    if lookup(users, pseudo_id@) is None {
        assert(upserted(users, pseudo_id, row).drop_last() =~= users);
    }
}

/// Setting a known user's admin flag changes that flag, and no other column and
/// no other row. For a new user a row with that flag is added at the end, and all
/// others are left.
pub proof fn law_set_admin_changes_one_column(
    users: Seq<User>,
    pseudo_id: PseudoId,
    is_admin: bool,
    row: Registered,
)
    ensures
        ({
            let after = with_admin(users, pseudo_id, is_admin, row);
            let known = exists|i: int|
                0 <= i < users.len() && (#[trigger] users[i]).pseudo_id.text@
                    == pseudo_id.text@;
            &&& known ==> after.len() == users.len() && forall|i: int|
                0 <= i < users.len() ==> {
                    &&& (#[trigger] after[i]).pseudo_id == users[i].pseudo_id
                    &&& after[i].data_wiped_at == users[i].data_wiped_at
                    &&& after[i].created_at == users[i].created_at
                    &&& users[i].pseudo_id.text@ == pseudo_id.text@ ==> after[i].is_admin
                        == is_admin
                    &&& users[i].pseudo_id.text@ != pseudo_id.text@ ==> after[i].is_admin
                        == users[i].is_admin
                }
            &&& !known ==> {
                &&& after.len() == users.len() + 1
                &&& after.drop_last() == users
                &&& after.last().pseudo_id == pseudo_id
                &&& after.last().is_admin == is_admin
                &&& after.last().data_wiped_at == row.data_wiped_at
                &&& after.last().created_at == row.created_at
            }
        }),
{
    law_lookup_goes_by_the_pseudonym(users, pseudo_id@);
    if lookup(users, pseudo_id@) is None {
        assert(with_admin(users, pseudo_id, is_admin, row).drop_last() =~= users);
    }
}

/// A listing of users shows each as often as the directory holds them, and none
/// stands behind one that is older.
pub proof fn law_users_are_listed_newest_first(listed: Seq<User>, users: Seq<User>)
    requires
        listing::listing_of(listed, users),
    ensures
        listed.to_multiset() == users.to_multiset(),
        forall|i: int, j: int|
            #![trigger listed[i], listed[j]]
            0 <= i < j < listed.len() ==> listed[i].created_at.micros
                >= listed[j].created_at.micros,
{
}

} // verus!
