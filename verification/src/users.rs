//! Users: the entity, its store, and the operations the routes of the
//! user resource are answered with.

use crate::database::Database;
use crate::error::AppError;
use crate::identity::fresh_id;
use crate::identity::is_random_uuid;
use crate::status::STATUS_CREATED;
use crate::status::STATUS_NO_CONTENT;
use crate::status::STATUS_OK;
use vstd::prelude::*;

verus! {

/// A user: an identifier, fixed at creation, and a name.
#[derive(Clone, Debug, PartialEq, Eq)]
pub struct User {
    pub id: u128,
    pub name: String,
}

/// What a user is created from. Any name is taken, the empty one too.
#[derive(Clone, Debug, PartialEq, Eq)]
pub struct UserCreate {
    pub name: String,
}

/// The envelope of a single user on the wire.
#[derive(Clone, Debug, PartialEq, Eq)]
pub struct UserBody<T> {
    pub user: T,
}

/// The envelope of a listing of users on the wire.
#[derive(Clone, Debug, PartialEq, Eq)]
pub struct UsersBody<T> {
    pub users: Vec<T>,
}

/// The store that owns the users.
///
/// Its view maps the identifier of each user it holds to that user's
/// name.
pub struct UserStore {
    db: Database<String>,
}

impl View for UserStore {
    type V = Map<u128, Seq<char>>;

    closed spec fn view(&self) -> Map<u128, Seq<char>> {
        self.db@.map_values(|name: String| name@)
    }
}

/// An empty user store.
pub fn database() -> (db: UserStore)
    ensures
        db@ == Map::<u128, Seq<char>>::empty(),
        db.issued() == Set::<u128>::empty(),
{
    UserStore::new()
}

impl UserStore {
    /// Every identifier the store has given to a user so far, deleted
    /// users included.
    pub closed spec fn issued(&self) -> Set<u128> {
        self.db.issued()
    }

    /// `user` is the user that the store holds under `user.id`.
    pub open spec fn holds(&self, user: User) -> bool {
        self@.contains_key(user.id) && self@[user.id] == user.name@
    }

    /// What creating a user named `name` under the candidate identifier
    /// `id` does: a candidate that was never issued is accepted, the user
    /// is stored and returned; any other is refused as a storage failure
    /// and nothing changes.
    pub open spec fn create_with_id_outcome(
        &self,
        after: &UserStore,
        id: u128,
        name: Seq<char>,
        res: Result<User, AppError>,
    ) -> bool {
        match res {
            Ok(user) => {
                &&& !self.issued().contains(id)
                &&& !self@.contains_key(id)
                &&& user.id == id
                &&& user.name@ == name
                &&& after@ == self@.insert(id, name)
                &&& after.issued() == self.issued().insert(id)
            },
            Err(error) => {
                &&& self.issued().contains(id)
                &&& error is Database
                &&& after@ == self@
                &&& after.issued() == self.issued()
            },
        }
    }

    /// What creating a user named `name` does, whichever identifier was
    /// drawn for it.
    pub open spec fn create_outcome(
        &self,
        after: &UserStore,
        name: Seq<char>,
        res: Result<User, AppError>,
    ) -> bool {
        exists|id: u128|
            is_random_uuid(id) && #[trigger] self.create_with_id_outcome(after, id, name, res)
    }

    /// What reading `id` answers: the stored user, or `NotFound`.
    pub open spec fn get_outcome(&self, id: u128, res: Result<User, AppError>) -> bool {
        match res {
            Ok(user) => user.id == id && self.holds(user),
            Err(error) => !self@.contains_key(id) && error is NotFound,
        }
    }

    /// What deleting `id` does: a stored user is removed, a missing one
    /// is reported as `NotFound`. No identifier is ever given back.
    pub open spec fn delete_outcome(
        &self,
        after: &UserStore,
        id: u128,
        res: Result<(), AppError>,
    ) -> bool {
        &&& after@ == self@.remove(id)
        &&& after.issued() == self.issued()
        &&& match res {
            Ok(_) => self@.contains_key(id) && self.issued().contains(id),
            Err(error) => !self@.contains_key(id) && error is NotFound,
        }
    }

    /// `users` is a snapshot of the store: every stored user, once.
    pub open spec fn list_outcome(&self, users: Seq<User>) -> bool {
        &&& users.len() == self@.len()
        &&& forall|i: int| 0 <= i < users.len() ==> self.holds(#[trigger] users[i])
        &&& forall|i: int, j: int|
            0 <= i < j < users.len() ==> (#[trigger] users[i]).id != (#[trigger] users[j]).id
        &&& forall|id: u128| #[trigger]
            self@.contains_key(id) ==> exists|i: int|
                0 <= i < users.len() && (#[trigger] users[i]).id == id
    }

    /// A store without users that has issued no identifier.
    pub fn new() -> (store: UserStore)
        ensures
            store@ == Map::<u128, Seq<char>>::empty(),
            store.issued() == Set::<u128>::empty(),
    {
        let store = UserStore { db: Database::new() };
        store
    }

    /// Creates a user under a freshly drawn identifier. Should the draw
    /// hit an identifier that was issued before, the creation is refused
    /// as a storage failure.
    pub fn create(&mut self, input: UserCreate) -> (res: Result<User, AppError>)
        ensures
            old(self).create_outcome(final(self), input.name@, res),
    {
        let id = fresh_id();
        let res = self.create_with_id(id, input);
        res
    }

    /// Creates a user under the candidate identifier `id`.
    pub fn create_with_id(&mut self, id: u128, input: UserCreate) -> (res: Result<User, AppError>)
        ensures
            old(self).create_with_id_outcome(final(self), id, input.name@, res),
    {
        let name = input.name.clone();
        if self.db.insert(id, input.name) {
            assert(self@ =~= old(self)@.insert(id, name@));
            Ok(User { id, name })
        } else {
            Err(AppError::Database(String::from_str("identifier was issued before")))
        }
    }

    /// Whether a user is stored under `id`.
    pub fn contains(&self, id: u128) -> (found: bool)
        ensures
            found == self@.contains_key(id),
    {
        self.db.contains(id)
    }

    /// A copy of the user stored under `id`.
    pub fn get(&self, id: u128) -> (res: Result<User, AppError>)
        ensures
            self.get_outcome(id, res),
    {
        match self.db.get(id) {
            Some(name) => Ok(User { id, name: name.clone() }),
            None => Err(AppError::NotFound),
        }
    }

    /// Removes the user stored under `id`.
    pub fn delete(&mut self, id: u128) -> (res: Result<(), AppError>)
        ensures
            old(self).delete_outcome(final(self), id, res),
    {
        let removed = self.db.remove(id);
        assert(self@ =~= old(self)@.remove(id));
        match removed {
            Some(_) => Ok(()),
            None => Err(AppError::NotFound),
        }
    }

    /// Copies of all users, in no particular order.
    pub fn list(&self) -> (users: Vec<User>)
        ensures
            self.list_outcome(users@),
    {
        let ids = self.db.ids();
        let mut users: Vec<User> = Vec::new();
        let mut i: usize = 0;
        while i < ids.len()
            invariant
                i <= ids.len(),
                users@.len() == i,
                ids@.to_set() == self.db@.dom(),
                forall|j: int|
                    0 <= j < i ==> (#[trigger] users@[j]).id == ids@[j] && self.holds(users@[j]),
            decreases ids.len() - i,
        {
            let id = ids[i];
            match self.db.get(id) {
                Some(name) => {
                    users.push(User { id, name: name.clone() });
                },
                None => {
                    assert(false);
                },
            }
            i = i + 1;
        }
        proof {
            assert(self@.dom() =~= self.db@.dom());
            assert forall|id: u128| #[trigger] self@.contains_key(id) implies exists|k: int|
                0 <= k < users@.len() && (#[trigger] users@[k]).id == id by {
                let k = choose|k: int| 0 <= k < ids@.len() && ids@[k] == id;
                assert(users@[k].id == id);
            }
        }
        users
    }
}

impl UserStore {
    /// `id` was given to a user once and the user is gone.
    pub open spec fn retired(&self, id: u128) -> bool {
        self.issued().contains(id) && !self@.contains_key(id)
    }

    /// Reading is repeatable: two reads of one identifier from one
    /// store agree, on the user or on its absence.
    pub proof fn law_get_is_repeatable(
        &self,
        id: u128,
        first: Result<User, AppError>,
        second: Result<User, AppError>,
    )
        requires
            self.get_outcome(id, first),
            self.get_outcome(id, second),
        ensures
            first is Ok <==> second is Ok,
            first matches Ok(a) ==> second matches Ok(b) && a.id == b.id && a.name@ == b.name@,
            first matches Err(a) ==> second matches Err(b) && a is NotFound && b is NotFound,
    {
    }

    /// Once a delete of `id` has succeeded, a read of `id` finds
    /// nothing.
    pub proof fn law_delete_then_get(
        &self,
        after: &UserStore,
        id: u128,
        found: Result<User, AppError>,
    )
        requires
            self.delete_outcome(after, id, Ok(())),
            after.get_outcome(id, found),
        ensures
            after.retired(id),
            found matches Err(error) && error is NotFound,
    {
    }

    /// A creation leaves a retired identifier retired.
    pub proof fn law_retired_survives_create(
        &self,
        after: &UserStore,
        id: u128,
        candidate: u128,
        name: Seq<char>,
        created: Result<User, AppError>,
    )
        requires
            self.retired(id),
            self.create_with_id_outcome(after, candidate, name, created),
        ensures
            after.retired(id),
    {
    }

    /// A deletion leaves a retired identifier retired.
    pub proof fn law_retired_survives_delete(
        &self,
        after: &UserStore,
        id: u128,
        other: u128,
        deleted: Result<(), AppError>,
    )
        requires
            self.retired(id),
            self.delete_outcome(after, other, deleted),
        ensures
            after.retired(id),
    {
    }

    /// A read of a retired identifier finds nothing.
    pub proof fn law_retired_is_not_found(&self, id: u128, found: Result<User, AppError>)
        requires
            self.retired(id),
            self.get_outcome(id, found),
        ensures
            found matches Err(error) && error is NotFound,
    {
    }

    /// Two creations in a row, even from equal input, give users with
    /// different identifiers, and the store then holds both.
    pub proof fn law_create_twice(
        &self,
        between: &UserStore,
        after: &UserStore,
        name: Seq<char>,
        first: User,
        second: User,
    )
        requires
            self.create_outcome(between, name, Ok(first)),
            between.create_outcome(after, name, Ok(second)),
        ensures
            first.id != second.id,
            after.holds(first),
            after.holds(second),
    {
    }
}

/// The identifiers of `users`, in their order.
pub open spec fn ids_of(users: Seq<User>) -> Seq<u128> {
    users.map_values(|user: User| user.id)
}

/// No creation collides with another and none is lost: after a run of
/// successful creations that starts on a store without users, the store
/// holds exactly the users created, and no two of them share an
/// identifier. `stores[i]` is the store before the creation of
/// `created[i]`, and `stores[i + 1]` the store after it.
pub proof fn law_creations_keep_apart(
    stores: Seq<UserStore>,
    names: Seq<Seq<char>>,
    created: Seq<User>,
)
    requires
        stores.len() == created.len() + 1,
        names.len() == created.len(),
        stores[0]@ == Map::<u128, Seq<char>>::empty(),
        forall|i: int|
            0 <= i < created.len() ==> (#[trigger] stores[i]).create_outcome(
                &stores[i + 1],
                names[i],
                Ok(created[i]),
            ),
    ensures
        ids_of(created).no_duplicates(),
        stores.last()@.dom() == ids_of(created).to_set(),
        stores.last()@.len() == created.len(),
        forall|i: int| 0 <= i < created.len() ==> stores.last().holds(#[trigger] created[i]),
        ids_of(created).to_set().subset_of(stores.last().issued()),
    decreases created.len(),
{
    let n = created.len() as int;
    if n > 0 {
        let after = stores[n];
        let user = created[n - 1];
        let earlier = created.drop_last();
        law_creations_keep_apart(stores.drop_last(), names.drop_last(), earlier);
        assert(ids_of(created) =~= ids_of(earlier).push(user.id));
        ids_of(earlier).lemma_push_to_set_commute(user.id);
        assert forall|i: int| 0 <= i < created.len() implies after.holds(
            #[trigger] created[i],
        ) by {
            if i < n - 1 {
                assert(ids_of(earlier).contains(earlier[i].id));
            }
        }
        ids_of(created).unique_seq_to_set();
    }
}

/// Answers `GET /users/{id}`: status 200 and the user in its envelope.
pub fn get_user(db: &UserStore, id: u128) -> (res: Result<(u16, UserBody<User>), AppError>)
    ensures
        match res {
            Ok((status, body)) => status == STATUS_OK && db.get_outcome(id, Ok(body.user)),
            Err(error) => db.get_outcome(id, Err(error)),
        },
{
    match db.get(id) {
        Ok(user) => Ok((STATUS_OK, UserBody { user })),
        Err(error) => Err(error),
    }
}

/// Answers `POST /users`: status 201 and the new user in its envelope.
pub fn create_user(db: &mut UserStore, body: UserBody<UserCreate>) -> (res: Result<
    (u16, UserBody<User>),
    AppError,
>)
    ensures
        match res {
            Ok((status, created)) => status == STATUS_CREATED && old(db).create_outcome(
                final(db),
                body.user.name@,
                Ok(created.user),
            ),
            Err(error) => old(db).create_outcome(final(db), body.user.name@, Err(error)),
        },
{
    match db.create(body.user) {
        Ok(user) => Ok((STATUS_CREATED, UserBody { user })),
        Err(error) => Err(error),
    }
}

/// Answers `DELETE /users/{id}`: status 204.
pub fn delete_user(db: &mut UserStore, id: u128) -> (res: Result<u16, AppError>)
    ensures
        match res {
            Ok(status) => status == STATUS_NO_CONTENT && old(db).delete_outcome(
                final(db),
                id,
                Ok(()),
            ),
            Err(error) => old(db).delete_outcome(final(db), id, Err(error)),
        },
{
    match db.delete(id) {
        Ok(_) => Ok(STATUS_NO_CONTENT),
        Err(error) => Err(error),
    }
}

/// Answers `GET /users`: status 200 and all users in their envelope.
pub fn get_users(db: &UserStore) -> (res: Result<(u16, UsersBody<User>), AppError>)
    ensures
        res matches Ok((status, body)) && status == STATUS_OK && db.list_outcome(body.users@),
{
    Ok((STATUS_OK, UsersBody { users: db.list() }))
}

} // verus!
