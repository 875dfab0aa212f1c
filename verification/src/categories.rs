//! Categories: the entity, its store, and the operations the routes of
//! the category resource are answered with.

use crate::database::Database;
use crate::error::AppError;
use crate::identity::fresh_id;
use crate::identity::is_random_uuid;
use crate::status::STATUS_CREATED;
use crate::status::STATUS_NO_CONTENT;
use crate::status::STATUS_OK;
use vstd::prelude::*;

verus! {

/// A category of expenses: an identifier, fixed at creation, and a name.
#[derive(Clone, Debug, PartialEq, Eq)]
pub struct Category {
    pub id: u128,
    pub name: String,
}

/// What a category is created from. Any name is taken, the empty one too.
#[derive(Clone, Debug, PartialEq, Eq)]
pub struct NewCategory {
    pub name: String,
}

/// The envelope of a single category on the wire.
#[derive(Clone, Debug, PartialEq, Eq)]
pub struct CategoryBody<T> {
    pub category: T,
}

/// The envelope of a listing of categories on the wire.
#[derive(Clone, Debug, PartialEq, Eq)]
pub struct CategoriesBody<T> {
    pub categories: Vec<T>,
}

/// The store that owns the categories.
///
/// Its view maps the identifier of each category it holds to that category's
/// name.
pub struct CategoryStore {
    db: Database<String>,
}

impl View for CategoryStore {
    type V = Map<u128, Seq<char>>;

    closed spec fn view(&self) -> Map<u128, Seq<char>> {
        self.db@.map_values(|name: String| name@)
    }
}

impl CategoryStore {
    /// Every identifier the store has given to a category so far, deleted
    /// categories included.
    pub closed spec fn issued(&self) -> Set<u128> {
        self.db.issued()
    }

    /// `category` is the category that the store holds under `category.id`.
    pub open spec fn holds(&self, category: Category) -> bool {
        self@.contains_key(category.id) && self@[category.id] == category.name@
    }

    /// What creating a category named `name` under the candidate identifier
    /// `id` does: a candidate that was never issued is accepted, the category
    /// is stored and returned; any other is refused as a storage failure
    /// and nothing changes.
    pub open spec fn create_with_id_outcome(
        &self,
        after: &CategoryStore,
        id: u128,
        name: Seq<char>,
        res: Result<Category, AppError>,
    ) -> bool {
        match res {
            Ok(category) => {
                &&& !self.issued().contains(id)
                &&& !self@.contains_key(id)
                &&& category.id == id
                &&& category.name@ == name
                &&& after@ == self@.insert(id, name)
                &&& after.issued() == self.issued().insert(id)
            },
            Err(error) => {
                &&& self.issued().contains(id)
                &&& error is Database
                &&& after@ == self@
                &&& after.issued() == self.issued()
            },
        }
    }

    /// What creating a category named `name` does, whichever identifier was
    /// drawn for it.
    pub open spec fn create_outcome(
        &self,
        after: &CategoryStore,
        name: Seq<char>,
        res: Result<Category, AppError>,
    ) -> bool {
        exists|id: u128|
            is_random_uuid(id) && #[trigger] self.create_with_id_outcome(after, id, name, res)
    }

    /// What reading `id` answers: the stored category, or `NotFound`.
    pub open spec fn get_outcome(&self, id: u128, res: Result<Category, AppError>) -> bool {
        match res {
            Ok(category) => category.id == id && self.holds(category),
            Err(error) => !self@.contains_key(id) && error is NotFound,
        }
    }

    /// What deleting `id` does: a stored category is removed, a missing one
    /// is reported as `NotFound`. No identifier is ever given back.
    pub open spec fn delete_outcome(
        &self,
        after: &CategoryStore,
        id: u128,
        res: Result<(), AppError>,
    ) -> bool {
        &&& after@ == self@.remove(id)
        &&& after.issued() == self.issued()
        &&& match res {
            Ok(_) => self@.contains_key(id) && self.issued().contains(id),
            Err(error) => !self@.contains_key(id) && error is NotFound,
        }
    }

    /// `categories` is a snapshot of the store: every stored category, once.
    pub open spec fn list_outcome(&self, categories: Seq<Category>) -> bool {
        &&& categories.len() == self@.len()
        &&& forall|i: int| 0 <= i < categories.len() ==> self.holds(#[trigger] categories[i])
        &&& forall|i: int, j: int|
            0 <= i < j < categories.len() ==> (#[trigger] categories[i]).id
                != (#[trigger] categories[j]).id
        &&& forall|id: u128| #[trigger]
            self@.contains_key(id) ==> exists|i: int|
                0 <= i < categories.len() && (#[trigger] categories[i]).id == id
    }

    /// A store without categories that has issued no identifier.
    pub fn new() -> (store: CategoryStore)
        ensures
            store@ == Map::<u128, Seq<char>>::empty(),
            store.issued() == Set::<u128>::empty(),
    {
        let store = CategoryStore { db: Database::new() };
        store
    }

    /// Creates a category under a freshly drawn identifier. Should the draw
    /// hit an identifier that was issued before, the creation is refused
    /// as a storage failure.
    pub fn create(&mut self, input: NewCategory) -> (res: Result<Category, AppError>)
        ensures
            old(self).create_outcome(final(self), input.name@, res),
    {
        let id = fresh_id();
        let res = self.create_with_id(id, input);
        res
    }

    /// Creates a category under the candidate identifier `id`.
    pub fn create_with_id(&mut self, id: u128, input: NewCategory) -> (res: Result<
        Category,
        AppError,
    >)
        ensures
            old(self).create_with_id_outcome(final(self), id, input.name@, res),
    {
        let name = input.name.clone();
        if self.db.insert(id, input.name) {
            assert(self@ =~= old(self)@.insert(id, name@));
            Ok(Category { id, name })
        } else {
            Err(AppError::Database(String::from_str("identifier was issued before")))
        }
    }

    /// Whether a category is stored under `id`.
    pub fn contains(&self, id: u128) -> (found: bool)
        ensures
            found == self@.contains_key(id),
    {
        self.db.contains(id)
    }

    /// A copy of the category stored under `id`.
    pub fn get(&self, id: u128) -> (res: Result<Category, AppError>)
        ensures
            self.get_outcome(id, res),
    {
        match self.db.get(id) {
            Some(name) => Ok(Category { id, name: name.clone() }),
            None => Err(AppError::NotFound),
        }
    }

    /// Removes the category stored under `id`.
    pub fn delete(&mut self, id: u128) -> (res: Result<(), AppError>)
        ensures
            old(self).delete_outcome(final(self), id, res),
    {
        let removed = self.db.remove(id);
        assert(self@ =~= old(self)@.remove(id));
        match removed {
            Some(_) => Ok(()),
            None => Err(AppError::NotFound),
        }
    }

    /// Copies of all categories, in no particular order.
    pub fn list(&self) -> (categories: Vec<Category>)
        ensures
            self.list_outcome(categories@),
    {
        let ids = self.db.ids();
        let mut categories: Vec<Category> = Vec::new();
        let mut i: usize = 0;
        while i < ids.len()
            invariant
                i <= ids.len(),
                categories@.len() == i,
                ids@.to_set() == self.db@.dom(),
                forall|j: int|
                    0 <= j < i ==> (#[trigger] categories@[j]).id == ids@[j] && self.holds(
                        categories@[j],
                    ),
            decreases ids.len() - i,
        {
            let id = ids[i];
            match self.db.get(id) {
                Some(name) => {
                    categories.push(Category { id, name: name.clone() });
                },
                None => {
                    assert(false);
                },
            }
            i = i + 1;
        }
        proof {
            assert(self@.dom() =~= self.db@.dom());
            assert forall|id: u128| #[trigger] self@.contains_key(id) implies exists|k: int|
                0 <= k < categories@.len() && (#[trigger] categories@[k]).id == id by {
                let k = choose|k: int| 0 <= k < ids@.len() && ids@[k] == id;
                assert(categories@[k].id == id);
            }
        }
        categories
    }
}

impl CategoryStore {
    /// `id` was given to a category once and the category is gone.
    pub open spec fn retired(&self, id: u128) -> bool {
        self.issued().contains(id) && !self@.contains_key(id)
    }

    /// Reading is repeatable: two reads of one identifier from one
    /// store agree, on the category or on its absence.
    pub proof fn law_get_is_repeatable(
        &self,
        id: u128,
        first: Result<Category, AppError>,
        second: Result<Category, AppError>,
    )
        requires
            self.get_outcome(id, first),
            self.get_outcome(id, second),
        ensures
            first is Ok <==> second is Ok,
            first matches Ok(a) ==> second matches Ok(b) && a.id == b.id && a.name@ == b.name@,
            first matches Err(a) ==> second matches Err(b) && a is NotFound && b is NotFound,
    {
    }

    /// Once a delete of `id` has succeeded, a read of `id` finds
    /// nothing.
    pub proof fn law_delete_then_get(
        &self,
        after: &CategoryStore,
        id: u128,
        found: Result<Category, AppError>,
    )
        requires
            self.delete_outcome(after, id, Ok(())),
            after.get_outcome(id, found),
        ensures
            after.retired(id),
            found matches Err(error) && error is NotFound,
    {
    }

    /// A creation leaves a retired identifier retired.
    pub proof fn law_retired_survives_create(
        &self,
        after: &CategoryStore,
        id: u128,
        candidate: u128,
        name: Seq<char>,
        created: Result<Category, AppError>,
    )
        requires
            self.retired(id),
            self.create_with_id_outcome(after, candidate, name, created),
        ensures
            after.retired(id),
    {
    }

    /// A deletion leaves a retired identifier retired.
    pub proof fn law_retired_survives_delete(
        &self,
        after: &CategoryStore,
        id: u128,
        other: u128,
        deleted: Result<(), AppError>,
    )
        requires
            self.retired(id),
            self.delete_outcome(after, other, deleted),
        ensures
            after.retired(id),
    {
    }

    /// A read of a retired identifier finds nothing.
    pub proof fn law_retired_is_not_found(&self, id: u128, found: Result<Category, AppError>)
        requires
            self.retired(id),
            self.get_outcome(id, found),
        ensures
            found matches Err(error) && error is NotFound,
    {
    }

    /// Two creations in a row, even from equal input, give categories with
    /// different identifiers, and the store then holds both.
    pub proof fn law_create_twice(
        &self,
        between: &CategoryStore,
        after: &CategoryStore,
        name: Seq<char>,
        first: Category,
        second: Category,
    )
        requires
            self.create_outcome(between, name, Ok(first)),
            between.create_outcome(after, name, Ok(second)),
        ensures
            first.id != second.id,
            after.holds(first),
            after.holds(second),
    {
    }
}

/// The identifiers of `categories`, in their order.
pub open spec fn ids_of(categories: Seq<Category>) -> Seq<u128> {
    categories.map_values(|category: Category| category.id)
}

/// No creation collides with another and none is lost: after a run of
/// successful creations that starts on a store without categories, the store
/// holds exactly the categories created, and no two of them share an
/// identifier. `stores[i]` is the store before the creation of
/// `created[i]`, and `stores[i + 1]` the store after it.
pub proof fn law_creations_keep_apart(
    stores: Seq<CategoryStore>,
    names: Seq<Seq<char>>,
    created: Seq<Category>,
)
    requires
        stores.len() == created.len() + 1,
        names.len() == created.len(),
        stores[0]@ == Map::<u128, Seq<char>>::empty(),
        forall|i: int|
            0 <= i < created.len() ==> (#[trigger] stores[i]).create_outcome(
                &stores[i + 1],
                names[i],
                Ok(created[i]),
            ),
    ensures
        ids_of(created).no_duplicates(),
        stores.last()@.dom() == ids_of(created).to_set(),
        stores.last()@.len() == created.len(),
        forall|i: int| 0 <= i < created.len() ==> stores.last().holds(#[trigger] created[i]),
        ids_of(created).to_set().subset_of(stores.last().issued()),
    decreases created.len(),
{
    let n = created.len() as int;
    if n > 0 {
        let after = stores[n];
        let category = created[n - 1];
        let earlier = created.drop_last();
        law_creations_keep_apart(stores.drop_last(), names.drop_last(), earlier);
        assert(ids_of(created) =~= ids_of(earlier).push(category.id));
        ids_of(earlier).lemma_push_to_set_commute(category.id);
        assert forall|i: int| 0 <= i < created.len() implies after.holds(
            #[trigger] created[i],
        ) by {
            if i < n - 1 {
                assert(ids_of(earlier).contains(earlier[i].id));
            }
        }
        ids_of(created).unique_seq_to_set();
    }
}

/// Answers `GET /categories/{id}`: status 200 and the category in its envelope.
pub fn get_category(db: &CategoryStore, id: u128) -> (res: Result<
    (u16, CategoryBody<Category>),
    AppError,
>)
    ensures
        match res {
            Ok((status, body)) => status == STATUS_OK && db.get_outcome(id, Ok(body.category)),
            Err(error) => db.get_outcome(id, Err(error)),
        },
{
    match db.get(id) {
        Ok(category) => Ok((STATUS_OK, CategoryBody { category })),
        Err(error) => Err(error),
    }
}

/// Answers `POST /categories`: status 201 and the new category in its envelope.
pub fn create_category(db: &mut CategoryStore, body: CategoryBody<NewCategory>) -> (res: Result<
    (u16, CategoryBody<Category>),
    AppError,
>)
    ensures
        match res {
            Ok((status, created)) => status == STATUS_CREATED && old(db).create_outcome(
                final(db),
                body.category.name@,
                Ok(created.category),
            ),
            Err(error) => old(db).create_outcome(final(db), body.category.name@, Err(error)),
        },
{
    match db.create(body.category) {
        Ok(category) => Ok((STATUS_CREATED, CategoryBody { category })),
        Err(error) => Err(error),
    }
}

/// Answers `DELETE /categories/{id}`: status 204.
pub fn delete_category(db: &mut CategoryStore, id: u128) -> (res: Result<u16, AppError>)
    ensures
        match res {
            Ok(status) => status == STATUS_NO_CONTENT && old(db).delete_outcome(
                final(db),
                id,
                Ok(()),
            ),
            Err(error) => old(db).delete_outcome(final(db), id, Err(error)),
        },
{
    match db.delete(id) {
        Ok(_) => Ok(STATUS_NO_CONTENT),
        Err(error) => Err(error),
    }
}

/// Answers `GET /categories`: status 200 and all categories in their envelope.
pub fn get_categories(db: &CategoryStore) -> (res: Result<
    (u16, CategoriesBody<Category>),
    AppError,
>)
    ensures
        res matches Ok((status, body)) && status == STATUS_OK && db.list_outcome(
            body.categories@,
        ),
{
    Ok((STATUS_OK, CategoriesBody { categories: db.list() }))
}

} // verus!
