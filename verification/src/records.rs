//! Records of expenses: the entity, the rules a new record must meet,
//! its store, and the operations the routes of the record resource are
//! answered with.

use crate::amount::Amount;
use crate::categories::CategoryStore;
use crate::clock::now;
use crate::clock::Timestamp;
use crate::database::Database;
use crate::error::collect;
use crate::error::pair_views;
use crate::error::AppError;
use crate::identity::fresh_id;
use crate::identity::is_random_uuid;
use crate::status::STATUS_BAD_REQUEST;
use crate::status::STATUS_CREATED;
use crate::status::STATUS_NO_CONTENT;
use crate::status::STATUS_OK;
use crate::users::UserStore;
use vstd::prelude::*;

verus! {

/// An expense: who spent how much on what, and when it was recorded.
#[derive(Clone, Copy, Debug, PartialEq, Eq, Structural)]
pub struct Record {
    pub id: u128,
    pub user_id: u128,
    pub category_id: u128,
    pub created_at: Timestamp,
    pub sum: Amount,
}

/// What a record is created from.
#[derive(Clone, Copy, Debug, PartialEq, Eq, Structural)]
pub struct RecordCreate {
    pub user_id: u128,
    pub category_id: u128,
    pub sum: Amount,
}

/// Restricts a listing to the records of one user, of one category, or
/// of both. An absent field restricts nothing.
#[derive(Clone, Copy, Debug, PartialEq, Eq, Structural)]
pub struct RecordFilterParams {
    pub user_id: Option<u128>,
    pub category_id: Option<u128>,
}

/// The envelope of a single record on the wire.
#[derive(Clone, Debug, PartialEq, Eq)]
pub struct RecordBody<T> {
    pub record: T,
}

/// The envelope of a listing of records on the wire.
#[derive(Clone, Debug, PartialEq, Eq)]
pub struct RecordsBody<T> {
    pub records: Vec<T>,
}

impl RecordCreate {
    /// Whether a record may be created from this input, given whether
    /// its user and its category exist.
    pub open spec fn is_valid(&self, user_exists: bool, category_exists: bool) -> bool {
        user_exists && category_exists && self.sum.is_positive()
    }

    /// The broken rules, each under the name of the field it is about.
    pub open spec fn violations(&self, user_exists: bool, category_exists: bool) -> Map<
        Seq<char>,
        Seq<char>,
    > {
        Map::new(
            |field: Seq<char>|
                {
                    ||| field == "userId"@ && !user_exists
                    ||| field == "categoryId"@ && !category_exists
                    ||| field == "sum"@ && !self.sum.is_positive()
                },
            |field: Seq<char>|
                if field == "userId"@ {
                    "user doesn't exist"@
                } else if field == "categoryId"@ {
                    "category doesn't exist"@
                } else {
                    "sum is not positive"@
                },
        )
    }

    /// The record this input becomes under the given identifier and
    /// creation time.
    pub open spec fn to_record(&self, id: u128, created_at: Timestamp) -> Record {
        Record {
            id,
            user_id: self.user_id,
            category_id: self.category_id,
            created_at,
            sum: self.sum,
        }
    }

    /// Checks every rule and reports all that are broken at once, never
    /// just the first.
    pub fn validate(&self, user_exists: bool, category_exists: bool) -> (res: Result<(), AppError>)
        ensures
            res is Ok <==> self.is_valid(user_exists, category_exists),
            res matches Err(error) ==> {
                &&& error matches AppError::UnprocessableEntity(body)
                &&& body@ == self.violations(user_exists, category_exists)
            },
    {
        let mut errors: Vec<(&'static str, &'static str)> = Vec::new();
        if !user_exists {
            errors.push(("userId", "user doesn't exist"));
        }
        if !category_exists {
            errors.push(("categoryId", "category doesn't exist"));
        }
        if !self.sum.is_positive() {
            errors.push(("sum", "sum is not positive"));
        }
        if errors.len() == 0 {
            Ok(())
        } else {
            proof {
                lemma_field_names_differ();
                reveal_with_fuel(collect, 4);
                assert(collect(pair_views(errors@)) =~= self.violations(
                    user_exists,
                    category_exists,
                ));
            }
            Err(AppError::unprocessable_entity(errors))
        }
    }
}

/// The three field names are three different strings.
pub proof fn lemma_field_names_differ()
    ensures
        "userId"@ != "categoryId"@,
        "userId"@ != "sum"@,
        "categoryId"@ != "sum"@,
{
    reveal_strlit("userId");
    reveal_strlit("categoryId");
    reveal_strlit("sum");
    assert("userId"@.len() == 6);
    assert("categoryId"@.len() == 10);
    assert("sum"@.len() == 3);
}

impl RecordFilterParams {
    /// Whether `record` passes the filter: it matches every field that
    /// is present.
    pub open spec fn spec_matches(&self, record: Record) -> bool {
        &&& self.user_id matches Some(user_id) ==> record.user_id == user_id
        &&& self.category_id matches Some(category_id) ==> record.category_id == category_id
    }

    /// Whether the filter names no field at all.
    pub open spec fn spec_is_empty(&self) -> bool {
        self.user_id is None && self.category_id is None
    }

    /// Whether `record` passes the filter.
    #[verifier::when_used_as_spec(spec_matches)]
    pub fn matches(&self, record: Record) -> (passes: bool)
        ensures
            passes == self.spec_matches(record),
    {
        let user_matches = match self.user_id {
            Some(user_id) => record.user_id == user_id,
            None => true,
        };
        let category_matches = match self.category_id {
            Some(category_id) => record.category_id == category_id,
            None => true,
        };
        user_matches && category_matches
    }

    /// Whether the filter names no field at all.
    #[verifier::when_used_as_spec(spec_is_empty)]
    pub fn is_empty(&self) -> (empty: bool)
        ensures
            empty == self.spec_is_empty(),
    {
        self.user_id.is_none() && self.category_id.is_none()
    }
}

/// Why a listing of records is refused where a filter is demanded.
#[derive(Clone, Copy, Debug, PartialEq, Eq, Structural)]
pub enum RecordError {
    /// The request names neither a user nor a category.
    MissingFilterParams,
}

/// A refused listing as the boundary answers it.
#[derive(Clone, Debug, PartialEq, Eq)]
pub struct RecordErrorResponse {
    pub status: u16,
    pub message: String,
}

impl RecordError {
    /// The text the failure is reported with.
    pub fn message(&self) -> (text: &'static str)
        ensures
            text@ == "At least one filter parameter must be provided"@,
    {
        match self {
            RecordError::MissingFilterParams => "At least one filter parameter must be provided",
        }
    }

    /// Decides how the failure is answered: status 400 and its message.
    pub fn into_response(self) -> (response: RecordErrorResponse)
        ensures
            response.status == STATUS_BAD_REQUEST,
            response.message@ == "At least one filter parameter must be provided"@,
    {
        let status = match self {
            RecordError::MissingFilterParams => STATUS_BAD_REQUEST,
        };
        RecordErrorResponse { status, message: String::from_str(self.message()) }
    }
}

/// The store that owns the records.
///
/// Its view maps the identifier of each record it holds to that record.
/// Every record it holds is stored under its own identifier and has a
/// sum greater than zero. Its user and its category existed when it was
/// created; deleting either later leaves the record as it is.
pub struct RecordStore {
    db: Database<Record>,
}

impl View for RecordStore {
    type V = Map<u128, Record>;

    closed spec fn view(&self) -> Map<u128, Record> {
        self.db@
    }
}

impl RecordStore {
    /// Every identifier the store has given to a record so far, deleted
    /// records included.
    pub closed spec fn issued(&self) -> Set<u128> {
        self.db.issued()
    }

    #[verifier::type_invariant]
    spec fn inv(&self) -> bool {
        forall|id: u128| #[trigger]
            self.db@.contains_key(id) ==> self.db@[id].id == id && self.db@[id].sum.is_positive()
    }

    /// `record` is what the store holds under `record.id`.
    pub open spec fn holds(&self, record: Record) -> bool {
        self@.contains_key(record.id) && self@[record.id] == record
    }

    /// What creating a record from `input` under the candidate
    /// identifier `id` at the time `created_at` does, where
    /// `user_exists` and `category_exists` are the answers of the two
    /// lookups.
    ///
    /// An input that breaks a rule is refused with every broken rule
    /// named, and nothing changes. A valid input under a candidate that
    /// was never issued is stored and returned. A valid input under any
    /// other candidate is refused as a storage failure, and nothing
    /// changes.
    pub open spec fn create_with_id_outcome(
        &self,
        after: &RecordStore,
        id: u128,
        created_at: Timestamp,
        input: RecordCreate,
        user_exists: bool,
        category_exists: bool,
        res: Result<Record, AppError>,
    ) -> bool {
        match res {
            Ok(record) => {
                &&& input.is_valid(user_exists, category_exists)
                &&& !self.issued().contains(id)
                &&& !self@.contains_key(id)
                &&& record == input.to_record(id, created_at)
                &&& after@ == self@.insert(id, record)
                &&& after.issued() == self.issued().insert(id)
            },
            Err(AppError::UnprocessableEntity(body)) => {
                &&& !input.is_valid(user_exists, category_exists)
                &&& body@ == input.violations(user_exists, category_exists)
                &&& after@ == self@
                &&& after.issued() == self.issued()
            },
            Err(AppError::Database(_)) => {
                &&& input.is_valid(user_exists, category_exists)
                &&& self.issued().contains(id)
                &&& after@ == self@
                &&& after.issued() == self.issued()
            },
            Err(AppError::NotFound) => false,
        }
    }

    /// What creating a record from `input` does, whichever identifier
    /// was drawn for it and whatever the clock said.
    pub open spec fn create_outcome(
        &self,
        after: &RecordStore,
        input: RecordCreate,
        user_exists: bool,
        category_exists: bool,
        res: Result<Record, AppError>,
    ) -> bool {
        exists|id: u128, created_at: Timestamp|
            is_random_uuid(id) && #[trigger] self.create_with_id_outcome(
                after,
                id,
                created_at,
                input,
                user_exists,
                category_exists,
                res,
            )
    }

    /// What reading `id` answers: the stored record, or `NotFound`.
    pub open spec fn get_outcome(&self, id: u128, res: Result<Record, AppError>) -> bool {
        match res {
            Ok(record) => record.id == id && self.holds(record),
            Err(error) => !self@.contains_key(id) && error is NotFound,
        }
    }

    /// What deleting `id` does: a stored record is removed, a missing
    /// one is reported as `NotFound`. No identifier is ever given back.
    pub open spec fn delete_outcome(
        &self,
        after: &RecordStore,
        id: u128,
        res: Result<(), AppError>,
    ) -> bool {
        &&& after@ == self@.remove(id)
        &&& after.issued() == self.issued()
        &&& match res {
            Ok(_) => self@.contains_key(id) && self.issued().contains(id),
            Err(error) => !self@.contains_key(id) && error is NotFound,
        }
    }

    /// `records` is a snapshot of the stored records that pass `filter`:
    /// each of them once, and nothing else.
    pub open spec fn list_outcome(&self, filter: RecordFilterParams, records: Seq<Record>) -> bool {
        &&& forall|i: int|
            0 <= i < records.len() ==> self.holds(#[trigger] records[i]) && filter.matches(
                records[i],
            )
        &&& forall|i: int, j: int|
            0 <= i < j < records.len() ==> (#[trigger] records[i]).id != (#[trigger] records[j]).id
        &&& forall|id: u128| #[trigger]
            self@.contains_key(id) && filter.matches(self@[id]) ==> exists|i: int|
                0 <= i < records.len() && #[trigger] records[i] == self@[id]
    }

    /// A store without records that has issued no identifier.
    pub fn new() -> (store: RecordStore)
        ensures
            store@ == Map::<u128, Record>::empty(),
            store.issued() == Set::<u128>::empty(),
    {
        RecordStore { db: Database::new() }
    }

    /// Creates a record for a user of `users` in a category of
    /// `categories`, under a freshly drawn identifier and stamped with
    /// the current time.
    pub fn create(
        &mut self,
        input: RecordCreate,
        users: &UserStore,
        categories: &CategoryStore,
    ) -> (res: Result<Record, AppError>)
        ensures
            old(self).create_outcome(
                final(self),
                input,
                users@.contains_key(input.user_id),
                categories@.contains_key(input.category_id),
                res,
            ),
    {
        let user_exists = users.contains(input.user_id);
        let category_exists = categories.contains(input.category_id);
        self.create_checked(input, user_exists, category_exists)
    }

    /// Creates a record under a freshly drawn identifier, stamped with
    /// the current time, for a caller that has looked up the user and
    /// the category itself.
    pub fn create_checked(
        &mut self,
        input: RecordCreate,
        user_exists: bool,
        category_exists: bool,
    ) -> (res: Result<Record, AppError>)
        ensures
            old(self).create_outcome(final(self), input, user_exists, category_exists, res),
    {
        let id = fresh_id();
        let created_at = now();
        let res = self.create_with_id(id, created_at, input, user_exists, category_exists);
        assert(old(self).create_with_id_outcome(
            self,
            id,
            created_at,
            input,
            user_exists,
            category_exists,
            res,
        ));
        res
    }

    /// Creates a record under the candidate identifier `id`, stamped
    /// with `created_at`.
    pub fn create_with_id(
        &mut self,
        id: u128,
        created_at: Timestamp,
        input: RecordCreate,
        user_exists: bool,
        category_exists: bool,
    ) -> (res: Result<Record, AppError>)
        ensures
            old(self).create_with_id_outcome(
                final(self),
                id,
                created_at,
                input,
                user_exists,
                category_exists,
                res,
            ),
    {
        match input.validate(user_exists, category_exists) {
            Err(error) => Err(error),
            Ok(_) => {
                let record = Record {
                    id,
                    user_id: input.user_id,
                    category_id: input.category_id,
                    created_at,
                    sum: input.sum,
                };
                let mut db = self.take();
                let inserted = db.insert(id, record);
                self.db = db;
                if inserted {
                    Ok(record)
                } else {
                    Err(AppError::Database(String::from_str("identifier was issued before")))
                }
            },
        }
    }

    /// Moves the rows out, leaving the store empty.
    fn take(&mut self) -> (db: Database<Record>)
        ensures
            db == old(self).db,
            forall|id: u128| #[trigger]
                db@.contains_key(id) ==> db@[id].id == id && db@[id].sum.is_positive(),
    {
        proof {
            use_type_invariant(&*self);
        }
        let mut db = Database::new();
        std::mem::swap(&mut self.db, &mut db);
        db
    }

    /// A copy of the record stored under `id`.
    pub fn get(&self, id: u128) -> (res: Result<Record, AppError>)
        ensures
            self.get_outcome(id, res),
            res matches Ok(record) ==> record.sum.is_positive(),
    {
        proof {
            use_type_invariant(self);
        }
        match self.db.get(id) {
            Some(record) => Ok(*record),
            None => Err(AppError::NotFound),
        }
    }

    /// Removes the record stored under `id`.
    pub fn delete(&mut self, id: u128) -> (res: Result<(), AppError>)
        ensures
            old(self).delete_outcome(final(self), id, res),
    {
        let mut db = self.take();
        let removed = db.remove(id);
        self.db = db;
        match removed {
            Some(_) => Ok(()),
            None => Err(AppError::NotFound),
        }
    }

    /// Copies of the records that pass `filter`, in no particular order.
    /// A filter without fields lets every record pass.
    pub fn list(&self, filter: RecordFilterParams) -> (records: Vec<Record>)
        ensures
            self.list_outcome(filter, records@),
            forall|i: int| 0 <= i < records@.len() ==> (#[trigger] records@[i]).sum.is_positive(),
    {
        proof {
            use_type_invariant(self);
        }
        let ids = self.db.ids();
        let mut records: Vec<Record> = Vec::new();
        let ghost mut picked: Seq<int> = Seq::empty();
        let mut i: usize = 0;
        while i < ids.len()
            invariant
                i <= ids.len(),
                ids@.to_set() == self.db@.dom(),
                forall|id: u128| #[trigger]
                    self.db@.contains_key(id) ==> self.db@[id].id == id
                        && self.db@[id].sum.is_positive(),
                picked.len() == records@.len(),
                forall|k: int|
                    0 <= k < picked.len() ==> 0 <= #[trigger] picked[k] < i && records@[k].id
                        == ids@[picked[k]],
                forall|k: int, l: int|
                    0 <= k < l < picked.len() ==> #[trigger] picked[k] < #[trigger] picked[l],
                forall|k: int|
                    0 <= k < records@.len() ==> self.holds(#[trigger] records@[k])
                        && filter.matches(records@[k]) && records@[k].sum.is_positive(),
                forall|j: int|
                    0 <= j < i && filter.matches(self.db@[#[trigger] ids@[j]]) ==> exists|k: int|
                        0 <= k < records@.len() && #[trigger] records@[k] == self.db@[ids@[j]],
            decreases ids.len() - i,
        {
            let id = ids[i];
            match self.db.get(id) {
                Some(record) => {
                    if filter.matches(*record) {
                        let ghost before = records@;
                        records.push(*record);
                        proof {
                            picked = picked.push(i as int);
                            assert forall|j: int|
                                0 <= j < i + 1 && filter.matches(
                                    self.db@[#[trigger] ids@[j]],
                                ) implies exists|k: int|
                                0 <= k < records@.len() && #[trigger] records@[k]
                                    == self.db@[ids@[j]] by {
                                if j < i {
                                    let k = choose|k: int|
                                        0 <= k < before.len() && #[trigger] before[k]
                                            == self.db@[ids@[j]];
                                    assert(records@[k] == before[k]);
                                } else {
                                    assert(records@[before.len() as int] == self.db@[ids@[j]]);
                                }
                            }
                        }
                    }
                },
                None => {
                    assert(false);
                },
            }
            i = i + 1;
        }
        proof {
            assert forall|k: int, l: int| 0 <= k < l < records@.len() implies
                (#[trigger] records@[k]).id != (#[trigger] records@[l]).id by {
                assert(ids@[picked[k]] != ids@[picked[l]]);
            }
        }
        records
    }

    /// The stricter listing: a filter without fields is refused with
    /// `MissingFilterParams`; any other is answered as `list` answers it.
    pub fn list_filtered(&self, filter: RecordFilterParams) -> (res: Result<
        Vec<Record>,
        RecordError,
    >)
        ensures
            res is Err <==> filter.is_empty(),
            res matches Ok(records) ==> self.list_outcome(filter, records@),
    {
        if filter.is_empty() {
            Err(RecordError::MissingFilterParams)
        } else {
            Ok(self.list(filter))
        }
    }
}

impl RecordStore {
    /// `id` was given to a record once and the record is gone.
    pub open spec fn retired(&self, id: u128) -> bool {
        self.issued().contains(id) && !self@.contains_key(id)
    }

    /// A record that was created came from valid input: its user and
    /// its category exist, its sum is greater than zero, and the store
    /// holds it.
    pub proof fn law_created_record_is_sound(
        &self,
        after: &RecordStore,
        input: RecordCreate,
        users: &UserStore,
        categories: &CategoryStore,
        record: Record,
    )
        requires
            self.create_outcome(
                after,
                input,
                users@.contains_key(input.user_id),
                categories@.contains_key(input.category_id),
                Ok(record),
            ),
        ensures
            users@.contains_key(record.user_id),
            categories@.contains_key(record.category_id),
            record.sum.is_positive(),
            record.user_id == input.user_id,
            record.category_id == input.category_id,
            record.sum == input.sum,
            after.holds(record),
    {
    }

    /// Referential integrity: a creation that names a missing user or a
    /// missing category is refused as unprocessable. The refusal names
    /// `userId` exactly when the user is missing and `categoryId` exactly
    /// when the category is missing, each with its reason, and nothing is
    /// stored.
    pub proof fn law_missing_references_are_refused(
        &self,
        after: &RecordStore,
        input: RecordCreate,
        users: &UserStore,
        categories: &CategoryStore,
        res: Result<Record, AppError>,
    )
        requires
            self.create_outcome(
                after,
                input,
                users@.contains_key(input.user_id),
                categories@.contains_key(input.category_id),
                res,
            ),
            !users@.contains_key(input.user_id) || !categories@.contains_key(input.category_id),
        ensures
            after@ == self@,
            res matches Err(AppError::UnprocessableEntity(body)) && {
                &&& body@.contains_key("userId"@) <==> !users@.contains_key(input.user_id)
                &&& body@.contains_key("categoryId"@) <==> !categories@.contains_key(
                    input.category_id,
                )
                &&& body@.contains_key("userId"@) ==> body@["userId"@] == "user doesn't exist"@
                &&& body@.contains_key("categoryId"@) ==> body@["categoryId"@]
                    == "category doesn't exist"@
            },
    {
        lemma_field_names_differ();
    }

    /// The sum must be positive: a creation whose sum is zero or less is
    /// refused as unprocessable and the refusal names `sum`, whether or
    /// not the user and the category exist. Nothing is stored.
    pub proof fn law_sum_must_be_positive(
        &self,
        after: &RecordStore,
        input: RecordCreate,
        user_exists: bool,
        category_exists: bool,
        res: Result<Record, AppError>,
    )
        requires
            self.create_outcome(after, input, user_exists, category_exists, res),
            !input.sum.is_positive(),
        ensures
            after@ == self@,
            res matches Err(AppError::UnprocessableEntity(body)) && body@.contains_key("sum"@)
                && body@["sum"@] == "sum is not positive"@,
    {
        lemma_field_names_differ();
    }

    /// A refusal names a field only for a rule that is broken, and it
    /// names at least one.
    pub proof fn law_refusal_names_broken_rules(
        input: RecordCreate,
        user_exists: bool,
        category_exists: bool,
    )
        requires
            !input.is_valid(user_exists, category_exists),
        ensures
            ({
                let broken = input.violations(user_exists, category_exists);
                &&& broken.contains_key("userId"@) <==> !user_exists
                &&& broken.contains_key("categoryId"@) <==> !category_exists
                &&& broken.contains_key("sum"@) <==> !input.sum.is_positive()
                &&& forall|field: Seq<char>| #[trigger]
                    broken.contains_key(field) ==> field == "userId"@ || field == "categoryId"@
                        || field == "sum"@
                &&& exists|field: Seq<char>| #[trigger] broken.contains_key(field)
            }),
    {
        lemma_field_names_differ();
        let broken = input.violations(user_exists, category_exists);
        if !user_exists {
            assert(broken.contains_key("userId"@));
        } else if !category_exists {
            assert(broken.contains_key("categoryId"@));
        } else {
            assert(broken.contains_key("sum"@));
        }
    }

    /// Reading is repeatable: two reads of one identifier from one
    /// store agree, on the record or on its absence.
    pub proof fn law_get_is_repeatable(
        &self,
        id: u128,
        first: Result<Record, AppError>,
        second: Result<Record, AppError>,
    )
        requires
            self.get_outcome(id, first),
            self.get_outcome(id, second),
        ensures
            first is Ok <==> second is Ok,
            first matches Ok(a) ==> second matches Ok(b) && a == b,
            first matches Err(a) ==> second matches Err(b) && a is NotFound && b is NotFound,
    {
    }

    /// Once a delete of `id` has succeeded, a read of `id` finds
    /// nothing.
    pub proof fn law_delete_then_get(
        &self,
        after: &RecordStore,
        id: u128,
        found: Result<Record, AppError>,
    )
        requires
            self.delete_outcome(after, id, Ok(())),
            after.get_outcome(id, found),
        ensures
            after.retired(id),
            found matches Err(error) && error is NotFound,
    {
    }

    /// A creation, accepted or refused, leaves a retired identifier
    /// retired.
    pub proof fn law_retired_survives_create(
        &self,
        after: &RecordStore,
        id: u128,
        candidate: u128,
        created_at: Timestamp,
        input: RecordCreate,
        user_exists: bool,
        category_exists: bool,
        created: Result<Record, AppError>,
    )
        requires
            self.retired(id),
            self.create_with_id_outcome(
                after,
                candidate,
                created_at,
                input,
                user_exists,
                category_exists,
                created,
            ),
        ensures
            after.retired(id),
    {
    }

    /// A deletion leaves a retired identifier retired.
    pub proof fn law_retired_survives_delete(
        &self,
        after: &RecordStore,
        id: u128,
        other: u128,
        deleted: Result<(), AppError>,
    )
        requires
            self.retired(id),
            self.delete_outcome(after, other, deleted),
        ensures
            after.retired(id),
    {
    }

    /// A read of a retired identifier finds nothing.
    pub proof fn law_retired_is_not_found(&self, id: u128, found: Result<Record, AppError>)
        requires
            self.retired(id),
            self.get_outcome(id, found),
        ensures
            found matches Err(error) && error is NotFound,
    {
    }

    /// Two creations in a row, even from equal input, give records with
    /// different identifiers, and the store then holds both.
    pub proof fn law_create_twice(
        &self,
        between: &RecordStore,
        after: &RecordStore,
        input: RecordCreate,
        first: Record,
        second: Record,
    )
        requires
            self.create_outcome(between, input, true, true, Ok(first)),
            between.create_outcome(after, input, true, true, Ok(second)),
        ensures
            first.id != second.id,
            after.holds(first),
            after.holds(second),
    {
    }

    /// A listing under a filter holds exactly the stored records that
    /// match every field the filter names: a stored record is listed if
    /// and only if its user is the filter's user, where the filter names
    /// one, and its category is the filter's category, where the filter
    /// names one.
    pub proof fn law_filters_are_conjoined(
        &self,
        filter: RecordFilterParams,
        listed: Seq<Record>,
        record: Record,
    )
        requires
            self.list_outcome(filter, listed),
            self.holds(record),
        ensures
            listed.contains(record) <==> {
                &&& filter.user_id matches Some(user_id) ==> record.user_id == user_id
                &&& filter.category_id matches Some(category_id) ==> record.category_id
                    == category_id
            },
    {
    }
}

/// Answers `GET /records/{id}`: status 200 and the record in its
/// envelope.
pub fn get_record(db: &RecordStore, id: u128) -> (res: Result<(u16, RecordBody<Record>), AppError>)
    ensures
        match res {
            Ok((status, body)) => status == STATUS_OK && db.get_outcome(id, Ok(body.record)),
            Err(error) => db.get_outcome(id, Err(error)),
        },
{
    match db.get(id) {
        Ok(record) => Ok((STATUS_OK, RecordBody { record })),
        Err(error) => Err(error),
    }
}

/// Answers `POST /records`: status 201 and the new record in its
/// envelope, or the rules the request breaks. `user_exists` and
/// `category_exists` are the answers of the two lookups.
pub fn create_record(
    db: &mut RecordStore,
    body: RecordBody<RecordCreate>,
    user_exists: bool,
    category_exists: bool,
) -> (res: Result<(u16, RecordBody<Record>), AppError>)
    ensures
        match res {
            Ok((status, created)) => status == STATUS_CREATED && old(db).create_outcome(
                final(db),
                body.record,
                user_exists,
                category_exists,
                Ok(created.record),
            ),
            Err(error) => old(db).create_outcome(
                final(db),
                body.record,
                user_exists,
                category_exists,
                Err(error),
            ),
        },
{
    match db.create_checked(body.record, user_exists, category_exists) {
        Ok(record) => Ok((STATUS_CREATED, RecordBody { record })),
        Err(error) => Err(error),
    }
}

/// Answers `DELETE /records/{id}`: status 204.
pub fn delete_record(db: &mut RecordStore, id: u128) -> (res: Result<u16, AppError>)
    ensures
        match res {
            Ok(status) => status == STATUS_NO_CONTENT && old(db).delete_outcome(
                final(db),
                id,
                Ok(()),
            ),
            Err(error) => old(db).delete_outcome(final(db), id, Err(error)),
        },
{
    match db.delete(id) {
        Ok(_) => Ok(STATUS_NO_CONTENT),
        Err(error) => Err(error),
    }
}

/// Answers `GET /records`: status 200 and the records that pass the
/// filter of the query, all of them where the query names none.
pub fn get_records(db: &RecordStore, params: RecordFilterParams) -> (res: Result<
    (u16, RecordsBody<Record>),
    AppError,
>)
    ensures
        res matches Ok((status, body)) && status == STATUS_OK && db.list_outcome(
            params,
            body.records@,
        ),
{
    Ok((STATUS_OK, RecordsBody { records: db.list(params) }))
}

} // verus!
