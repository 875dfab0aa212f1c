use expense_tracker::amount::Amount;
use expense_tracker::categories::{CategoryStore, NewCategory};
use expense_tracker::clock::Timestamp;
use expense_tracker::error::{AppError, ErrorBody};
use expense_tracker::records::{
    create_record, delete_record, get_record, get_records, Record, RecordBody, RecordCreate,
    RecordError, RecordFilterParams, RecordStore,
};
use expense_tracker::users::{UserCreate, UserStore};

const ALICE: u128 = 0xa;
const BOB: u128 = 0xb;
const FOOD: u128 = 0x10;
const RENT: u128 = 0x20;

fn people() -> UserStore {
    let mut users = UserStore::new();
    users.create_with_id(ALICE, UserCreate { name: "Alice".to_string() }).unwrap();
    users.create_with_id(BOB, UserCreate { name: "Bob".to_string() }).unwrap();
    users
}

fn kinds() -> CategoryStore {
    let mut categories = CategoryStore::new();
    categories.create_with_id(FOOD, NewCategory { name: "Food".to_string() }).unwrap();
    categories.create_with_id(RENT, NewCategory { name: "Rent".to_string() }).unwrap();
    categories
}

fn expense(user_id: u128, category_id: u128, mantissa: i128, scale: u32) -> RecordCreate {
    RecordCreate { user_id, category_id, sum: Amount::new(mantissa, scale) }
}

fn post_record(
    records: &mut RecordStore,
    users: &UserStore,
    categories: &CategoryStore,
    input: RecordCreate,
) -> Result<(u16, RecordBody<Record>), AppError> {
    let user_exists = users.contains(input.user_id);
    let category_exists = categories.contains(input.category_id);
    create_record(records, RecordBody { record: input }, user_exists, category_exists)
}

fn ids_of_records(mut records: Vec<Record>) -> Vec<u128> {
    records.sort_by_key(|record| record.id);
    records.into_iter().map(|record| record.id).collect()
}

fn refused_fields<T: std::fmt::Debug>(
    res: Result<T, AppError>,
) -> Vec<(&'static str, &'static str)> {
    match res {
        Err(AppError::UnprocessableEntity(body)) => {
            let mut fields = Vec::new();
            for name in ["userId", "categoryId", "sum"] {
                if let Some(reason) = body.get(name) {
                    fields.push((name, reason));
                }
            }
            assert_eq!(fields.len(), body.entries().len());
            fields
        }
        other => panic!("expected a refusal as unprocessable, got {other:?}"),
    }
}

#[test]
fn amount_is_positive_by_its_mantissa() {
    assert!(Amount::new(1, 0).is_positive());
    assert!(Amount::new(1250, 2).is_positive());
    assert!(Amount::new(1, 28).is_positive());
    assert!(!Amount::new(0, 0).is_positive());
    assert!(!Amount::new(0, 5).is_positive());
    assert!(!Amount::new(-1, 28).is_positive());
    assert!(!Amount::new(-5, 0).is_positive());
    assert_eq!(Amount::new(1250, 2), Amount { mantissa: 1250, scale: 2 });
}

#[test]
fn valid_input_passes_validation() {
    assert!(expense(ALICE, FOOD, 1250, 2).validate(true, true).is_ok());
}

#[test]
fn validation_reports_every_broken_rule_at_once() {
    let res = expense(ALICE, FOOD, 0, 0).validate(false, false);
    match res {
        Err(AppError::UnprocessableEntity(body)) => {
            assert_eq!(body.get("userId"), Some("user doesn't exist"));
            assert_eq!(body.get("categoryId"), Some("category doesn't exist"));
            assert_eq!(body.get("sum"), Some("sum is not positive"));
            assert_eq!(body.entries().len(), 3);
        }
        other => panic!("expected a refusal as unprocessable, got {other:?}"),
    }
}

#[test]
fn validation_reports_each_rule_on_its_own() {
    let input = expense(ALICE, FOOD, 1, 0);
    let user = input.validate(false, true);
    assert_eq!(refused_fields(user), vec![("userId", "user doesn't exist")]);
    let category = input.validate(true, false);
    assert_eq!(refused_fields(category), vec![("categoryId", "category doesn't exist")]);
    let sum = expense(ALICE, FOOD, -1, 0).validate(true, true);
    assert_eq!(refused_fields(sum), vec![("sum", "sum is not positive")]);
}

#[test]
fn record_with_missing_user_and_category_names_both() {
    let (users, categories) = (people(), kinds());
    let mut records = RecordStore::new();
    let res = records.create(expense(0xdead, 0xbeef, 100, 0), &users, &categories);
    assert_eq!(
        refused_fields(res),
        vec![("userId", "user doesn't exist"), ("categoryId", "category doesn't exist")]
    );
    assert!(records.list(RecordFilterParams { user_id: None, category_id: None }).is_empty());
}

#[test]
fn record_with_one_missing_reference_names_only_that_one() {
    let (users, categories) = (people(), kinds());
    let mut records = RecordStore::new();
    let res = records.create(expense(0xdead, FOOD, 100, 0), &users, &categories);
    assert_eq!(refused_fields(res), vec![("userId", "user doesn't exist")]);
    let res = records.create(expense(ALICE, 0xbeef, 100, 0), &users, &categories);
    assert_eq!(refused_fields(res), vec![("categoryId", "category doesn't exist")]);
}

#[test]
fn record_with_sum_not_positive_is_refused_whatever_the_references() {
    let (users, categories) = (people(), kinds());
    let mut records = RecordStore::new();
    for mantissa in [0i128, -1, -500, i128::MIN] {
        let res = records.create(expense(ALICE, FOOD, mantissa, 2), &users, &categories);
        assert_eq!(refused_fields(res), vec![("sum", "sum is not positive")]);
        let res = records.create(expense(0xdead, FOOD, mantissa, 2), &users, &categories);
        assert_eq!(
            refused_fields(res),
            vec![("userId", "user doesn't exist"), ("sum", "sum is not positive")]
        );
        let res = records.create(expense(0xdead, 0xbeef, mantissa, 2), &users, &categories);
        assert_eq!(
            refused_fields(res),
            vec![
                ("userId", "user doesn't exist"),
                ("categoryId", "category doesn't exist"),
                ("sum", "sum is not positive")
            ]
        );
    }
    assert!(records.list(RecordFilterParams { user_id: None, category_id: None }).is_empty());
}

#[test]
fn created_record_carries_its_input_identifier_and_time() {
    let (users, categories) = (people(), kinds());
    let mut records = RecordStore::new();
    let input = expense(ALICE, FOOD, 1250, 2);
    let stamp = Timestamp { secs: 1_761_600_000, nanos: 5 };
    let record = records.create_with_id(77, stamp, input, true, true).unwrap();
    assert_eq!(
        record,
        Record {
            id: 77,
            user_id: ALICE,
            category_id: FOOD,
            created_at: stamp,
            sum: Amount::new(1250, 2)
        }
    );
    assert_eq!(records.get(77).unwrap(), record);
}

#[test]
fn created_record_is_stamped_by_the_clock_and_a_random_uuid() {
    let (users, categories) = (people(), kinds());
    let mut records = RecordStore::new();
    let record = records.create(expense(ALICE, FOOD, 1250, 2), &users, &categories).unwrap();
    assert!(record.created_at.secs > 1_600_000_000);
    assert!(record.created_at.nanos < 2_000_000_000);
    assert_eq!((record.id >> 76) & 0xf, 4);
    assert_eq!((record.id >> 62) & 0x3, 2);
    assert_eq!(records.get(record.id).unwrap(), record);
}

#[test]
fn record_identifier_in_use_is_a_storage_failure() {
    let (users, categories) = (people(), kinds());
    let mut records = RecordStore::new();
    let stamp = Timestamp { secs: 0, nanos: 0 };
    let first = records.create_with_id(77, stamp, expense(ALICE, FOOD, 1, 0), true, true);
    let first = first.unwrap();
    let again = records.create_with_id(77, stamp, expense(BOB, RENT, 2, 0), true, true);
    assert!(matches!(again, Err(AppError::Database(_))));
    assert_eq!(records.get(77).unwrap(), first);
    records.delete(77).unwrap();
    let reuse = records.create_with_id(77, stamp, expense(BOB, RENT, 2, 0), true, true);
    assert!(matches!(reuse, Err(AppError::Database(_))));
    assert!(matches!(records.get(77), Err(AppError::NotFound)));
}

#[test]
fn refused_record_does_not_use_up_its_identifier() {
    let (users, categories) = (people(), kinds());
    let mut records = RecordStore::new();
    let stamp = Timestamp { secs: 0, nanos: 0 };
    let refused = records.create_with_id(77, stamp, expense(ALICE, FOOD, 0, 0), true, true);
    assert_eq!(refused_fields(refused), vec![("sum", "sum is not positive")]);
    assert!(records.create_with_id(77, stamp, expense(ALICE, FOOD, 1, 0), true, true).is_ok());
}

#[test]
fn reading_a_record_twice_gives_equal_records() {
    let (users, categories) = (people(), kinds());
    let mut records = RecordStore::new();
    let record = records.create(expense(ALICE, FOOD, 1250, 2), &users, &categories).unwrap();
    assert_eq!(records.get(record.id).unwrap(), records.get(record.id).unwrap());
    assert!(matches!(records.get(record.id ^ 1), Err(AppError::NotFound)));
}

#[test]
fn deleted_record_is_not_found() {
    let (users, categories) = (people(), kinds());
    let mut records = RecordStore::new();
    let record = records.create(expense(ALICE, FOOD, 1250, 2), &users, &categories).unwrap();
    let other = records.create(expense(BOB, RENT, 1, 0), &users, &categories).unwrap();
    assert!(records.delete(record.id).is_ok());
    assert!(matches!(records.get(record.id), Err(AppError::NotFound)));
    assert!(matches!(records.delete(record.id), Err(AppError::NotFound)));
    assert_eq!(records.get(other.id).unwrap(), other);
}

#[test]
fn two_records_from_equal_input_have_distinct_identifiers() {
    let (users, categories) = (people(), kinds());
    let mut records = RecordStore::new();
    let input = expense(ALICE, FOOD, 1250, 2);
    let first = records.create(input, &users, &categories).unwrap();
    let second = records.create(input, &users, &categories).unwrap();
    assert_ne!(first.id, second.id);
    assert_eq!(records.get(first.id).unwrap(), first);
    assert_eq!(records.get(second.id).unwrap(), second);
}

#[test]
fn filters_are_applied_together() {
    let (users, categories) = (people(), kinds());
    let mut records = RecordStore::new();
    let stamp = Timestamp { secs: 0, nanos: 0 };
    records.create_with_id(1, stamp, expense(ALICE, FOOD, 1, 0), true, true).unwrap();
    records.create_with_id(2, stamp, expense(ALICE, RENT, 2, 0), true, true).unwrap();
    records.create_with_id(3, stamp, expense(BOB, FOOD, 3, 0), true, true).unwrap();

    let by_user = RecordFilterParams { user_id: Some(ALICE), category_id: None };
    assert_eq!(ids_of_records(records.list(by_user)), vec![1, 2]);
    let by_both = RecordFilterParams { user_id: Some(ALICE), category_id: Some(FOOD) };
    assert_eq!(ids_of_records(records.list(by_both)), vec![1]);
    let by_category = RecordFilterParams { user_id: None, category_id: Some(FOOD) };
    assert_eq!(ids_of_records(records.list(by_category)), vec![1, 3]);
    let nobody = RecordFilterParams { user_id: Some(BOB), category_id: Some(RENT) };
    assert!(records.list(nobody).is_empty());
    let everything = RecordFilterParams { user_id: None, category_id: None };
    assert_eq!(ids_of_records(records.list(everything)), vec![1, 2, 3]);
}

#[test]
fn strict_listing_demands_a_filter() {
    let (users, categories) = (people(), kinds());
    let mut records = RecordStore::new();
    let stamp = Timestamp { secs: 0, nanos: 0 };
    records.create_with_id(1, stamp, expense(ALICE, FOOD, 1, 0), true, true).unwrap();

    let unfiltered = RecordFilterParams { user_id: None, category_id: None };
    assert!(unfiltered.is_empty());
    assert_eq!(records.list_filtered(unfiltered), Err(RecordError::MissingFilterParams));
    let by_user = RecordFilterParams { user_id: Some(ALICE), category_id: None };
    assert!(!by_user.is_empty());
    assert_eq!(ids_of_records(records.list_filtered(by_user).unwrap()), vec![1]);
    let by_category = RecordFilterParams { user_id: None, category_id: Some(RENT) };
    assert_eq!(records.list_filtered(by_category), Ok(vec![]));
}

#[test]
fn missing_filter_is_answered_with_400_and_its_message() {
    let error = RecordError::MissingFilterParams;
    assert_eq!(error.message(), "At least one filter parameter must be provided");
    let response = error.into_response();
    assert_eq!(response.status, 400);
    assert_eq!(response.message, "At least one filter parameter must be provided");
}

#[test]
fn filter_matches_each_present_field() {
    let record = Record {
        id: 1,
        user_id: ALICE,
        category_id: FOOD,
        created_at: Timestamp { secs: 0, nanos: 0 },
        sum: Amount::new(1, 0),
    };
    assert!(RecordFilterParams { user_id: None, category_id: None }.matches(record));
    assert!(RecordFilterParams { user_id: Some(ALICE), category_id: None }.matches(record));
    assert!(RecordFilterParams { user_id: Some(ALICE), category_id: Some(FOOD) }.matches(record));
    assert!(!RecordFilterParams { user_id: Some(BOB), category_id: Some(FOOD) }.matches(record));
    assert!(!RecordFilterParams { user_id: Some(ALICE), category_id: Some(RENT) }.matches(record));
    assert!(!RecordFilterParams { user_id: None, category_id: Some(RENT) }.matches(record));
}

#[test]
fn record_survives_the_deletion_of_its_user() {
    let (mut users, categories) = (people(), kinds());
    let mut records = RecordStore::new();
    let record = records.create(expense(ALICE, FOOD, 1250, 2), &users, &categories).unwrap();
    users.delete(ALICE).unwrap();
    assert_eq!(records.get(record.id).unwrap(), record);
}

#[test]
fn end_to_end_scenario() {
    let mut users = UserStore::new();
    let mut categories = CategoryStore::new();
    let mut records = RecordStore::new();
    let u1 = users.create(UserCreate { name: "Alice".to_string() }).unwrap();
    let c1 = categories.create(NewCategory { name: "Food".to_string() }).unwrap();

    let input = expense(u1.id, c1.id, 1250, 2);
    let (status, created) = post_record(&mut records, &users, &categories, input).unwrap();
    assert_eq!(status, 201);
    assert_eq!(created.record.sum, Amount::new(1250, 2));
    assert_eq!(created.record.user_id, u1.id);
    assert_eq!(created.record.category_id, c1.id);
    assert!(created.record.created_at.secs > 0);

    let input = expense(u1.id, c1.id, -5, 0);
    let refused = post_record(&mut records, &users, &categories, input).unwrap_err();
    assert_eq!(refused.status_code(), 422);
    let response = refused.into_response();
    assert_eq!(response.status, 422);
    match response.body {
        ErrorBody::Fields(fields) => {
            assert_eq!(fields.entries(), &vec![("sum", "sum is not positive")]);
        }
        ErrorBody::Generic(_) => panic!("broken rules are reported field by field"),
    }

    users.delete(u1.id).unwrap();
    let input = expense(u1.id, c1.id, 1250, 2);
    let refused = post_record(&mut records, &users, &categories, input).unwrap_err();
    assert_eq!(refused.status_code(), 422);
    match refused {
        AppError::UnprocessableEntity(fields) => {
            assert_eq!(fields.entries(), &vec![("userId", "user doesn't exist")]);
        }
        other => panic!("expected a refusal as unprocessable, got {other:?}"),
    }
    assert_eq!(get_record(&records, created.record.id).unwrap(), (200, created));
}

#[test]
fn record_routes_answer_with_their_status_and_envelope() {
    let (users, categories) = (people(), kinds());
    let mut records = RecordStore::new();
    let input = expense(ALICE, FOOD, 990, 2);
    let (status, created) = post_record(&mut records, &users, &categories, input).unwrap();
    assert_eq!(status, 201);
    let id = created.record.id;

    assert_eq!(get_record(&records, id).unwrap(), (200, created.clone()));
    let everything = RecordFilterParams { user_id: None, category_id: None };
    let (status, listed) = get_records(&records, everything).unwrap();
    assert_eq!((status, listed.records), (200, vec![created.record]));
    let of_bob = RecordFilterParams { user_id: Some(BOB), category_id: None };
    assert!(get_records(&records, of_bob).unwrap().1.records.is_empty());

    assert_eq!(delete_record(&mut records, id).unwrap(), 204);
    assert!(matches!(get_record(&records, id), Err(AppError::NotFound)));
    assert!(matches!(delete_record(&mut records, id), Err(AppError::NotFound)));
}
