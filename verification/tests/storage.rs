use expense_tracker::error::AppError;
use expense_tracker::storage::{deleted, found};

#[test]
fn found_row_is_handed_on() {
    assert_eq!(found(Some(7u32)).unwrap(), 7);
    assert_eq!(found(Some("row")).unwrap(), "row");
}

#[test]
fn missing_row_is_not_found() {
    assert!(matches!(found(None::<u32>), Err(AppError::NotFound)));
}

#[test]
fn deletion_that_removed_rows_is_answered_with_204() {
    assert_eq!(deleted(1).unwrap(), 204);
    assert_eq!(deleted(2).unwrap(), 204);
    assert_eq!(deleted(u64::MAX).unwrap(), 204);
}

#[test]
fn deletion_that_removed_nothing_is_not_found() {
    assert!(matches!(deleted(0), Err(AppError::NotFound)));
}
