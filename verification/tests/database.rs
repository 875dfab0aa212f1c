use expense_tracker::database::Database;

#[test]
fn database_starts_empty() {
    let db: Database<u32> = Database::new();
    assert_eq!(db.len(), 0);
    assert!(db.ids().is_empty());
    assert!(!db.contains(1));
    assert_eq!(db.get(1), None);
}

#[test]
fn database_insert_then_get() {
    let mut db: Database<u32> = Database::new();
    assert!(db.insert(7, 70));
    assert!(db.insert(8, 80));
    assert_eq!(db.len(), 2);
    assert!(db.contains(7));
    assert_eq!(db.get(7), Some(&70));
    assert_eq!(db.get(8), Some(&80));
    assert_eq!(db.get(9), None);
}

#[test]
fn database_refuses_identifier_in_use() {
    let mut db: Database<u32> = Database::new();
    assert!(db.insert(7, 70));
    assert!(!db.insert(7, 71));
    assert_eq!(db.get(7), Some(&70));
    assert_eq!(db.len(), 1);
}

#[test]
fn database_never_reuses_removed_identifier() {
    let mut db: Database<u32> = Database::new();
    assert!(db.insert(7, 70));
    assert_eq!(db.remove(7), Some(70));
    assert_eq!(db.remove(7), None);
    assert!(!db.contains(7));
    assert!(!db.insert(7, 71));
    assert_eq!(db.get(7), None);
    assert_eq!(db.len(), 0);
}

#[test]
fn database_ids_lists_each_identifier_once() {
    let mut db: Database<u32> = Database::new();
    for id in [5u128, 3, 9, 1] {
        assert!(db.insert(id, 0));
    }
    assert_eq!(db.remove(3), Some(0));
    let mut ids = db.ids();
    ids.sort();
    assert_eq!(ids, vec![1, 5, 9]);
}
