use category_store::category::{Category, CategoryForm};
use category_store::crud::{Crud, Error};
use category_store::store::Store;

fn form(name: &str) -> CategoryForm {
    CategoryForm { name: name.to_string() }
}

#[test]
fn test_crud() {
    let mut store = Store::new();
    Category::create(&mut store, &form("Discussion")).unwrap();

    let categories = Category::list_all(&store).unwrap();
    let expected_first_category = Category {
        id: 1,
        name: "Discussion".into(),
    };

    assert_eq!(expected_first_category, categories[0]);
}

#[test]
fn create_assigns_identity_on_empty_store() {
    let mut store = Store::new();
    let created = Category::create(&mut store, &form("Discussion")).unwrap();
    assert_eq!(
        created,
        Category {
            id: 1,
            name: "Discussion".into(),
        }
    );
}

#[test]
fn create_then_read_round_trip() {
    let mut store = Store::new();
    Category::create(&mut store, &form("First")).unwrap();
    let created = Category::create(&mut store, &form("Second")).unwrap();
    let read_back = Category::read(&store, created.id).unwrap();
    assert_eq!(created, read_back);
}

#[test]
fn update_changes_name_and_keeps_identity() {
    let mut store = Store::new();
    let a = Category::create(&mut store, &form("Discussion")).unwrap();
    let b = Category::create(&mut store, &form("Other")).unwrap();

    let updated = Category::update(&mut store, a.id, &form("Talk")).unwrap();
    assert_eq!(
        updated,
        Category {
            id: a.id,
            name: "Talk".into(),
        }
    );

    let read_back = Category::read(&store, a.id).unwrap();
    assert_eq!(read_back, updated);

    let untouched = Category::read(&store, b.id).unwrap();
    assert_eq!(untouched, b);
}

#[test]
fn update_missing_identity_is_not_found() {
    let mut store = Store::new();
    Category::create(&mut store, &form("Discussion")).unwrap();
    let err = Category::update(&mut store, 42, &form("Talk")).unwrap_err();
    assert_eq!(err, Error::NotFound);
}

#[test]
fn delete_existing_identity_reports_one_row() {
    let mut store = Store::new();
    let created = Category::create(&mut store, &form("Discussion")).unwrap();
    let removed = Category::delete(&mut store, created.id).unwrap();
    assert_eq!(removed, 1);

    let err = Category::read(&store, created.id).unwrap_err();
    assert_eq!(err, Error::NotFound);
}

#[test]
fn delete_missing_identity_reports_zero_rows() {
    let mut store = Store::new();
    Category::create(&mut store, &form("Discussion")).unwrap();
    let removed = Category::delete(&mut store, 42).unwrap();
    assert_eq!(removed, 0);

    let categories = Category::list_all(&store).unwrap();
    assert_eq!(categories.len(), 1);
}

#[test]
fn read_missing_identity_is_not_found() {
    let store = Store::new();
    let err = Category::read(&store, 1).unwrap_err();
    assert_eq!(err, Error::NotFound);
}

#[test]
fn list_all_counts_rows_and_is_stable() {
    let mut store = Store::new();
    assert_eq!(Category::list_all(&store).unwrap().len(), 0);

    Category::create(&mut store, &form("Discussion")).unwrap();
    Category::create(&mut store, &form("Talk")).unwrap();
    Category::create(&mut store, &form("Help")).unwrap();
    Category::delete(&mut store, 2).unwrap();

    let first = Category::list_all(&store).unwrap();
    let second = Category::list_all(&store).unwrap();
    assert_eq!(first.len(), 2);
    assert_eq!(first, second);
}

#[test]
fn full_lifecycle_scenario() {
    let mut store = Store::new();

    let created = Category::create(&mut store, &form("Discussion")).unwrap();
    assert_eq!(
        created,
        Category {
            id: 1,
            name: "Discussion".into(),
        }
    );

    let read_back = Category::read(&store, 1).unwrap();
    assert_eq!(read_back, created);

    let updated = Category::update(&mut store, 1, &form("Talk")).unwrap();
    assert_eq!(
        updated,
        Category {
            id: 1,
            name: "Talk".into(),
        }
    );

    assert_eq!(Category::delete(&mut store, 1).unwrap(), 1);
    assert_eq!(Category::read(&store, 1).unwrap_err(), Error::NotFound);
}

#[test]
fn identities_are_not_reused_after_delete() {
    let mut store = Store::new();
    let a = Category::create(&mut store, &form("Discussion")).unwrap();
    assert_eq!(Category::delete(&mut store, a.id).unwrap(), 1);
    let b = Category::create(&mut store, &form("Talk")).unwrap();
    assert_ne!(a.id, b.id);
    assert_eq!(b.id, 2);
}
