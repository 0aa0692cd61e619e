use ctf_bot::db::Database;
use ctf_bot::db::models::Challenge;

#[test]
fn create_then_get_returns_inserted_row() {
    let mut db = Database::new();
    let id = Challenge::create_challenge(&mut db, "Hello, World!", "cheri{helloworld}").unwrap();
    assert_eq!(id, 1);
    let found = Challenge::get_by_flag(&db, "cheri{helloworld}").unwrap().unwrap();
    assert_eq!(found.id, 1);
    assert_eq!(found.name, "Hello, World!");
    assert_eq!(found.flag, "cheri{helloworld}");
}

#[test]
fn get_by_flag_missing_returns_none_not_error() {
    let db = Database::new();
    let r = Challenge::get_by_flag(&db, "cheri{nothing}");
    assert!(matches!(r, Ok(None)));

    let mut db = Database::new();
    Challenge::create_challenge(&mut db, "one", "cheri{one}").unwrap();
    let r = Challenge::get_by_flag(&db, "cheri{two}");
    assert!(matches!(r, Ok(None)));
}

#[test]
fn successive_creates_assign_distinct_retrievable_ids() {
    let mut db = Database::new();
    let a = Challenge::create_challenge(&mut db, "first", "cheri{first}").unwrap();
    let b = Challenge::create_challenge(&mut db, "second", "cheri{second}").unwrap();
    assert_ne!(a, b);
    assert_eq!(Challenge::get_by_flag(&db, "cheri{first}").unwrap().unwrap().id, a);
    assert_eq!(Challenge::get_by_flag(&db, "cheri{second}").unwrap().unwrap().id, b);
}

#[test]
fn earlier_row_shadows_later_duplicate_flag() {
    let mut db = Database::new();
    Challenge::create_challenge(&mut db, "original", "cheri{dup}").unwrap();
    Challenge::create_challenge(&mut db, "copycat", "cheri{dup}").unwrap();
    let found = Challenge::get_by_flag(&db, "cheri{dup}").unwrap().unwrap();
    assert_eq!(found.id, 1);
    assert_eq!(found.name, "original");
}

#[test]
fn check_flag_returns_matching_name() {
    let mut db = Database::new();
    db.add_challenge("Hello, World!", "cheri{helloworld}").unwrap();
    assert_eq!(
        db.check_flag("cheri{helloworld}").unwrap(),
        Some("Hello, World!".to_string())
    );
    assert_eq!(db.check_flag("cheri{other}").unwrap(), None);
}

#[test]
fn flag_comparison_is_exact() {
    let mut db = Database::new();
    Challenge::create_challenge(&mut db, "Hello, World!", "cheri{helloworld}").unwrap();
    assert!(matches!(
        Challenge::get_by_flag(&db, "cheri{helloworld} "),
        Ok(None)
    ));
    assert!(matches!(
        Challenge::get_by_flag(&db, "Cheri{helloworld}"),
        Ok(None)
    ));
    assert!(matches!(
        Challenge::get_by_flag(&db, "cheri{helloworld"),
        Ok(None)
    ));
    assert!(Challenge::get_by_flag(&db, "cheri{helloworld}").unwrap().is_some());
}
