use san_andreas_unbound::password::{check_login, register_account, PasswordError};

fn hash_of(query: &str) -> String {
    query.split('\'').nth(3).unwrap().to_string()
}

#[test]
fn registration_hashes_the_password() {
    let q = register_account("Sweet", "grove street", 4).unwrap();
    assert!(q.starts_with("INSERT INTO  User(username,password) VALUES(\n                            'Sweet',\n"));
    assert!(q.ends_with("'\n                        )\n                    "));
    let h = hash_of(&q);
    assert!(h.starts_with("$2b$04$"));
    assert_eq!(h.len(), 60);
    assert_ne!(h, "grove street");
}

#[test]
fn registered_password_logs_in() {
    let q = register_account("Sweet", "grove street", 4).unwrap();
    let rows = vec![(17u64, hash_of(&q))];
    assert_eq!(check_login(&rows, "grove street").unwrap(), (17, true));
    assert_eq!(check_login(&rows, "ballas").unwrap(), (17, false));
}

#[test]
fn first_row_counts() {
    let a = hash_of(&register_account("A", "one", 4).unwrap());
    let b = hash_of(&register_account("A", "two", 4).unwrap());
    let rows = vec![(1u64, a), (2u64, b)];
    assert_eq!(check_login(&rows, "one").unwrap(), (1, true));
    assert_eq!(check_login(&rows, "two").unwrap(), (1, false));
}

#[test]
fn cost_out_of_range_is_refused() {
    assert!(matches!(register_account("x", "y", 3), Err(PasswordError::CostNotAllowed(3))));
    assert!(matches!(register_account("x", "y", 32), Err(PasswordError::CostNotAllowed(32))));
}

#[test]
fn malformed_hash_is_an_error() {
    let rows = vec![(1u64, "not a hash".to_string())];
    assert!(matches!(check_login(&rows, "pw"), Err(PasswordError::InvalidHash(_))));
}

#[test]
fn hash_records_the_cost() {
    let q = register_account("Tenpenny", "badge", 5).unwrap();
    let h = hash_of(&q);
    assert!(h.starts_with("$2b$05$"));
    assert_eq!(check_login(&vec![(3u64, h)], "badge").unwrap(), (3, true));
}
