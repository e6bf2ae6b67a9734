use user_service::error::{DatabaseError, RepositoryError};
use user_service::store::InMemoryUserRepository;
use user_service::user::User;

fn user(id: u128, email: &str) -> User {
    User::with_identity(id, 1_000, email.to_string(), "digest".to_string())
}

#[test]
fn new_store_is_empty() {
    let store = InMemoryUserRepository::new();
    assert_eq!(store.len(), 0);
    assert_eq!(store.list(1, 10), (vec![], 0));
}

#[test]
fn create_returns_the_record_and_stores_a_copy() {
    let mut store = InMemoryUserRepository::new();
    let created = store.create("a@example.com".to_string(), "hashed_pw".to_string()).unwrap();
    assert_eq!(created.email, "a@example.com");
    assert_eq!(created.password_hash, "hashed_pw");
    assert_eq!(created.created_at, created.updated_at);
    assert_eq!(store.len(), 1);
    assert_eq!(store.find_by_id(created.id), Some(created.clone()));
    assert_eq!(store.find_by_email("a@example.com"), Some(created));
}

#[test]
fn create_with_sets_identifier_and_time() {
    let mut store = InMemoryUserRepository::new();
    let created = store.create_with(42, 7, "a@example.com".to_string(), "d".to_string()).unwrap();
    assert_eq!(
        created,
        User {
            id: 42,
            email: "a@example.com".to_string(),
            password_hash: "d".to_string(),
            created_at: 7,
            updated_at: 7,
        }
    );
}

#[test]
fn creates_with_distinct_emails_all_succeed_and_are_found() {
    let mut store = InMemoryUserRepository::new();
    let mut made = Vec::new();
    for i in 0..20u128 {
        let email = format!("user{}@example.com", i);
        made.push(store.create_with(i + 1, i as i64, email, format!("h{}", i)).unwrap());
    }
    assert_eq!(store.len(), 20);
    for record in &made {
        assert_eq!(store.find_by_id(record.id).as_ref(), Some(record));
        assert_eq!(store.find_by_email(&record.email).as_ref(), Some(record));
        assert!(store.exists_by_email(&record.email));
    }
}

#[test]
fn random_identifiers_differ() {
    let mut store = InMemoryUserRepository::new();
    let a = store.create("a@example.com".to_string(), "h".to_string()).unwrap();
    let b = store.create("b@example.com".to_string(), "h".to_string()).unwrap();
    assert_ne!(a.id, b.id);
    assert_eq!(store.len(), 2);
    assert!(a.created_at > 1_600_000_000_000_000);
}

#[test]
fn second_create_with_same_email_is_refused() {
    let mut store = InMemoryUserRepository::new();
    let first = store.create("a@example.com".to_string(), "one".to_string());
    let second = store.create("a@example.com".to_string(), "two".to_string());
    assert!(first.is_ok());
    assert_eq!(second, Err(RepositoryError::AlreadyExists));
    assert_eq!(store.len(), 1);
    assert_eq!(store.find_by_email("a@example.com").unwrap().password_hash, "one");
}

#[test]
fn emails_are_compared_exactly() {
    let mut store = InMemoryUserRepository::new();
    store.create_with(1, 0, "a@example.com".to_string(), "h".to_string()).unwrap();
    assert!(!store.exists_by_email("A@example.com"));
    assert!(!store.exists_by_email("a@example.co"));
    assert!(store.create_with(2, 0, "A@example.com".to_string(), "h".to_string()).is_ok());
}

#[test]
fn find_on_missing_key_is_absent() {
    let mut store = InMemoryUserRepository::new();
    store.create_with(1, 0, "a@example.com".to_string(), "h".to_string()).unwrap();
    assert_eq!(store.find_by_id(2), None);
    assert_eq!(store.find_by_email("b@example.com"), None);
    assert!(!store.exists_by_email("b@example.com"));
}

#[test]
fn returned_records_are_copies() {
    let mut store = InMemoryUserRepository::new();
    store.create_with(1, 0, "a@example.com".to_string(), "h".to_string()).unwrap();
    let mut copy = store.find_by_id(1).unwrap();
    copy.email = "changed@example.com".to_string();
    assert_eq!(store.find_by_id(1).unwrap().email, "a@example.com");
}

#[test]
fn create_from_takes_the_drawn_identifier_when_it_is_free() {
    let mut store = InMemoryUserRepository::new();
    let made = store.create_from(77, 3, "a@example.com".to_string(), "h".to_string()).unwrap();
    assert_eq!(
        made,
        User {
            id: 77,
            email: "a@example.com".to_string(),
            password_hash: "h".to_string(),
            created_at: 3,
            updated_at: 3,
        }
    );
    assert_eq!(store.list(1, 10), (vec![made], 1));
}

#[test]
fn create_from_passes_over_identifiers_in_use() {
    let mut store = InMemoryUserRepository::new();
    for (i, id) in [7u128, 8, 10].iter().enumerate() {
        store.create_with(*id, 0, format!("u{}@example.com", i), "h".to_string()).unwrap();
    }
    let made = store.create_from(7, 1, "new@example.com".to_string(), "h".to_string()).unwrap();
    assert_eq!(made.id, 9);
    let next = store.create_from(7, 1, "next@example.com".to_string(), "h".to_string()).unwrap();
    assert_eq!(next.id, 11);
    assert_eq!(store.len(), 5);
    assert_eq!(store.find_by_id(7).unwrap().email, "u0@example.com");
    assert_eq!(store.find_by_id(9).unwrap().email, "new@example.com");
}

#[test]
fn identifiers_go_round_after_the_largest() {
    let mut store = InMemoryUserRepository::new();
    store.create_with(u128::MAX, 0, "a@example.com".to_string(), "h".to_string()).unwrap();
    assert_eq!(store.unused_id_from(u128::MAX), 0);
    store.create_with(0, 0, "b@example.com".to_string(), "h".to_string()).unwrap();
    assert_eq!(store.unused_id_from(u128::MAX), 1);
    assert_eq!(store.unused_id_from(u128::MAX - 1), u128::MAX - 1);
    assert_eq!(store.unused_id_from(5), 5);
    let made =
        store.create_from(u128::MAX, 0, "c@example.com".to_string(), "h".to_string()).unwrap();
    assert_eq!(made.id, 1);
}

#[test]
fn create_from_refuses_a_taken_email_whatever_is_drawn() {
    let mut store = InMemoryUserRepository::new();
    store.create_from(1, 0, "a@example.com".to_string(), "one".to_string()).unwrap();
    for drawn in [1u128, 2, u128::MAX] {
        assert_eq!(
            store.create_from(drawn, 0, "a@example.com".to_string(), "two".to_string()),
            Err(RepositoryError::AlreadyExists)
        );
    }
    assert_eq!(store.len(), 1);
}

#[test]
fn creates_with_one_drawn_identifier_all_succeed_and_are_found() {
    let mut store = InMemoryUserRepository::new();
    let mut made = Vec::new();
    for i in 0..30u128 {
        made.push(
            store.create_from(500, i as i64, format!("u{}@example.com", i), "h".to_string()).unwrap(),
        );
    }
    assert_eq!(store.len(), 30);
    for (i, record) in made.iter().enumerate() {
        assert_eq!(record.id, 500 + i as u128);
        assert_eq!(store.find_by_id(record.id).as_ref(), Some(record));
        assert_eq!(store.find_by_email(&record.email).as_ref(), Some(record));
    }
}

#[test]
fn create_on_an_empty_store_succeeds() {
    for _ in 0..50 {
        let mut store = InMemoryUserRepository::new();
        let made = store.create("a@example.com".to_string(), "h".to_string()).unwrap();
        assert_eq!(made.email, "a@example.com");
        assert_eq!(store.len(), 1);
    }
}

#[test]
fn create_with_refuses_an_identifier_in_use() {
    let mut store = InMemoryUserRepository::new();
    let first = store.create_with(1, 0, "a@example.com".to_string(), "one".to_string()).unwrap();
    let second = store.create_with(1, 5, "b@example.com".to_string(), "two".to_string());
    assert_eq!(
        second,
        Err(RepositoryError::Internal("User identifier already in use".to_string()))
    );
    assert_eq!(store.len(), 1);
    assert_eq!(store.find_by_id(1), Some(first));
    assert_eq!(store.find_by_email("b@example.com"), None);
}

#[test]
fn a_taken_email_is_reported_before_an_identifier_in_use() {
    let mut store = InMemoryUserRepository::new();
    store.create_with(1, 0, "a@example.com".to_string(), "one".to_string()).unwrap();
    assert_eq!(
        store.create_with(1, 0, "a@example.com".to_string(), "two".to_string()),
        Err(RepositoryError::AlreadyExists)
    );
    assert_eq!(store.len(), 1);
}

#[test]
fn no_write_leaves_two_records_with_one_email() {
    let mut store = InMemoryUserRepository::new();
    store.create_with(1, 0, "e@example.com".to_string(), "one".to_string()).unwrap();
    assert!(store.create_with(2, 0, "e@example.com".to_string(), "two".to_string()).is_err());
    assert!(store.insert(&user(3, "e@example.com")).is_err());
    assert!(store.create("e@example.com".to_string(), "three".to_string()).is_err());
    let (all, total) = store.list(1, 10);
    assert_eq!(total, 1);
    assert_eq!(all.iter().filter(|u| u.email == "e@example.com").count(), 1);
    assert_eq!(all[0].password_hash, "one");
}

#[test]
fn a_created_record_stays_as_it_was_returned() {
    let mut store = InMemoryUserRepository::new();
    let made = store.create("a@example.com".to_string(), "h".to_string()).unwrap();
    for i in 0..10u128 {
        let _ = store.create(format!("later{}@example.com", i), "h".to_string());
        let _ = store.create_with(made.id, 0, format!("clash{}@example.com", i), "h".to_string());
        let _ = store.create("a@example.com".to_string(), "other".to_string());
    }
    assert_eq!(store.find_by_id(made.id), Some(made.clone()));
    assert_eq!(store.find_by_email("a@example.com"), Some(made));
    assert_eq!(store.len(), 11);
}

#[test]
fn exists_by_id_tells_whether_an_identifier_is_in_use() {
    let mut store = InMemoryUserRepository::new();
    assert!(!store.exists_by_id(1));
    store.create_with(1, 0, "a@example.com".to_string(), "h".to_string()).unwrap();
    assert!(store.exists_by_id(1));
    assert!(!store.exists_by_id(2));
}

#[test]
fn new_with_users_leaves_out_a_taken_email_or_identifier() {
    let store = InMemoryUserRepository::new_with_users(vec![
        user(1, "a@example.com"),
        user(2, "b@example.com"),
        user(1, "c@example.com"),
        user(3, "b@example.com"),
        user(4, "d@example.com"),
    ]);
    assert_eq!(store.len(), 3);
    let (all, _) = store.list(1, 10);
    assert_eq!(
        all,
        vec![user(1, "a@example.com"), user(2, "b@example.com"), user(4, "d@example.com")]
    );
    assert_eq!(store.find_by_email("c@example.com"), None);
    assert_eq!(store.find_by_id(3), None);
}

#[test]
fn insert_refuses_a_taken_email_or_identifier() {
    let mut store = InMemoryUserRepository::new();
    assert_eq!(store.insert(&user(1, "a@example.com")), Ok(()));
    assert_eq!(store.insert(&user(2, "a@example.com")), Err(DatabaseError::AlreadyExists));
    assert_eq!(store.insert(&user(1, "b@example.com")), Err(DatabaseError::AlreadyExists));
    assert_eq!(store.insert(&user(2, "b@example.com")), Ok(()));
    assert_eq!(store.len(), 2);
    assert_eq!(store.find_by_id(1), Some(user(1, "a@example.com")));
}

fn store_of(n: u128) -> InMemoryUserRepository {
    let mut store = InMemoryUserRepository::new();
    for i in 0..n {
        store.create_with(i + 1, 0, format!("u{}@example.com", i), "h".to_string()).unwrap();
    }
    store
}

#[test]
fn list_returns_the_slice_of_the_page() {
    let store = store_of(5);
    let (page, total) = store.list(2, 2);
    assert_eq!(total, 5);
    assert_eq!(page.iter().map(|u| u.id).collect::<Vec<_>>(), vec![3, 4]);
    let (last, _) = store.list(3, 2);
    assert_eq!(last.iter().map(|u| u.id).collect::<Vec<_>>(), vec![5]);
}

#[test]
fn list_past_the_end_is_empty_with_the_true_total() {
    let store = store_of(5);
    assert_eq!(store.list(4, 2), (vec![], 5));
    assert_eq!(store.list(6, 1), (vec![], 5));
    assert_eq!(store.list(u32::MAX, u32::MAX), (vec![], 5));
    assert_eq!(store.list(2, u32::MAX), (vec![], 5));
}

#[test]
fn list_with_page_zero_or_limit_zero_is_empty() {
    let store = store_of(3);
    assert_eq!(store.list(0, 10), (vec![], 3));
    assert_eq!(store.list(1, 0), (vec![], 3));
    assert_eq!(store.list(0, 0), (vec![], 3));
}

#[test]
fn list_never_returns_more_than_the_limit() {
    let store = store_of(7);
    for limit in 1..10u32 {
        for page in 1..10u32 {
            let (slice, total) = store.list(page, limit);
            assert_eq!(total, 7);
            assert!(slice.len() <= limit as usize);
        }
    }
}

#[test]
fn all_pages_in_order_give_every_record_once() {
    let store = store_of(7);
    let (everything, _) = store.list(1, 100);
    assert_eq!(everything.len(), 7);
    for limit in 1..9u32 {
        let pages = (7 + limit - 1) / limit;
        let mut joined = Vec::new();
        for page in 1..=pages {
            joined.extend(store.list(page, limit).0);
        }
        assert_eq!(joined, everything);
    }
}

#[test]
fn list_is_the_same_for_the_same_store() {
    let store = store_of(4);
    assert_eq!(store.list(1, 3), store.list(1, 3));
}
