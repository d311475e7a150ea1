use std::collections::hash_map::DefaultHasher;
use std::hash::{Hash, Hasher};
use sonetto::account::{create_user, generate_user_id, handle_user_login, new_account, username_for, verify_user_password, AccountError, LoginPlan};

fn reference_id(email: &str) -> i64 {
    let mut hasher = DefaultHasher::new();
    email.to_lowercase().hash(&mut hasher);
    (1_000_000 + (hasher.finish() % 9_000_000)) as i64
}

#[test]
fn user_ids_hash_the_lowercased_email() {
    for e in ["player@example.com", "Player@Example.COM", "x", "", "ÄÖ@mail.de"] {
        let id = generate_user_id(e);
        assert_eq!(id, reference_id(e));
        assert!((1_000_000..10_000_000).contains(&id));
    }
    assert_eq!(generate_user_id("A@B.C"), generate_user_id("a@b.c"));
}

#[test]
fn usernames_come_from_the_email() {
    assert_eq!(username_for("sonetto@mail.com"), "sonetto");
    assert_eq!(username_for("no-at-sign"), "no-at-sign");
    assert_eq!(username_for("@x"), "");
    assert_eq!(username_for("a@b@c"), "a");
}

#[test]
fn new_accounts() {
    let a = new_account(1234567, "vertin@foundation.org");
    assert_eq!(a.id, 1234567);
    assert_eq!(a.username, "vertin");
    assert_eq!(a.email, "vertin@foundation.org");
    assert_eq!((a.vip_level, a.age), (0, 18));
    assert!(a.real_name_status && a.is_adult && a.cipher_mark);
    assert!(!a.first_join && !a.need_real_name && !a.need_activate);
    assert_eq!(a.account_tags, "");
}

#[test]
fn login_creates_then_checks_the_password() {
    // bcrypt at its default cost takes a moment.
    let (account, hash) = create_user(2000000, "a@b.c", "secret").unwrap();
    assert_eq!(account.username, "a");
    assert!(hash.starts_with("$2b$12$"));
    assert_eq!(verify_user_password(Some(&hash), "secret"), Ok(true));
    assert_eq!(verify_user_password(Some(&hash), "wrong"), Ok(false));
    assert_eq!(verify_user_password(None, "secret"), Ok(false));
    assert_eq!(verify_user_password(Some("not a hash"), "secret"), Err(AccountError::Hash));

    match handle_user_login(None, None, "New@Player.io", "pw").unwrap() {
        LoginPlan::Create { user_id } => assert_eq!(user_id, reference_id("New@Player.io")),
        other => panic!("unexpected {:?}", other),
    }
    match handle_user_login(Some(account.clone()), Some(&hash), "a@b.c", "secret").unwrap() {
        LoginPlan::Existing(u) => assert_eq!(u.id, 2000000),
        other => panic!("unexpected {:?}", other),
    }
    assert_eq!(
        handle_user_login(Some(account.clone()), Some(&hash), "a@b.c", "nope").unwrap_err(),
        AccountError::InvalidPassword
    );
    assert_eq!(handle_user_login(Some(account), None, "a@b.c", "secret").unwrap_err(), AccountError::InvalidPassword);
}
