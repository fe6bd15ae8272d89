use simple_crate::models::Identifiable;
use simple_crate::models::User;
use simple_crate::models::UserRole;
use simple_crate::utils::IdGenerator;

#[test]
fn new_user_consumes_the_next_id() {
    let mut gen = IdGenerator::new();
    let first = User::new(&mut gen, "x");
    assert_eq!(first.id(), 1);
    let second = User::new(&mut gen, "y");
    assert_eq!(second.id(), 2);
    assert_eq!(gen.next_id(), 3);
}

#[test]
fn new_user_keeps_name_and_has_no_email() {
    let mut gen = IdGenerator::new();
    let user = User::new(&mut gen, "  Alice  ");
    assert_eq!(user.name, "  Alice  ");
    assert_eq!(user.email, None);
}

#[test]
fn with_email_sets_email_and_keeps_id_and_name() {
    let mut gen = IdGenerator::new();
    let user = User::new(&mut gen, "x").with_email("a@b");
    assert_eq!(user.email, Some("a@b".to_string()));
    assert_eq!(user.id, 1);
    assert_eq!(user.name, "x");
}

#[test]
fn clone_is_an_exact_copy() {
    let mut gen = IdGenerator::new();
    let user = User::new(&mut gen, "x").with_email("a@b");
    let copy = user.clone();
    assert_eq!(copy.id, user.id);
    assert_eq!(copy.name, user.name);
    assert_eq!(copy.email, user.email);
}

#[test]
fn roles_are_the_three_declared_variants() {
    let roles = [UserRole::Admin, UserRole::Member, UserRole::Guest];
    assert!(matches!(roles[0], UserRole::Admin));
    assert!(matches!(roles[1], UserRole::Member));
    assert!(matches!(roles[2], UserRole::Guest));
}
