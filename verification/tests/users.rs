use justpic::text::join_words;
use justpic::users::{process_username, DbUser};
use justpic::roles::Role;

#[test]
fn test_user_creation() {
    let email = "test@example.com";
    let username = "john_doe";
    let _d_name = "John Doe";
    let p_hash = "hunter42";

    let user = DbUser::new(email, p_hash, username);

    assert_eq!(user.username, process_username(username));

    assert_eq!(user.email, email);
}

#[test]
fn test_username_processer() {
    assert_eq!(process_username("John Doe 42"), "john_doe_42");

    assert_eq!(process_username(" J D 4 "), "j_d_4");

    // username chars validation is done in DTO
    assert_eq!(process_username("  "), "");
}

#[test]
fn username_runs_of_space_become_one_underscore() {
    assert_eq!(process_username("a \t\n b"), "a_b");
    assert_eq!(process_username("x\u{3000}y\u{a0}z"), "x_y_z");
    assert_eq!(process_username(""), "");
    assert_eq!(process_username("ÄBC Ωmega"), "äbc_ωmega");
}

#[test]
fn join_words_keeps_case_and_is_idempotent() {
    let once = join_words("  Hello   World ");
    assert_eq!(once, "Hello_World");
    assert_eq!(join_words(&once), once);
}

#[test]
fn new_user_is_regular_without_images() {
    let user = DbUser::new("a@b.c", "hash", "Some Name");
    assert_eq!(user.username, "some_name");
    assert_eq!(user.password, "hash");
    assert_eq!(user.role, Role::Regular);
    assert!(user.avatar_url.is_none());
    assert!(user.banner_url.is_none());
    let other = DbUser::new("a@b.c", "hash", "Some Name");
    assert_ne!(user.id, other.id);
}

#[test]
fn creation_time_is_the_clock() {
    let user = DbUser::new("a@b.c", "h", "n");
    // after 2020-01-01 and before 2200-01-01, in nanoseconds since the epoch
    assert!(user.created > 1_577_836_800_000_000_000);
    assert!(user.created < 7_258_118_400_000_000_000);
}
