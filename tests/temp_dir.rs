use keystore2_test_utils::path::PathBuilder;
use keystore2_test_utils::temp_dir::{candidate_for, dir_name_for, Allocation, CreateDirError};
use keystore2_test_utils::TempDir;

fn created(path: &str) -> TempDir {
    match TempDir::settle::<String>(path.to_string(), Ok(())) {
        Allocation::Created(d) => d,
        _ => panic!("a created directory must give a handle"),
    }
}

#[test]
fn dir_name_is_zero_padded() {
    assert_eq!(dir_name_for("my_test", 42), "my_test_00042");
    assert_eq!(dir_name_for("my_test", 0), "my_test_00000");
    assert_eq!(dir_name_for("my_test", 65535), "my_test_65535");
    assert_eq!(dir_name_for("", 12345), "_12345");
}

#[test]
fn candidate_joins_root_and_name() {
    assert_eq!(candidate_for("/tmp", "ks", 7), "/tmp/ks_00007");
    assert_eq!(candidate_for("/tmp/", "ks", 7), "/tmp/ks_00007");
    assert_eq!(candidate_for("", "ks", 980), "ks_00980");
}

#[test]
fn next_candidate_has_prefix_and_five_digits() {
    for _ in 0..50 {
        let c = TempDir::next_candidate("/tmp", "keystore");
        let seg = c.rsplit('/').next().unwrap();
        assert!(c.starts_with("/tmp/keystore_"));
        assert_eq!(seg.len(), "keystore_".len() + 5);
        assert!(seg["keystore_".len()..].chars().all(|ch| ch.is_ascii_digit()));
    }
}

#[test]
fn next_candidates_vary() {
    let first = TempDir::next_candidate("/tmp", "p");
    let differs = (0..100).any(|_| TempDir::next_candidate("/tmp", "p") != first);
    assert!(differs);
}

#[test]
fn settle_created_gives_owning_handle() {
    let d = created("/tmp/ks_00001");
    assert_eq!(d.path(), "/tmp/ks_00001");
    assert!(d.cleanup_on_drop());
}

#[test]
fn settle_taken_name_asks_for_retry() {
    let r = TempDir::settle::<String>("/tmp/ks_00001".to_string(), Err(CreateDirError::AlreadyExists));
    assert!(matches!(r, Allocation::Retry));
}

#[test]
fn settle_other_failure_is_reported() {
    let r = TempDir::settle("/tmp/ks_00001".to_string(), Err(CreateDirError::Other("denied".to_string())));
    match r {
        Allocation::Failed(e) => assert_eq!(e, "denied"),
        _ => panic!("other failures must be reported"),
    }
}

#[test]
fn taken_first_candidate_then_free_one() {
    let first = candidate_for("/tmp", "dup", 11);
    let r = TempDir::settle::<String>(first.clone(), Err(CreateDirError::AlreadyExists));
    assert!(matches!(r, Allocation::Retry));
    let second = candidate_for("/tmp", "dup", 12);
    let d = created(&second);
    assert_ne!(d.path(), first);
}

#[test]
fn do_not_drop_keeps_directory() {
    let mut d = created("/tmp/ks_00002");
    d.do_not_drop();
    assert!(!d.cleanup_on_drop());
    assert_eq!(d.path(), "/tmp/ks_00002");
}

#[test]
fn build_push_push_joins_segments() {
    let d = created("/tmp/ks_00003");
    let b = d.build().push("a").push("b");
    assert_eq!(b.path(), format!("{}/a/b", d.path()));
    assert_eq!(d.path(), "/tmp/ks_00003");
}

#[test]
fn push_after_trailing_separator() {
    let b = PathBuilder::from_path("/tmp/").push("x");
    assert_eq!(b.path(), "/tmp/x");
}

#[test]
fn push_absolute_segment_replaces() {
    let b = PathBuilder::from_path("/tmp/ks").push("/etc").push("hosts");
    assert_eq!(b.path(), "/etc/hosts");
}

#[test]
fn push_onto_empty_path() {
    let b = PathBuilder::from_path("").push("rel");
    assert_eq!(b.path(), "rel");
}
