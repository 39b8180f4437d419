use tempfile::{candidate_name, tmpname, RANDOM_LEN};

fn is_alnum(b: u8) -> bool {
    b.is_ascii_digit() || b.is_ascii_uppercase() || b.is_ascii_lowercase()
}

#[test]
fn candidate_name_puts_prefix_before_random_part() {
    assert_eq!(candidate_name(b"a1B2c3"), b"tmpa1B2c3".to_vec());
}

#[test]
fn candidate_name_of_nothing_is_the_prefix() {
    assert_eq!(candidate_name(b""), b"tmp".to_vec());
}

#[test]
fn tmpname_has_fixed_shape() {
    for _ in 0..200 {
        let name = tmpname();
        assert_eq!(name.len(), 3 + RANDOM_LEN);
        assert_eq!(&name[..3], b"tmp");
        assert!(name.iter().all(|&b| is_alnum(b)));
    }
}

#[test]
fn tmpname_draws_fresh_names() {
    let a = tmpname();
    let b = tmpname();
    let c = tmpname();
    assert!(a != b || b != c);
}

#[test]
fn tmpname_random_part_varies() {
    let mut seen = std::collections::HashSet::new();
    for _ in 0..50 {
        seen.insert(tmpname()[3..].to_vec());
    }
    assert!(seen.len() > 1);
}
