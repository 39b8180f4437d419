use std::collections::HashSet;
use tempfile::{next_step, tmpname, Attempt, ErrorKind, Step};

#[test]
fn created_is_accepted() {
    assert_eq!(next_step(Attempt::Created), Step::Accept);
}

#[test]
fn taken_name_is_retried() {
    assert_eq!(next_step(Attempt::Failed(ErrorKind::AlreadyExists)), Step::Retry);
}

#[test]
fn other_errors_end_the_loop() {
    for k in [
        ErrorKind::NotFound,
        ErrorKind::PermissionDenied,
        ErrorKind::CrossDeviceLink,
        ErrorKind::Unsupported,
        ErrorKind::Other,
    ] {
        assert_eq!(next_step(Attempt::Failed(k)), Step::Fail(k));
    }
}

// A directory in memory whose first candidate names are all taken: the loop
// must pass over every one of them and settle on a fresh name.
#[test]
fn creation_retries_past_taken_names() {
    let mut existing: HashSet<Vec<u8>> = HashSet::new();
    let mut planted: Vec<Vec<u8>> = Vec::new();
    let mut attempts = 0;
    let chosen = loop {
        let name = tmpname();
        attempts += 1;
        let attempt = if attempts <= 5 {
            // something pre-created this very name
            existing.insert(name.clone());
            planted.push(name.clone());
            Attempt::Failed(ErrorKind::AlreadyExists)
        } else if existing.contains(&name) {
            Attempt::Failed(ErrorKind::AlreadyExists)
        } else {
            Attempt::Created
        };
        match next_step(attempt) {
            Step::Accept => break name,
            Step::Retry => continue,
            Step::Fail(k) => panic!("unexpected failure {:?}", k),
        }
    };
    assert!(attempts >= 6);
    assert!(!planted.contains(&chosen));
    assert_eq!(planted.len(), 5);
}

#[test]
fn creation_stops_at_first_fatal_error() {
    let outcomes = [
        Attempt::Failed(ErrorKind::AlreadyExists),
        Attempt::Failed(ErrorKind::PermissionDenied),
        Attempt::Created,
    ];
    let mut end = None;
    for (i, a) in outcomes.iter().enumerate() {
        match next_step(*a) {
            Step::Retry => continue,
            s => {
                end = Some((i, s));
                break;
            }
        }
    }
    assert_eq!(end, Some((1, Step::Fail(ErrorKind::PermissionDenied))));
}
