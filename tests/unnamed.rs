use tempfile::{creation_steps, tier_for, FsStep, Platform, SharedAction, SharedCreation, Tier};

#[test]
fn each_platform_has_its_tier() {
    assert_eq!(tier_for(Platform::Linux), Tier::NoLink);
    assert_eq!(tier_for(Platform::OtherUnix), Tier::CreateThenUnlink);
    assert_eq!(tier_for(Platform::Windows), Tier::DeleteOnClose);
}

#[test]
fn steps_of_each_tier() {
    assert_eq!(creation_steps(Tier::NoLink), vec![FsStep::OpenUnlinked]);
    assert_eq!(
        creation_steps(Tier::CreateThenUnlink),
        vec![FsStep::CreateExclusive, FsStep::Unlink]
    );
    assert_eq!(creation_steps(Tier::DeleteOnClose), vec![FsStep::CreateDeleteOnClose]);
}

#[test]
fn unix_tiers_end_without_a_name() {
    for p in [Platform::Linux, Platform::OtherUnix] {
        let steps = creation_steps(tier_for(p));
        let last = *steps.last().unwrap();
        assert!(last == FsStep::OpenUnlinked || last == FsStep::Unlink);
    }
}

#[test]
fn shared_makes_every_handle() {
    let mut s = SharedCreation::new(3);
    let mut seen = Vec::new();
    loop {
        let a = s.action();
        seen.push(a);
        match a {
            SharedAction::Done | SharedAction::CloseAll => break,
            _ => s.record(true),
        }
    }
    assert_eq!(
        seen,
        vec![
            SharedAction::CreateFirst,
            SharedAction::Reopen,
            SharedAction::Reopen,
            SharedAction::Done
        ]
    );
}

#[test]
fn shared_failure_closes_everything() {
    let mut s = SharedCreation::new(4);
    assert_eq!(s.action(), SharedAction::CreateFirst);
    s.record(true);
    assert_eq!(s.action(), SharedAction::Reopen);
    s.record(false);
    assert_eq!(s.action(), SharedAction::CloseAll);
}

#[test]
fn shared_first_failure_closes_everything() {
    let mut s = SharedCreation::new(2);
    s.record(false);
    assert_eq!(s.action(), SharedAction::CloseAll);
}

#[test]
fn shared_of_zero_is_done_at_once() {
    assert_eq!(SharedCreation::new(0).action(), SharedAction::Done);
}

#[test]
fn shared_of_one_needs_no_reopen() {
    let mut s = SharedCreation::new(1);
    assert_eq!(s.action(), SharedAction::CreateFirst);
    s.record(true);
    assert_eq!(s.action(), SharedAction::Done);
}
