use iwd_devices::{Action, FailureKind, Outcome, Stage};

fn run(outcomes: &[Outcome]) -> (Stage, Vec<Action>) {
    let mut stage = Stage::start();
    let mut actions = Vec::new();
    for outcome in outcomes {
        actions.push(stage.next_action());
        stage = stage.advance(*outcome);
    }
    (stage, actions)
}

#[test]
fn a_run_starts_disconnected() {
    let stage = Stage::start();
    assert_eq!(stage, Stage::Disconnected);
    assert!(!stage.finished());
    assert_eq!(stage.next_action(), Action::Connect);
    assert_eq!(stage.exit_status(), None);
}

#[test]
fn success_walks_through_every_stage() {
    let (stage, actions) = run(&[Outcome::Succeeded; 4]);
    assert_eq!(stage, Stage::Done);
    assert_eq!(
        actions,
        vec![Action::Connect, Action::Enumerate, Action::Serialize, Action::Write]
    );
    assert!(stage.finished());
    assert_eq!(stage.next_action(), Action::Succeed);
    assert_eq!(stage.exit_status(), Some(0));
}

#[test]
fn each_stage_has_its_successor() {
    assert_eq!(Stage::Disconnected.advance(Outcome::Succeeded), Stage::Connected);
    assert_eq!(Stage::Connected.advance(Outcome::Succeeded), Stage::Enumerated);
    assert_eq!(Stage::Enumerated.advance(Outcome::Succeeded), Stage::Serialized);
    assert_eq!(Stage::Serialized.advance(Outcome::Succeeded), Stage::Done);
    assert_eq!(Stage::Serialized.advance(Outcome::Failed), Stage::Done);
    assert_eq!(Stage::Connected.next_action(), Action::Enumerate);
    assert_eq!(Stage::Enumerated.next_action(), Action::Serialize);
    assert_eq!(Stage::Serialized.next_action(), Action::Write);
    assert_eq!(Stage::Serialized.exit_status(), None);
    assert!(!Stage::Serialized.finished());
}

#[test]
fn failed_connection_ends_the_run() {
    let (stage, actions) = run(&[Outcome::Failed]);
    assert_eq!(stage, Stage::Failed(FailureKind::Connection));
    assert_eq!(actions, vec![Action::Connect]);
    assert!(stage.finished());
    assert_eq!(stage.next_action(), Action::Report(FailureKind::Connection));
    assert_eq!(stage.exit_status(), Some(1));
}

#[test]
fn remote_call_timeout_ends_the_run_without_output() {
    let (stage, actions) = run(&[Outcome::Succeeded, Outcome::Failed]);
    assert_eq!(stage, Stage::Failed(FailureKind::RemoteCall));
    assert_eq!(actions, vec![Action::Connect, Action::Enumerate]);
    assert!(!actions.contains(&Action::Write));
    assert!(stage.finished());
    assert_eq!(stage.next_action(), Action::Report(FailureKind::RemoteCall));
    let status = stage.exit_status().expect("the run is over");
    assert_ne!(status, 0);
    assert_eq!(status, 1);
}

#[test]
fn failed_serialization_ends_the_run() {
    let (stage, actions) = run(&[Outcome::Succeeded, Outcome::Succeeded, Outcome::Failed]);
    assert_eq!(stage, Stage::Failed(FailureKind::Serialization));
    assert_eq!(actions, vec![Action::Connect, Action::Enumerate, Action::Serialize]);
    assert_eq!(stage.next_action(), Action::Report(FailureKind::Serialization));
    assert_eq!(stage.exit_status(), Some(1));
}

#[test]
fn a_finished_run_stays_as_it_is() {
    for stage in [
        Stage::Done,
        Stage::Failed(FailureKind::Connection),
        Stage::Failed(FailureKind::RemoteCall),
        Stage::Failed(FailureKind::Serialization),
    ] {
        assert!(stage.finished());
        assert_eq!(stage.advance(Outcome::Succeeded), stage);
        assert_eq!(stage.advance(Outcome::Failed), stage);
    }
}

#[test]
fn the_first_failure_decides() {
    let (stage, _) = run(&[
        Outcome::Succeeded,
        Outcome::Failed,
        Outcome::Succeeded,
        Outcome::Failed,
        Outcome::Succeeded,
    ]);
    assert_eq!(stage, Stage::Failed(FailureKind::RemoteCall));
    let (stage, _) = run(&[Outcome::Failed, Outcome::Succeeded, Outcome::Succeeded]);
    assert_eq!(stage, Stage::Failed(FailureKind::Connection));
}

#[test]
fn no_stage_is_entered_twice() {
    let all = [
        Stage::Disconnected,
        Stage::Connected,
        Stage::Enumerated,
        Stage::Serialized,
    ];
    for (position, stage) in all.iter().enumerate() {
        for outcome in [Outcome::Succeeded, Outcome::Failed] {
            let next = stage.advance(outcome);
            assert!(!all[..=position].contains(&next));
        }
    }
}
