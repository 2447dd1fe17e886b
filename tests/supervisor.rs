use kvim_launch::supervisor::{Action, Event, Phase, Supervisor};

/// Drives a supervisor with the given indicator states after each exit,
/// every removal succeeding; returns launches (with their restart flags) and removals.
fn drive(states: &[bool]) -> (Vec<bool>, usize, Phase) {
    let (mut s, mut action) = Supervisor::start();
    let mut launches = Vec::new();
    let mut removals = 0;
    let mut next_state = states.iter();
    loop {
        match action {
            Action::Launch { restart } => {
                launches.push(restart);
                let present = *next_state.next().unwrap();
                action = s.step(Event::ChildExited { indicator_present: present });
            }
            Action::RemoveIndicator => {
                removals += 1;
                action = s.step(Event::IndicatorRemoved { ok: true });
            }
            Action::Finish | Action::Abort => break,
        }
    }
    (launches, removals, s.phase)
}

#[test]
fn present_present_absent() {
    let (launches, removals, phase) = drive(&[true, true, false]);
    assert_eq!(launches, vec![false, true, true]);
    assert_eq!(removals, 2);
    assert_eq!(phase, Phase::Done);
}

#[test]
fn absent_at_once() {
    let (launches, removals, phase) = drive(&[false]);
    assert_eq!(launches, vec![false]);
    assert_eq!(removals, 0);
    assert_eq!(phase, Phase::Done);
}

#[test]
fn failed_removal_is_fatal() {
    let (mut s, first) = Supervisor::start();
    assert_eq!(first, Action::Launch { restart: false });
    assert_eq!(s.step(Event::ChildExited { indicator_present: true }), Action::RemoveIndicator);
    assert_eq!(s.step(Event::IndicatorRemoved { ok: false }), Action::Abort);
    assert_eq!(s.phase, Phase::Failed);
    assert!(s.is_finished());
    assert_eq!(s.step(Event::ChildExited { indicator_present: true }), Action::Abort);
}

#[test]
fn launch_failure_aborts() {
    let (mut s, _) = Supervisor::start();
    assert_eq!(s.step(Event::LaunchFailed), Action::Abort);
    assert_eq!(s.phase, Phase::Failed);
}

#[test]
fn out_of_order_event_aborts() {
    let (mut s, _) = Supervisor::start();
    assert!(!s.is_finished());
    assert_eq!(s.step(Event::IndicatorRemoved { ok: true }), Action::Abort);
}

#[test]
fn done_stays_done() {
    let (mut s, _) = Supervisor::start();
    assert_eq!(s.step(Event::ChildExited { indicator_present: false }), Action::Finish);
    assert!(s.is_finished());
    assert_eq!(s.step(Event::ChildExited { indicator_present: true }), Action::Finish);
    assert_eq!(s.phase, Phase::Done);
}
