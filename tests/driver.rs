use three_body::{Action, Driver, Outcome, SimError, Status};

#[test]
fn first_step_is_reported_before_it_is_computed() {
    let d = Driver::new(5, 1_000);
    assert_eq!(d.next_action(), Action::Advance { index: 0, report: true });
    assert_eq!(d.next_index, 0);
}

#[test]
fn run_takes_each_step_once_then_finishes() {
    let mut d = Driver::new(4, 2);
    let mut seen = Vec::new();
    loop {
        match d.next_action() {
            Action::Advance { index, report } => {
                seen.push((index, report));
                d.record(Outcome::Advanced);
            }
            Action::Finish { steps } => {
                assert_eq!(steps, 4);
                break;
            }
            Action::Abort { .. } => panic!("no step fails here"),
        }
    }
    assert_eq!(seen, vec![(0, true), (1, false), (2, true), (3, false)]);
}

#[test]
fn zero_stride_never_reports() {
    let mut d = Driver::new(3, 0);
    for i in 0..3 {
        assert_eq!(d.next_action(), Action::Advance { index: i, report: false });
        d.record(Outcome::Advanced);
    }
    assert_eq!(d.next_action(), Action::Finish { steps: 3 });
}

#[test]
fn zero_steps_finish_at_once() {
    let d = Driver::new(0, 1);
    assert_eq!(d.next_action(), Action::Finish { steps: 0 });
}

#[test]
fn failed_step_aborts_without_committing() {
    let mut d = Driver::new(10, 1);
    d.record(Outcome::Advanced);
    let e = SimError::SingularConfiguration { first: 0, second: 1 };
    d.record(Outcome::Failed(e));
    assert_eq!(d.status, Status::Aborted(e));
    assert_eq!(d.next_action(), Action::Abort { index: 1, error: e });
}

#[test]
fn cancelled_run_finishes_early() {
    let mut d = Driver::new(10, 1);
    d.record(Outcome::Advanced);
    d.record(Outcome::Advanced);
    d.record(Outcome::Cancelled);
    assert_eq!(d.next_action(), Action::Finish { steps: 2 });
}
