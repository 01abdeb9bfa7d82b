use cor::plan::{Plan, PlanStatus};
use cor::syscall::{silent_step, Syscall};

fn plan_of(n: usize) -> Plan {
    let mut steps = Vec::new();
    for i in 0..n {
        steps.push(silent_step(Syscall::Chdir { path: format!("/{}\0", i) }));
    }
    Plan::new(steps)
}

#[test]
fn empty_plan_is_completed() {
    let p = plan_of(0);
    assert_eq!(p.status(), PlanStatus::Completed);
    assert!(p.next_step().is_none());
}

#[test]
fn steps_are_offered_in_order() {
    let mut p = plan_of(3);
    for i in 0..3 {
        assert_eq!(p.status(), PlanStatus::Running);
        let step = p.next_step().unwrap();
        assert_eq!(step.call, Syscall::Chdir { path: format!("/{}\0", i) });
        p.record(true);
    }
    assert_eq!(p.status(), PlanStatus::Completed);
    p.record(false);
    assert_eq!(p.status(), PlanStatus::Completed);
}

#[test]
fn plan_stops_at_first_failure_law() {
    for fail_at in 0..4 {
        let mut p = plan_of(4);
        let mut offered = 0;
        while let Some(_) = p.next_step() {
            let ok = offered != fail_at;
            offered += 1;
            p.record(ok);
        }
        assert_eq!(offered, fail_at + 1);
        assert_eq!(p.status(), PlanStatus::Failed(fail_at));
    }
}

#[test]
fn plan_completes_iff_all_succeed_law() {
    let mut p = plan_of(2);
    p.record(true);
    p.record(true);
    assert_eq!(p.status(), PlanStatus::Completed);
    let mut q = plan_of(2);
    q.record(true);
    q.record(false);
    assert_eq!(q.status(), PlanStatus::Failed(1));
}
