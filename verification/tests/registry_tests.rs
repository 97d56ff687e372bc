use rustd3d::registry::{Admission, ClassRegistry};

fn count_run_body(admissions: &[Admission]) -> usize {
    admissions.iter().filter(|a| matches!(a, Admission::RunBody)).count()
}

#[test]
fn single_caller_registers_once() {
    let mut registry = ClassRegistry::new("rustd3d.MainWindow");
    let first = registry.begin_registration();
    assert_eq!(first, Admission::RunBody);
    registry.finish_registration(true);
    let again = registry.begin_registration();
    assert_eq!(again, Admission::AlreadyDone);
    assert_eq!(count_run_body(&[first, again]), 1);
}

#[test]
fn two_concurrent_callers_register_once() {
    let mut registry = ClassRegistry::new("rustd3d.MainWindow");
    // both callers arrive before the body completes
    let a = registry.begin_registration();
    let b = registry.begin_registration();
    assert_eq!(a, Admission::RunBody);
    assert_eq!(b, Admission::AwaitCompletion);
    registry.finish_registration(true);
    // the blocked caller re-observes the completed registration
    let b_after = registry.begin_registration();
    assert_eq!(b_after, Admission::AlreadyDone);
    assert_eq!(count_run_body(&[a, b, b_after]), 1);
}

#[test]
fn eight_concurrent_callers_register_once() {
    let mut registry = ClassRegistry::new("rustd3d.MainWindow");
    let mut admissions = Vec::new();
    // all eight arrive while the first is still registering
    for _ in 0..8 {
        admissions.push(registry.begin_registration());
    }
    registry.finish_registration(true);
    // the waiters proceed once it completes, without re-registering
    for _ in 0..7 {
        admissions.push(registry.begin_registration());
    }
    assert_eq!(count_run_body(&admissions), 1);
    assert_eq!(admissions[0], Admission::RunBody);
    for a in &admissions[1..8] {
        assert_eq!(*a, Admission::AwaitCompletion);
    }
    for a in &admissions[8..] {
        assert_eq!(*a, Admission::AlreadyDone);
    }
}

#[test]
fn failed_registration_is_fatal() {
    let mut registry = ClassRegistry::new("rustd3d.MainWindow");
    assert_eq!(registry.begin_registration(), Admission::RunBody);
    registry.finish_registration(false);
    // nobody can create windows of the class afterwards
    assert_eq!(registry.begin_registration(), Admission::Fatal);
    assert_eq!(registry.begin_registration(), Admission::Fatal);
}
