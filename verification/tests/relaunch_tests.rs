use iup::relaunch::{relaunch_exit_code, relaunch_plan, RelaunchPlan, GUARD_VALUE};
use iup::xerror::XError;

#[test]
fn fresh_process_spawns() {
    match relaunch_plan(None, "/opt/app/iup/linux", None) {
        RelaunchPlan::Spawn { library_path } => {
            assert_eq!(library_path, "/opt/app/iup/linux");
        }
        RelaunchPlan::Proceed => panic!("a fresh process must spawn"),
    }
}

#[test]
fn existing_search_path_is_kept_behind() {
    match relaunch_plan(None, "/opt/app/iup/linux", Some("/usr/lib:/lib")) {
        RelaunchPlan::Spawn { library_path } => {
            assert_eq!(library_path, "/opt/app/iup/linux:/usr/lib:/lib");
        }
        RelaunchPlan::Proceed => panic!("a fresh process must spawn"),
    }
}

#[test]
fn guarded_process_proceeds() {
    match relaunch_plan(Some("1"), "/opt/app/iup/linux", None) {
        RelaunchPlan::Proceed => {}
        RelaunchPlan::Spawn { .. } => panic!("a guarded process must not spawn"),
    }
}

#[test]
fn other_guard_value_still_spawns() {
    match relaunch_plan(Some("0"), "/opt/app/iup/linux", None) {
        RelaunchPlan::Spawn { .. } => {}
        RelaunchPlan::Proceed => panic!("only the guard value marks a relaunched process"),
    }
}

#[test]
fn relauncher_spawns_at_most_once() {
    // First invocation: no guard, so the plan spawns and the child inherits
    // the guard value.
    let first = relaunch_plan(None, "/d", Some("/old"));
    assert!(matches!(first, RelaunchPlan::Spawn { .. }));
    // Second invocation, as the child sees it: the guard is set, so the plan
    // proceeds and no second child is ever spawned.
    let second = relaunch_plan(Some(GUARD_VALUE), "/d", Some("/old"));
    assert!(matches!(second, RelaunchPlan::Proceed));
}

#[test]
fn child_exit_code_is_propagated() {
    assert_eq!(relaunch_exit_code(Some(3)).unwrap(), 3);
    assert_eq!(relaunch_exit_code(Some(0)).unwrap(), 0);
}

#[test]
fn child_killed_by_signal_is_fatal() {
    match relaunch_exit_code(None) {
        Err(XError::IoFailure(_)) => {}
        other => panic!("expected IoFailure, got {:?}", other),
    }
}
