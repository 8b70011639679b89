use nspawn_lite::errors::ErrorKind;
use nspawn_lite::errors::LaunchError;
use nspawn_lite::errors::Stage;
use nspawn_lite::model::ContainerState;
use nspawn_lite::model::Op;
use nspawn_lite::model::World;
use nspawn_lite::model::first_process_is_one;
use nspawn_lite::model::host_sentinel_check;
use nspawn_lite::model::launch_plan;
use nspawn_lite::model::launch_sequence;
use nspawn_lite::model::proc_listing_shows_host;
use nspawn_lite::model::sentinel_check;
use nspawn_lite::model::step;

fn good_world() -> World {
    World {
        root_path_exists: true,
        tree_has_cmd: true,
        cmd_executable: true,
        tree_has_sentinel: true,
        host_has_sentinel: true,
        pid_isolated: true,
        identity_requested: false,
        privileged: true,
    }
}

#[test]
fn scenario_noop_executable_succeeds() {
    let w = good_world();
    let out = launch_sequence(&w);
    assert_eq!(out.failed, None);
    assert!(out.state.image_replaced);
    assert!(out.state.root_switched);
    assert!(out.state.old_root_detached);
    assert!(out.state.cwd_at_root);
    assert!(out.state.proc_mounted);
    assert_eq!(out.trace, launch_plan());
}

#[test]
fn scenario_non_executable_cmd_fails_at_exec() {
    let mut w = good_world();
    w.cmd_executable = false;
    let out = launch_sequence(&w);
    assert_eq!(out.failed, Some(Stage::Exec));
    let err = LaunchError { stage: Stage::Exec, errno: 13 };
    assert_eq!(err.kind(), ErrorKind::Exec);
    // The old root had already been lazily detached before the failure.
    assert!(out.state.old_root_detached);
    assert!(out.state.root_switched);
    assert!(!out.state.image_replaced);
}

#[test]
fn scenario_no_pid_isolation_exposes_host_processes() {
    let mut w = good_world();
    w.pid_isolated = false;
    let out = launch_sequence(&w);
    assert_eq!(out.failed, None);
    assert!(out.state.proc_mounted);
    assert!(proc_listing_shows_host(&w, &out.state));
    assert!(!first_process_is_one(&w, &out.state));
}

#[test]
fn sentinel_only_from_prepared_tree() {
    let w = good_world();
    let out = launch_sequence(&w);
    assert_eq!(out.failed, None);
    assert!(sentinel_check(&w, &out.state));
    assert!(!host_sentinel_check(&w, &out.state));

    let mut bare = good_world();
    bare.tree_has_sentinel = false;
    let out2 = launch_sequence(&bare);
    assert!(!sentinel_check(&bare, &out2.state));
    assert!(!host_sentinel_check(&bare, &out2.state));
}

#[test]
fn pid_isolation_gives_pid_one_view() {
    let w = good_world();
    let out = launch_sequence(&w);
    assert!(out.state.proc_mounted);
    assert!(first_process_is_one(&w, &out.state));
    assert!(!proc_listing_shows_host(&w, &out.state));
}

#[test]
fn propagation_isolator_is_first_mount_call() {
    let mut worlds = vec![good_world()];
    let mut no_root = good_world();
    no_root.root_path_exists = false;
    worlds.push(no_root);
    let mut no_priv = good_world();
    no_priv.privileged = false;
    worlds.push(no_priv);
    let mut no_exec = good_world();
    no_exec.tree_has_cmd = false;
    worlds.push(no_exec);
    for w in worlds {
        let out = launch_sequence(&w);
        assert!(!out.trace.is_empty());
        assert_eq!(out.trace[0], Op::IsolatePropagation);
    }
}

#[test]
fn missing_root_fails_at_bind_mount() {
    let mut w = good_world();
    w.root_path_exists = false;
    let out = launch_sequence(&w);
    assert_eq!(out.failed, Some(Stage::BindRoot));
    let err = LaunchError { stage: Stage::BindRoot, errno: 2 };
    assert_eq!(err.kind(), ErrorKind::Mount);
    assert_eq!(out.trace, vec![Op::IsolatePropagation, Op::BindRootSelf]);
    assert!(!out.trace.contains(&Op::PivotToRoot));
    assert!(!out.state.root_switched);
}

#[test]
fn unprivileged_run_fails_at_propagation() {
    let mut w = good_world();
    w.privileged = false;
    let out = launch_sequence(&w);
    assert_eq!(out.failed, Some(Stage::Propagation));
    assert_eq!(out.trace, vec![Op::IsolatePropagation]);
    assert!(!out.state.propagation_private);
}

#[test]
fn identity_stage_changes_nothing_unless_requested() {
    let w = good_world();
    let out = launch_sequence(&w);
    assert_eq!(out.failed, None);
    assert!(!out.state.identity_unshared);

    let mut wid = good_world();
    wid.identity_requested = true;
    let out2 = launch_sequence(&wid);
    assert_eq!(out2.failed, None);
    assert!(out2.state.identity_unshared);
    // The unshare stands strictly after the proc mount, before the hand-off.
    let plan = launch_plan();
    assert_eq!(plan[5], Op::MountProcFs);
    assert_eq!(plan[6], Op::UnshareIdentity);
    assert_eq!(plan[7], Op::ExecHandoff);
}

#[test]
fn pivot_needs_a_mount_point() {
    let w = good_world();
    let fresh = ContainerState::initial();
    // Without the bind mount the target is no mount point: the pivot fails.
    assert_eq!(step(&w, &fresh, Op::PivotToRoot), Err(Stage::Pivot));
}

#[test]
fn proc_mount_needs_switched_root() {
    let w = good_world();
    let fresh = ContainerState::initial();
    assert_eq!(step(&w, &fresh, Op::MountProcFs), Err(Stage::ProcMount));
}
