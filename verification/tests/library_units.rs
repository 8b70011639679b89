use nspawn_lite::config::LaunchConfig;
use nspawn_lite::errors::ErrorKind;
use nspawn_lite::errors::LaunchError;
use nspawn_lite::errors::Stage;
use nspawn_lite::flags::CLONE_NEWIPC;
use nspawn_lite::flags::CLONE_NEWNS;
use nspawn_lite::flags::CLONE_NEWPID;
use nspawn_lite::flags::CLONE_NEWUSER;
use nspawn_lite::flags::CLONE_NEWUTS;
use nspawn_lite::flags::NamespaceFlagSet;
use nspawn_lite::flags::procfs_bits;
use nspawn_lite::flags::rprivate_bits;
use nspawn_lite::launch::LaunchPlan;
use nspawn_lite::launch::child_exit_code;
use nspawn_lite::launch::finish_spawn;
use nspawn_lite::launch::unshare_identity;
use nspawn_lite::stack::STACK_SIZE;
use nspawn_lite::stack::StackRegion;

#[test]
fn clone_bits_without_identity() {
    let f = NamespaceFlagSet::for_launch(false);
    assert!(f.mount && f.pid && f.hostname && f.ipc && !f.identity);
    let bits = f.clone_bits();
    assert_eq!(bits, CLONE_NEWNS | CLONE_NEWPID | CLONE_NEWUTS | CLONE_NEWIPC);
    assert_eq!(bits, 0x2c02_0000);
    assert_eq!(bits & CLONE_NEWUSER, 0);
}

#[test]
fn clone_bits_with_identity() {
    let f = NamespaceFlagSet::for_launch(true);
    assert!(f.identity);
    assert_eq!(f.clone_bits(), 0x3c02_0000);
}

#[test]
fn spawn_bits_leave_identity_to_the_unshare_stage() {
    let f = NamespaceFlagSet::for_launch(true);
    assert_eq!(f.spawn_bits(), 0x2c02_0000);
    assert_eq!(f.spawn_bits() & CLONE_NEWUSER, 0);
    assert_eq!(f.clone_bits() & CLONE_NEWUSER, CLONE_NEWUSER);
}

#[test]
fn mount_flag_compositions() {
    assert_eq!(rprivate_bits(), 0x44000);
    assert_eq!(procfs_bits(), 0x20_000e);
    // The propagation remount carries no bind bit and no attribute bits;
    // the proc mount carries no bind, recursion or propagation bits.
    assert_eq!(rprivate_bits() & 0x1000, 0);
    assert_eq!(rprivate_bits() & 0x20_000e, 0);
    assert_eq!(procfs_bits() & 0x45000, 0);
}

#[test]
fn argv_prepends_display_name() {
    let cfg = LaunchConfig::new(
        String::from("/srv/tree"),
        String::from("/bin/init"),
        vec![String::from("--level"), String::from("3")],
        Some(String::from("inner-init")),
    );
    let argv = cfg.build_argv();
    assert_eq!(argv, vec![
        String::from("inner-init"),
        String::from("--level"),
        String::from("3"),
    ]);
}

#[test]
fn display_name_defaults_to_cmd_path() {
    let cfg = LaunchConfig::new(
        String::from("/srv/tree"),
        String::from("/bin/init"),
        Vec::new(),
        None,
    );
    assert_eq!(cfg.display_name, String::from("/bin/init"));
    let argv = cfg.build_argv();
    assert_eq!(argv, vec![String::from("/bin/init")]);
}

#[test]
fn stage_kinds_cover_taxonomy() {
    let cases = vec![
        (Stage::Spawn, ErrorKind::Spawn),
        (Stage::Propagation, ErrorKind::Mount),
        (Stage::BindRoot, ErrorKind::Mount),
        (Stage::Pivot, ErrorKind::Pivot),
        (Stage::DetachOldRoot, ErrorKind::Mount),
        (Stage::ResetCwd, ErrorKind::Pivot),
        (Stage::ProcMount, ErrorKind::Mount),
        (Stage::IdentityUnshare, ErrorKind::Spawn),
        (Stage::Exec, ErrorKind::Exec),
    ];
    for (stage, kind) in cases {
        let e = LaunchError { stage, errno: 1 };
        assert_eq!(e.kind(), kind);
    }
}

#[test]
fn stage_names_are_diagnostic() {
    assert_eq!(Stage::Spawn.name(), "namespace spawn");
    assert_eq!(Stage::Propagation.name(), "mount propagation isolation");
    assert_eq!(Stage::BindRoot.name(), "root bind mount");
    assert_eq!(Stage::Pivot.name(), "root pivot");
    assert_eq!(Stage::DetachOldRoot.name(), "old root detach");
    assert_eq!(Stage::ResetCwd.name(), "working directory reset");
    assert_eq!(Stage::ProcMount.name(), "proc mount");
    assert_eq!(Stage::IdentityUnshare.name(), "identity unshare");
    assert_eq!(Stage::Exec.name(), "exec handoff");
    let e = LaunchError { stage: Stage::BindRoot, errno: 2 };
    assert_eq!(e.stage_name(), "root bind mount");
}

#[test]
fn spawn_result_classification() {
    assert_eq!(finish_spawn(Ok(4242)), Ok(4242));
    let r = finish_spawn(Err(1));
    assert_eq!(r, Err(LaunchError { stage: Stage::Spawn, errno: 1 }));
}

#[test]
fn child_exit_code_is_zero_only_on_success() {
    assert_eq!(child_exit_code(&Ok(())), 0);
    let failed: Result<(), LaunchError> =
        Err(LaunchError { stage: Stage::ProcMount, errno: 13 });
    assert_ne!(child_exit_code(&failed), 0);
}

#[test]
fn disabled_identity_stage_is_a_no_op() {
    assert_eq!(unshare_identity(false), Ok(()));
}

#[test]
fn stack_region_has_fixed_size() {
    let region = StackRegion::new();
    assert_eq!(STACK_SIZE, 1024 * 1024);
    assert_eq!(region.mem.len(), STACK_SIZE);
}

#[test]
fn launch_plan_selects_mandatory_isolation() {
    let cfg = LaunchConfig::new(
        String::from("/srv/tree"),
        String::from("/bin/init"),
        Vec::new(),
        None,
    );
    let plan = LaunchPlan::new(cfg, false);
    assert!(plan.flags.mount && plan.flags.pid && plan.flags.hostname && plan.flags.ipc);
    assert!(!plan.flags.identity);
}
