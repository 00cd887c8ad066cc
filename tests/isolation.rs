use minibox::command::OsError;
use minibox::isolation::{Action, IsolationConfig, Setup};

fn config(max_pids: u32) -> IsolationConfig {
    IsolationConfig::new("container", "/home/dev/test/container-root", "/sys/fs/cgroup/pids/cfs", max_pids)
        .expect("a valid configuration")
}

fn b(s: &str) -> Vec<u8> {
    s.as_bytes().to_vec()
}

fn expected_script(max: &str, pid: &str) -> Vec<Action> {
    vec![
        Action::SetHostname(b("container")),
        Action::ChangeRoot(b("/home/dev/test/container-root")),
        Action::ChangeDir(b("/")),
        Action::MountProc(b("/proc")),
        Action::MakePrivate(libc::CLONE_NEWNS),
        Action::CreateDir(b("/sys/fs/cgroup/pids/cfs")),
        Action::WriteFile(b("/sys/fs/cgroup/pids/cfs/pids.max"), b(max)),
        Action::WriteFile(b("/sys/fs/cgroup/pids/cfs/notify_on_release"), b("1")),
        Action::WriteFile(b("/sys/fs/cgroup/pids/cfs/cgroup.procs"), b(pid)),
    ]
}

/// Runs the setup with every step succeeding and returns the actions handed out.
fn run_all(setup: &mut Setup) -> Vec<Action> {
    let mut seen = Vec::new();
    loop {
        let action = setup.action();
        if action == Action::Exec || seen.len() > 20 {
            return seen;
        }
        seen.push(action);
        setup.advance(Ok(()));
    }
}

#[test]
fn config_rejects_nul() {
    assert!(IsolationConfig::new("con\0tainer", "/root", "/cg", 20).is_none());
    assert!(IsolationConfig::new("container", "/ro\0ot", "/cg", 20).is_none());
    assert!(IsolationConfig::new("container", "/root", "/c\0g", 20).is_none());
    assert!(IsolationConfig::new("container", "/root", "/cg", 20).is_some());
}

#[test]
fn full_setup_runs_steps_in_order_then_execs() {
    let mut setup = Setup::new(&config(20), 1);
    assert_eq!(run_all(&mut setup), expected_script("20", "1"));
    assert_eq!(setup.action(), Action::Exec);
}

#[test]
fn echo_hello_scenario_sets_configured_hostname() {
    let mut setup = Setup::new(&config(20), 1);
    assert_eq!(setup.action(), Action::SetHostname(b("container")));
    let steps = run_all(&mut setup);
    assert_eq!(steps.len(), 9);
    assert_eq!(setup.action(), Action::Exec);
}

#[test]
fn root_changes_before_directory() {
    let steps = run_all(&mut Setup::new(&config(20), 1));
    let root = steps.iter().position(|a| matches!(a, Action::ChangeRoot(_))).unwrap();
    let dir = steps.iter().position(|a| matches!(a, Action::ChangeDir(_))).unwrap();
    assert!(root < dir);
}

#[test]
fn failed_chroot_aborts_before_exec() {
    let mut setup = Setup::new(&config(20), 1);
    setup.advance(Ok(()));
    assert_eq!(setup.action(), Action::ChangeRoot(b("/home/dev/test/container-root")));
    setup.advance(Err(OsError { code: libc::ENOENT }));
    assert_eq!(setup.action(), Action::Abort(OsError { code: libc::ENOENT }));
    setup.advance(Ok(()));
    setup.advance(Ok(()));
    assert_eq!(setup.action(), Action::Abort(OsError { code: libc::ENOENT }));
}

#[test]
fn failed_hostname_aborts_at_once() {
    let mut setup = Setup::new(&config(20), 1);
    setup.advance(Err(OsError { code: libc::EPERM }));
    assert_eq!(setup.action(), Action::Abort(OsError { code: libc::EPERM }));
}

#[test]
fn existing_cgroup_dir_is_reused() {
    let mut setup = Setup::new(&config(20), 1);
    for _ in 0..5 {
        setup.advance(Ok(()));
    }
    assert_eq!(setup.action(), Action::CreateDir(b("/sys/fs/cgroup/pids/cfs")));
    setup.advance(Err(OsError { code: libc::EEXIST }));
    assert_eq!(setup.action(), Action::WriteFile(b("/sys/fs/cgroup/pids/cfs/pids.max"), b("20")));
}

#[test]
fn other_cgroup_dir_error_aborts() {
    let mut setup = Setup::new(&config(20), 1);
    for _ in 0..5 {
        setup.advance(Ok(()));
    }
    setup.advance(Err(OsError { code: libc::EACCES }));
    assert_eq!(setup.action(), Action::Abort(OsError { code: libc::EACCES }));
}

#[test]
fn exists_error_elsewhere_aborts() {
    let mut setup = Setup::new(&config(20), 1);
    for _ in 0..6 {
        setup.advance(Ok(()));
    }
    setup.advance(Err(OsError { code: libc::EEXIST }));
    assert_eq!(setup.action(), Action::Abort(OsError { code: libc::EEXIST }));
}

#[test]
fn ceiling_of_one_is_written() {
    let steps = run_all(&mut Setup::new(&config(1), 1));
    assert_eq!(steps[6], Action::WriteFile(b("/sys/fs/cgroup/pids/cfs/pids.max"), b("1")));
}

#[test]
fn process_id_is_enrolled() {
    let steps = run_all(&mut Setup::new(&config(20), 31337));
    assert_eq!(steps, expected_script("20", "31337"));
}

#[test]
fn exec_is_final() {
    let mut setup = Setup::new(&config(20), 1);
    run_all(&mut setup);
    setup.advance(Err(OsError { code: libc::ENOENT }));
    setup.advance(Ok(()));
    assert_eq!(setup.action(), Action::Exec);
}

#[test]
fn copy_keeps_action() {
    let a = Action::WriteFile(b("/x"), b("1"));
    assert_eq!(a.copy(), a);
    assert_eq!(Action::Abort(OsError { code: 3 }).copy(), Action::Abort(OsError { code: 3 }));
}
