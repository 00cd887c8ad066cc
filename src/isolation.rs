//! The fixed sequence of steps a new process takes before it runs its
//! command: hostname, root, working directory, process filesystem, private
//! mounts, then the control group that caps how many processes it may have.
//!
//! The caller performs each step and reports how it went; `Setup` decides what
//! comes next. A failed step stops the sequence for good, so the command only
//! runs once every step has succeeded.
use vstd::prelude::*;
use crate::bytes::{
    bytes_of, contains_nul, copy_bytes, decimal, decimal_of, has_nul, join, joined, utf8_of,
};
use crate::command::OsError;
use crate::sys::{clone_newns, eexist, spec_clone_newns, spec_eexist};

verus! {

/// What the isolation of one container is made of.
#[derive(Debug)]
pub struct IsolationConfig {
    hostname: Vec<u8>,
    root: Vec<u8>,
    cgroup_dir: Vec<u8>,
    max_pids: u32,
}

/// The values of an `IsolationConfig`.
pub struct ConfigView {
    pub hostname: Seq<u8>,
    pub root: Seq<u8>,
    pub cgroup_dir: Seq<u8>,
    pub max_pids: u32,
}

impl View for IsolationConfig {
    type V = ConfigView;

    closed spec fn view(&self) -> ConfigView {
        ConfigView {
            hostname: self.hostname@,
            root: self.root@,
            cgroup_dir: self.cgroup_dir@,
            max_pids: self.max_pids,
        }
    }
}

impl IsolationConfig {
    /// A configuration giving the container `hostname`, the root filesystem at
    /// `root`, and the control group at `cgroup_dir` capped at `max_pids`
    /// processes; `None` where one of the paths or the name holds a nul byte.
    pub fn new(hostname: &str, root: &str, cgroup_dir: &str, max_pids: u32) -> (r: Option<
        IsolationConfig,
    >)
        ensures
            r is Some <==> !has_nul(utf8_of(hostname@)) && !has_nul(utf8_of(root@)) && !has_nul(
                utf8_of(cgroup_dir@),
            ),
            r is Some ==> r->Some_0@ == (ConfigView {
                hostname: utf8_of(hostname@),
                root: utf8_of(root@),
                cgroup_dir: utf8_of(cgroup_dir@),
                max_pids,
            }),
    {
        let hostname = bytes_of(hostname);
        let root = bytes_of(root);
        let cgroup_dir = bytes_of(cgroup_dir);
        if contains_nul(hostname.as_slice()) || contains_nul(root.as_slice()) || contains_nul(
            cgroup_dir.as_slice(),
        ) {
            None
        } else {
            Some(IsolationConfig { hostname, root, cgroup_dir, max_pids })
        }
    }
}

/// One step of the sequence, over plain values.
pub enum Step {
    SetHostname(Seq<u8>),
    ChangeRoot(Seq<u8>),
    ChangeDir(Seq<u8>),
    MountProc(Seq<u8>),
    MakePrivate(i32),
    CreateDir(Seq<u8>),
    WriteFile(Seq<u8>, Seq<u8>),
    Exec,
    Abort(OsError),
}

/// What the caller is to do next.
#[derive(Debug, PartialEq, Eq)]
pub enum Action {
    /// `sethostname` with these bytes.
    SetHostname(Vec<u8>),
    /// `chroot` to this path.
    ChangeRoot(Vec<u8>),
    /// `chdir` to this path.
    ChangeDir(Vec<u8>),
    /// Mount a fresh `proc` filesystem at this path.
    MountProc(Vec<u8>),
    /// `unshare` with these flags, which detaches the mount table.
    MakePrivate(i32),
    /// Create this directory; one that already exists will do.
    CreateDir(Vec<u8>),
    /// Write the second bytes to the file at the first path.
    WriteFile(Vec<u8>, Vec<u8>),
    /// Every step succeeded: replace the process image with the command.
    Exec,
    /// A step failed: the process must end without running the command.
    Abort(OsError),
}

impl View for Action {
    type V = Step;

    open spec fn view(&self) -> Step {
        match self {
            Action::SetHostname(n) => Step::SetHostname(n@),
            Action::ChangeRoot(p) => Step::ChangeRoot(p@),
            Action::ChangeDir(p) => Step::ChangeDir(p@),
            Action::MountProc(p) => Step::MountProc(p@),
            Action::MakePrivate(f) => Step::MakePrivate(*f),
            Action::CreateDir(p) => Step::CreateDir(p@),
            Action::WriteFile(p, b) => Step::WriteFile(p@, b@),
            Action::Exec => Step::Exec,
            Action::Abort(e) => Step::Abort(*e),
        }
    }
}

impl Action {
    /// A copy of this action.
    pub fn copy(&self) -> (r: Action)
        ensures
            r@ == self@,
    {
        match self {
            Action::SetHostname(n) => Action::SetHostname(copy_bytes(n)),
            Action::ChangeRoot(p) => Action::ChangeRoot(copy_bytes(p)),
            Action::ChangeDir(p) => Action::ChangeDir(copy_bytes(p)),
            Action::MountProc(p) => Action::MountProc(copy_bytes(p)),
            Action::MakePrivate(f) => Action::MakePrivate(*f),
            Action::CreateDir(p) => Action::CreateDir(copy_bytes(p)),
            Action::WriteFile(p, b) => Action::WriteFile(copy_bytes(p), copy_bytes(b)),
            Action::Exec => Action::Exec,
            Action::Abort(e) => Action::Abort(*e),
        }
    }
}

/// The working directory inside the new root.
pub open spec fn workdir() -> Seq<u8> {
    utf8_of("/"@)
}

/// Where the process filesystem is mounted inside the new root.
pub open spec fn proc_target() -> Seq<u8> {
    utf8_of("/proc"@)
}

/// The file of a control group that holds its process ceiling.
pub open spec fn limit_file(dir: Seq<u8>) -> Seq<u8> {
    joined(dir, utf8_of("pids.max"@))
}

/// The file of a control group that asks for its removal once it is empty.
pub open spec fn notify_file(dir: Seq<u8>) -> Seq<u8> {
    joined(dir, utf8_of("notify_on_release"@))
}

/// The file of a control group that a process joins it through.
pub open spec fn procs_file(dir: Seq<u8>) -> Seq<u8> {
    joined(dir, utf8_of("cgroup.procs"@))
}

/// What `notify_file` is set to.
pub open spec fn release_flag() -> Seq<u8> {
    utf8_of("1"@)
}

/// A step taken before the command runs.
pub open spec fn is_setup_step(s: Step) -> bool {
    !(s is Exec) && !(s is Abort)
}

/// The steps, in order, that process `pid` takes under configuration `c`.
pub open spec fn setup_script(c: ConfigView, pid: u32) -> Seq<Step> {
    seq![
        Step::SetHostname(c.hostname),
        Step::ChangeRoot(c.root),
        Step::ChangeDir(workdir()),
        Step::MountProc(proc_target()),
        Step::MakePrivate(spec_clone_newns()),
        Step::CreateDir(c.cgroup_dir),
        Step::WriteFile(limit_file(c.cgroup_dir), decimal_of(c.max_pids as nat)),
        Step::WriteFile(notify_file(c.cgroup_dir), release_flag()),
        Step::WriteFile(procs_file(c.cgroup_dir), decimal_of(pid as nat)),
    ]
}

/// How far a script has come: the number of steps that succeeded, and the
/// error of the step that failed, if one did.
pub struct Progress {
    pub done: nat,
    pub failed: Option<OsError>,
}

/// Nothing done yet.
pub open spec fn start() -> Progress {
    Progress { done: 0, failed: None }
}

/// What is to be done at `p`: abort after a failure, run the command after
/// the last step, else the next step.
pub open spec fn step_at(script: Seq<Step>, p: Progress) -> Step {
    if p.failed is Some {
        Step::Abort(p.failed->Some_0)
    } else if p.done >= script.len() {
        Step::Exec
    } else {
        script[p.done as int]
    }
}

/// Whether `outcome` lets the sequence go on after `step`: success does, and
/// so does "file exists" for a directory to create.
pub open spec fn succeeded(step: Step, outcome: Result<(), OsError>) -> bool {
    match outcome {
        Ok(_) => true,
        Err(e) => step is CreateDir && e.code == spec_eexist(),
    }
}

/// The progress after the step at `p` ended with `outcome`. Running the
/// command and aborting end the sequence: nothing changes after them.
pub open spec fn advanced(script: Seq<Step>, p: Progress, outcome: Result<(), OsError>) -> Progress {
    let s = step_at(script, p);
    if s is Exec || s is Abort {
        p
    } else if succeeded(s, outcome) {
        Progress { done: p.done + 1, failed: None }
    } else {
        Progress { done: p.done, failed: Some(outcome->Err_0) }
    }
}

/// The progress from `p` after the steps ended with `outcomes`, in order.
pub open spec fn run_from(script: Seq<Step>, p: Progress, outcomes: Seq<Result<(), OsError>>) -> Progress
    decreases outcomes.len(),
{
    if outcomes.len() == 0 {
        p
    } else {
        run_from(script, advanced(script, p, outcomes[0]), outcomes.drop_first())
    }
}

/// The setup of one new process: its script and how far it has come.
pub struct Setup {
    script: Vec<Action>,
    done: usize,
    failed: Option<OsError>,
}

impl Setup {
    /// The script.
    pub closed spec fn steps(&self) -> Seq<Step> {
        self.script@.map_values(|a: Action| a@)
    }

    /// How far the script has come.
    pub closed spec fn progress(&self) -> Progress {
        Progress { done: self.done as nat, failed: self.failed }
    }

    /// No more steps done than the script has, and only setup steps in it.
    pub open spec fn wf(&self) -> bool {
        &&& self.progress().done <= self.steps().len()
        &&& forall|i: int| 0 <= i < self.steps().len() ==> is_setup_step(#[trigger] self.steps()[i])
    }

    /// The setup of process `pid` under `config`, with nothing done yet.
    pub fn new(config: &IsolationConfig, pid: u32) -> (r: Setup)
        ensures
            r.wf(),
            r.steps() == setup_script(config@, pid),
            r.progress() == start(),
    {
        let dir = &config.cgroup_dir;
        let mut script: Vec<Action> = Vec::new();
        script.push(Action::SetHostname(copy_bytes(&config.hostname)));
        script.push(Action::ChangeRoot(copy_bytes(&config.root)));
        script.push(Action::ChangeDir(bytes_of("/")));
        script.push(Action::MountProc(bytes_of("/proc")));
        script.push(Action::MakePrivate(clone_newns()));
        script.push(Action::CreateDir(copy_bytes(dir)));
        let limit = bytes_of("pids.max");
        script.push(Action::WriteFile(join(dir.as_slice(), limit.as_slice()), decimal(config.max_pids)));
        let notify = bytes_of("notify_on_release");
        script.push(Action::WriteFile(join(dir.as_slice(), notify.as_slice()), bytes_of("1")));
        let procs = bytes_of("cgroup.procs");
        script.push(Action::WriteFile(join(dir.as_slice(), procs.as_slice()), decimal(pid)));
        let r = Setup { script, done: 0, failed: None };
        proof {
            assert(r.steps() =~= setup_script(config@, pid));
        }
        r
    }

    /// What the caller is to do now.
    pub fn action(&self) -> (r: Action)
        requires
            self.wf(),
        ensures
            r@ == step_at(self.steps(), self.progress()),
    {
        if let Some(e) = self.failed {
            Action::Abort(e)
        } else if self.done >= self.script.len() {
            Action::Exec
        } else {
            self.script[self.done].copy()
        }
    }

    /// Records that the action last handed out ended with `outcome`.
    pub fn advance(&mut self, outcome: Result<(), OsError>)
        requires
            old(self).wf(),
        ensures
            final(self).wf(),
            final(self).steps() == old(self).steps(),
            final(self).progress() == advanced(old(self).steps(), old(self).progress(), outcome),
    {
        if self.failed.is_some() || self.done >= self.script.len() {
            return;
        }
        proof {
            assert(self.steps()[self.done as int] == self.script@[self.done as int]@);
        }
        let tolerated = match outcome {
            Ok(()) => true,
            Err(e) => match &self.script[self.done] {
                Action::CreateDir(_) => e.code == eexist(),
                _ => false,
            },
        };
        if tolerated {
            self.done = self.done + 1;
        } else {
            self.failed = Some(outcome.unwrap_err());
        }
    }
}

/// Running the command and aborting are final: whatever outcomes are reported
/// after them, the progress stays where it is, so no step runs again.
pub proof fn lemma_end_is_final(script: Seq<Step>, p: Progress, outcomes: Seq<Result<(), OsError>>)
    requires
        step_at(script, p) is Exec || step_at(script, p) is Abort,
    ensures
        run_from(script, p, outcomes) == p,
    decreases outcomes.len(),
{
    if outcomes.len() > 0 {
        lemma_end_is_final(script, p, outcomes.drop_first());
    }
}

/// Each step counted as done succeeded, one outcome per step and in order:
/// from `p`, the `i`-th outcome reported belongs to step `p.done + i`.
pub proof fn lemma_done_steps_succeeded(script: Seq<Step>, p: Progress, outcomes: Seq<Result<(), OsError>>)
    requires
        p.done <= script.len(),
    ensures
        ({
            let r = run_from(script, p, outcomes);
            &&& p.done <= r.done <= script.len()
            &&& r.done - p.done <= outcomes.len()
            &&& forall|i: int|
                0 <= i < r.done - p.done ==> succeeded(#[trigger] script[p.done + i], outcomes[i])
        }),
    decreases outcomes.len(),
{
    if outcomes.len() > 0 {
        let s = step_at(script, p);
        let q = advanced(script, p, outcomes[0]);
        let rest = outcomes.drop_first();
        if s is Exec || s is Abort {
            lemma_end_is_final(script, p, outcomes);
        } else if succeeded(s, outcomes[0]) {
            lemma_done_steps_succeeded(script, q, rest);
            let r = run_from(script, q, rest);
            assert forall|i: int| 0 <= i < r.done - p.done implies succeeded(
                #[trigger] script[p.done + i],
                outcomes[i],
            ) by {
                if i > 0 {
                    assert(script[q.done + (i - 1)] == script[p.done + i]);
                    assert(rest[i - 1] == outcomes[i]);
                }
            }
        } else {
            lemma_end_is_final(script, q, rest);
        }
    }
}

/// The command runs only once every step of the setup succeeded, in order:
/// the isolation steps, then the control group, then the command.
pub proof fn lemma_exec_after_every_step(c: ConfigView, pid: u32, outcomes: Seq<Result<(), OsError>>)
    ensures
        ({
            let script = setup_script(c, pid);
            let r = run_from(script, start(), outcomes);
            step_at(script, r) is Exec ==> {
                &&& r.done == script.len()
                &&& forall|i: int| 0 <= i < script.len() ==> succeeded(#[trigger] script[i], outcomes[i])
            }
        }),
{
    let script = setup_script(c, pid);
    lemma_done_steps_succeeded(script, start(), outcomes);
    let r = run_from(script, start(), outcomes);
    if step_at(script, r) is Exec {
        assert forall|i: int| 0 <= i < script.len() implies succeeded(#[trigger] script[i], outcomes[i]) by {
            assert(script[start().done + i] == script[i]);
        }
    }
}

/// The root changes before the working directory does: whatever the steps
/// reported, when the next step is the change of directory, the change of
/// root to the configured path is among the steps that succeeded.
pub proof fn lemma_root_before_workdir(c: ConfigView, pid: u32, outcomes: Seq<Result<(), OsError>>)
    ensures
        ({
            let script = setup_script(c, pid);
            let r = run_from(script, start(), outcomes);
            step_at(script, r) is ChangeDir ==> exists|j: int|
                0 <= j < r.done && #[trigger] script[j] == Step::ChangeRoot(c.root) && succeeded(
                    script[j],
                    outcomes[j],
                )
        }),
{
    let script = setup_script(c, pid);
    lemma_done_steps_succeeded(script, start(), outcomes);
    let r = run_from(script, start(), outcomes);
    if step_at(script, r) is ChangeDir {
        assert(r.done == 2) by {
            assert(r.done < 9);
            assert(r.done == 0 || r.done == 1 || r.done == 2 || r.done == 3 || r.done == 4 || r.done
                == 5 || r.done == 6 || r.done == 7 || r.done == 8);
        }
        assert(script[start().done + (1 as int)] == script[1]);
        assert(script[1] == Step::ChangeRoot(c.root));
    }
}

/// A control group directory that already exists does not stop the setup:
/// "file exists" there leads where success does, to writing the process
/// ceiling into the group.
pub proof fn lemma_existing_cgroup_dir_tolerated(c: ConfigView, pid: u32, p: Progress)
    requires
        p.done <= setup_script(c, pid).len(),
        step_at(setup_script(c, pid), p) is CreateDir,
    ensures
        ({
            let script = setup_script(c, pid);
            let after = advanced(script, p, Ok(()));
            &&& advanced(script, p, Err(OsError { code: spec_eexist() })) == after
            &&& step_at(script, after) == Step::WriteFile(
                limit_file(c.cgroup_dir),
                decimal_of(c.max_pids as nat),
            )
        }),
{
    let script = setup_script(c, pid);
    assert(p.done == 5) by {
        assert(p.done < 9);
        assert(p.done == 0 || p.done == 1 || p.done == 2 || p.done == 3 || p.done == 4 || p.done
            == 5 || p.done == 6 || p.done == 7 || p.done == 8);
    }
}

} // verus!
