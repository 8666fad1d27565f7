//! The sandbox construction pipeline.
//!
//! A [`Pipeline`] is the orchestrator's state machine.  The unverified
//! driver performs one [`Action`] at a time — a kernel call or a filesystem
//! operation — and reports how it went; [`Pipeline::step`] decides what
//! comes next, exactly as [`step_spec`] describes it.  The laws at the end
//! of this module pin the order the construction must keep: mounts and the
//! pivot happen while the process still holds its privileges, the syscall
//! filter goes in only after the pivot, the window back to the host is
//! detached and removed before the child is spawned, and the child is
//! spawned only after the fresh namespaces and the hostname are in place.
use crate::args::Arguments;
use crate::cgroup::{
    apply_cgroup_actions, cgroup_root_path, create_action_seq, lemma_create_plan,
    CgroupAction, CgroupModel, CgroupV2, CgroupV2Builder,
};
use crate::hostname::{generate_hostname, lemma_hostname_names_cgroup, valid_hostname};
use crate::seccomp::{allow_action, baseline_context, baseline_rules, Context};
use vstd::prelude::*;
use vstd::string::StringExecFns;

verus! {

/// The memory cap a sandbox gets: one gibibyte.
pub const DEFAULT_MEMORY_MAX: u64 = 1073741824;

/// The process-count cap a sandbox gets.
pub const DEFAULT_PIDS_MAX: u32 = 100;

/// The number of cpus a sandbox gets.
pub const DEFAULT_CPUS: u32 = 1;

/// What the runtime exits with when the construction itself failed.
pub const FAILURE_EXIT_CODE: i32 = 1;

/// Where the construction stands: each phase waits for the outcome of the
/// action issued when it was entered.
#[derive(Clone, Copy, Debug, PartialEq, Eq, Structural)]
pub enum Phase {
    /// Nothing has happened yet.
    Start,
    /// The mount namespace is being unshared.
    CgroupSetup,
    /// The control group is being materialised.
    MakeRootDir,
    /// The rootfs staging directory is being created.
    RootfsSource,
    /// The image fetch is under way.
    AwaitFetch,
    /// The fallback copy of a host directory is under way.
    AwaitCopy,
    /// Host mounts are being made private.
    BindRootfs,
    /// The staging directory is being bind-mounted onto itself.
    MakeOldrootDir,
    /// The directory for the old root is being created.
    ChdirNewRoot,
    /// The working directory moves into the staging directory.
    Pivot,
    /// The root is being pivoted.
    ChdirRoot,
    /// The working directory moves to the new root.
    ProcMount,
    /// A fresh procfs is being mounted.
    DevMove,
    /// The host's device tree is being moved in.
    StudentDir,
    /// The mount point for the workdir is being created.
    WorkdirMount,
    /// The workdir is being bind-mounted.
    UnshareRest,
    /// The five remaining namespaces are being unshared.
    HostnameSet,
    /// The hostname is being set.
    DetachOldroot,
    /// The old root is being detached.
    RemoveOldroot,
    /// The old root's directory is being removed.
    CapsDrop,
    /// The capability sets are being emptied.
    FilterLoad,
    /// The syscall filter is being installed.
    SpawnChild,
    /// The child is starting.
    AwaitChild,
    /// The child has exited; the control group is being destroyed.
    Teardown,
    /// The construction failed before the pivot; the staging directory is
    /// being removed.
    FailCleanup,
    /// The construction failed; the control group is being destroyed.
    FailTeardown,
    /// The run is over.
    Done,
}

/// What the driver must perform next.  Everything the action needs is in
/// its fields; the fixed paths — `/proc`, `/dev`, `/oldrootfs`,
/// `/home/student` — are part of the action's meaning.
pub enum Action {
    /// Unshare the mount namespace, so all mount work stays invisible to
    /// the host.
    UnshareMount,
    /// Run the control-group plan, one action after the other.
    SetupCgroup { plan: Vec<CgroupAction> },
    /// Create a fresh unique staging directory, its name starting with
    /// `moulinette`, and report its path.
    MakeTempDir,
    /// Try to download the image `reference` into the directory `dest`.
    FetchImage { reference: String, dest: String },
    /// Copy the host directory `source` into `dest`, contents only,
    /// overwriting what is there.
    CopyRootfs { source: String, dest: String },
    /// Remount `/` recursively private, breaking shared-subtree
    /// propagation to the host.
    MountPrivateRoot,
    /// Bind-mount `path` onto itself, making it a mount point.
    BindMountRootfs { path: String },
    /// Create the directory `path` (and its parents) for the old root.
    CreateOldrootDir { path: String },
    /// Change the working directory to `path`.
    ChangeDir { path: String },
    /// Pivot the root: `new_root` becomes `/`, the old root hangs at
    /// `put_old`.
    PivotRoot { new_root: String, put_old: String },
    /// Mount a fresh procfs at `/proc`.
    MountProc,
    /// Move the host's `/oldrootfs/dev` to `/dev`.
    MoveDev,
    /// Create `/home/student` and its parents.
    CreateStudentDir,
    /// Bind-mount `source` read-write at `target`.
    BindWorkdir { source: String, target: String },
    /// Unshare the cgroup, IPC, network, PID and UTS namespaces.
    UnshareNamespaces,
    /// Set the UTS hostname to `name`.
    SetHostname { name: String },
    /// Detach `/oldrootfs`, cutting the window back to the host.
    UnmountOldroot,
    /// Remove the `/oldrootfs` directory.
    RemoveOldrootDir,
    /// Empty the bounding and inheritable capability sets.
    DropCapabilities,
    /// Install the syscall filter into the kernel.
    LoadSeccomp { policy: Context },
    /// Spawn the child with inherited standard streams and wait for it.
    Spawn { binary: String, args: Vec<String> },
    /// Remove the staging directory and all it holds.
    RemoveTempDir { path: String },
    /// Run the teardown action that removes the control group.
    DestroyCgroup { action: CgroupAction },
    /// Exit the runtime with this code.
    Exit { code: i32 },
}

/// How the last action went, or what it produced.
pub enum Event {
    /// Starts the pipeline; fed once, before any action.
    Begin,
    /// The action succeeded.
    Succeeded,
    /// The action failed.
    Failed,
    /// The staging directory was created at this path.
    TempDirAt(String),
    /// The child exited with this code.
    ChildExited(i32),
    /// The child could not be waited for, or gave no exit code.
    WaitFailed,
}

/// Where a phase stands in the pipeline.  Every transition moves strictly
/// forward.
pub open spec fn phase_order(p: Phase) -> int {
    match p {
        Phase::Start => 0,
        Phase::CgroupSetup => 1,
        Phase::MakeRootDir => 2,
        Phase::RootfsSource => 3,
        Phase::AwaitFetch => 4,
        Phase::AwaitCopy => 5,
        Phase::BindRootfs => 6,
        Phase::MakeOldrootDir => 7,
        Phase::ChdirNewRoot => 8,
        Phase::Pivot => 9,
        Phase::ChdirRoot => 10,
        Phase::ProcMount => 11,
        Phase::DevMove => 12,
        Phase::StudentDir => 13,
        Phase::WorkdirMount => 14,
        Phase::UnshareRest => 15,
        Phase::HostnameSet => 16,
        Phase::DetachOldroot => 17,
        Phase::RemoveOldroot => 18,
        Phase::CapsDrop => 19,
        Phase::FilterLoad => 20,
        Phase::SpawnChild => 21,
        Phase::AwaitChild => 22,
        Phase::Teardown => 23,
        Phase::FailCleanup => 24,
        Phase::FailTeardown => 25,
        Phase::Done => 26,
    }
}

/// The orchestrator's state: what was asked for, the identity drawn for
/// the sandbox, and what the construction has produced so far.
pub struct Pipeline {
    /// Where the construction stands.
    pub phase: Phase,
    /// The program to run inside the sandbox.
    pub binary_name: String,
    /// Its arguments.
    pub binary_args: Vec<String>,
    /// Host directory to mount at `/home/student`, if any.
    pub workdir: Option<String>,
    /// Rootfs spec — image reference or host path — if any.
    pub rootfs: Option<String>,
    /// The random hostname; also the control group's name.
    pub hostname: String,
    /// The runtime's own PID, the one process put into the group.
    pub self_pid: u32,
    /// The staging directory, once it exists.
    pub tempdir: String,
    /// The control-group handle, once the group is materialised.
    pub cgroup: Option<CgroupV2>,
    /// The child's exit code, once it has exited.
    pub exit_code: Option<i32>,
}

/// What every reachable state satisfies: the hostname is well formed, the
/// control group exists from the moment its plan was issued, and a workdir
/// mount is only ever in flight when a workdir was given.
pub open spec fn wf(p: Pipeline) -> bool {
    &&& valid_hostname(p.hostname@)
    &&& (phase_order(p.phase) >= 2 && !(p.phase is Done)) ==> p.cgroup is Some
        && p.cgroup->0.name@ == p.hostname@
    &&& (p.phase is StudentDir || p.phase is WorkdirMount) ==> p.workdir is Some
    &&& (p.phase is AwaitFetch || p.phase is AwaitCopy) ==> p.rootfs is Some
}

/// Which events can arrive while the construction stands where it does.
pub open spec fn step_enabled(pre: Pipeline, ev: Event) -> bool {
    match pre.phase {
        Phase::Start => ev is Begin,
        Phase::RootfsSource => ev is TempDirAt || ev is Failed,
        Phase::AwaitChild => ev is ChildExited || ev is WaitFailed,
        Phase::Done => false,
        _ => ev is Succeeded || ev is Failed,
    }
}

/// The stored results carry over unchanged.
pub open spec fn same_store(pre: Pipeline, post: Pipeline) -> bool {
    &&& post.tempdir == pre.tempdir
    &&& post.cgroup == pre.cgroup
    &&& post.exit_code == pre.exit_code
}

/// A failure before the control group exists: the run ends at once.
pub open spec fn fail_exit(pre: Pipeline, post: Pipeline, a: Action) -> bool {
    &&& post.phase is Done
    &&& same_store(pre, post)
    &&& a matches Action::Exit { code } && code == FAILURE_EXIT_CODE
}

/// A failure while the staging directory exists on the host and the root
/// is not yet pivoted: remove the directory first.
pub open spec fn fail_cleanup(pre: Pipeline, post: Pipeline, a: Action) -> bool {
    &&& post.phase is FailCleanup
    &&& same_store(pre, post)
    &&& a matches Action::RemoveTempDir { path } && path == pre.tempdir
}

/// A failure after the control group exists: destroy it, then exit.
pub open spec fn fail_teardown(pre: Pipeline, post: Pipeline, a: Action) -> bool {
    &&& post.phase is FailTeardown
    &&& same_store(pre, post)
    &&& a matches Action::DestroyCgroup { action } && action matches
        CgroupAction::RemoveGroup { name } && name@ == pre.hostname@
}

/// The next action after the rootfs is staged: make the host's mounts
/// private, so everything later stays invisible outside.
pub open spec fn to_mount_private(pre: Pipeline, post: Pipeline, a: Action) -> bool {
    &&& post.phase is BindRootfs
    &&& same_store(pre, post)
    &&& a is MountPrivateRoot
}

/// How one outcome advances the construction: which action is issued next
/// and what the state keeps.  This is the contract of [`Pipeline::step`].
pub open spec fn step_spec(pre: Pipeline, ev: Event, post: Pipeline, a: Action) -> bool {
    &&& post.binary_name == pre.binary_name
    &&& post.binary_args == pre.binary_args
    &&& post.workdir == pre.workdir
    &&& post.rootfs == pre.rootfs
    &&& post.hostname == pre.hostname
    &&& post.self_pid == pre.self_pid
    &&& match pre.phase {
        Phase::Start => {
            &&& post.phase is CgroupSetup
            &&& same_store(pre, post)
            &&& a is UnshareMount
        },
        Phase::CgroupSetup => if ev is Succeeded {
            &&& post.phase is MakeRootDir
            &&& post.tempdir == pre.tempdir
            &&& post.exit_code == pre.exit_code
            &&& post.cgroup is Some
            &&& post.cgroup->0.name@ == pre.hostname@
            &&& post.cgroup->0.path@ == cgroup_root_path() + pre.hostname@
            &&& a matches Action::SetupCgroup { plan } && (exists|b: CgroupV2Builder|
                {
                    &&& plan@ == #[trigger] create_action_seq(b)
                    &&& b.name@ == pre.hostname@
                    &&& b.pids@ == seq![pre.self_pid]
                    &&& b.cpus == Some(DEFAULT_CPUS)
                    &&& b.max_mem == Some(DEFAULT_MEMORY_MAX)
                    &&& b.max_pids == Some(DEFAULT_PIDS_MAX)
                })
        } else {
            fail_exit(pre, post, a)
        },
        Phase::MakeRootDir => if ev is Succeeded {
            &&& post.phase is RootfsSource
            &&& same_store(pre, post)
            &&& a is MakeTempDir
        } else {
            fail_teardown(pre, post, a)
        },
        Phase::RootfsSource => match ev {
            Event::TempDirAt(path) => {
                &&& post.tempdir == path
                &&& post.cgroup == pre.cgroup
                &&& post.exit_code == pre.exit_code
                &&& if pre.rootfs is Some {
                    &&& post.phase is AwaitFetch
                    &&& a matches Action::FetchImage { reference, dest } && reference
                        == pre.rootfs->0 && dest == path
                } else {
                    &&& post.phase is BindRootfs
                    &&& a is MountPrivateRoot
                }
            },
            _ => fail_teardown(pre, post, a),
        },
        Phase::AwaitFetch => if ev is Succeeded {
            to_mount_private(pre, post, a)
        } else {
            // the image fetch failed: fall back to copying the spec as a
            // host directory, into the same staging directory
            &&& post.phase is AwaitCopy
            &&& same_store(pre, post)
            &&& pre.rootfs is Some
            &&& a matches Action::CopyRootfs { source, dest } && source == pre.rootfs->0
                && dest == pre.tempdir
        },
        Phase::AwaitCopy => if ev is Succeeded {
            to_mount_private(pre, post, a)
        } else {
            fail_cleanup(pre, post, a)
        },
        Phase::BindRootfs => if ev is Succeeded {
            &&& post.phase is MakeOldrootDir
            &&& same_store(pre, post)
            &&& a matches Action::BindMountRootfs { path } && path == pre.tempdir
        } else {
            fail_cleanup(pre, post, a)
        },
        Phase::MakeOldrootDir => if ev is Succeeded {
            &&& post.phase is ChdirNewRoot
            &&& same_store(pre, post)
            &&& a matches Action::CreateOldrootDir { path } && path@ == pre.tempdir@
                + "/oldrootfs"@
        } else {
            fail_cleanup(pre, post, a)
        },
        Phase::ChdirNewRoot => if ev is Succeeded {
            &&& post.phase is Pivot
            &&& same_store(pre, post)
            &&& a matches Action::ChangeDir { path } && path == pre.tempdir
        } else {
            fail_cleanup(pre, post, a)
        },
        Phase::Pivot => if ev is Succeeded {
            &&& post.phase is ChdirRoot
            &&& same_store(pre, post)
            &&& a matches Action::PivotRoot { new_root, put_old } && new_root == pre.tempdir
                && put_old@ == pre.tempdir@ + "/oldrootfs"@
        } else {
            fail_cleanup(pre, post, a)
        },
        Phase::ChdirRoot => if ev is Succeeded {
            &&& post.phase is ProcMount
            &&& same_store(pre, post)
            &&& a matches Action::ChangeDir { path } && path@ == "/"@
        } else {
            fail_cleanup(pre, post, a)
        },
        Phase::ProcMount => if ev is Succeeded {
            &&& post.phase is DevMove
            &&& same_store(pre, post)
            &&& a is MountProc
        } else {
            fail_teardown(pre, post, a)
        },
        Phase::DevMove => if ev is Succeeded {
            &&& same_store(pre, post)
            &&& a is MoveDev
            &&& if pre.workdir is Some {
                post.phase is StudentDir
            } else {
                post.phase is UnshareRest
            }
        } else {
            fail_teardown(pre, post, a)
        },
        Phase::StudentDir => if ev is Succeeded {
            &&& post.phase is WorkdirMount
            &&& same_store(pre, post)
            &&& a is CreateStudentDir
        } else {
            fail_teardown(pre, post, a)
        },
        Phase::WorkdirMount => if ev is Succeeded {
            &&& post.phase is UnshareRest
            &&& same_store(pre, post)
            &&& pre.workdir is Some
            &&& a matches Action::BindWorkdir { source, target } && source@ == "/oldrootfs/"@
                + pre.workdir->0@ && target@ == "/home/student"@
        } else {
            fail_teardown(pre, post, a)
        },
        Phase::UnshareRest => if ev is Succeeded {
            &&& post.phase is HostnameSet
            &&& same_store(pre, post)
            &&& a is UnshareNamespaces
        } else {
            fail_teardown(pre, post, a)
        },
        Phase::HostnameSet => if ev is Succeeded {
            &&& post.phase is DetachOldroot
            &&& same_store(pre, post)
            &&& a matches Action::SetHostname { name } && name == pre.hostname
        } else {
            fail_teardown(pre, post, a)
        },
        Phase::DetachOldroot => if ev is Succeeded {
            &&& post.phase is RemoveOldroot
            &&& same_store(pre, post)
            &&& a is UnmountOldroot
        } else {
            fail_teardown(pre, post, a)
        },
        Phase::RemoveOldroot => if ev is Succeeded {
            &&& post.phase is CapsDrop
            &&& same_store(pre, post)
            &&& a is RemoveOldrootDir
        } else {
            fail_teardown(pre, post, a)
        },
        Phase::CapsDrop => if ev is Succeeded {
            &&& post.phase is FilterLoad
            &&& same_store(pre, post)
            &&& a is DropCapabilities
        } else {
            fail_teardown(pre, post, a)
        },
        Phase::FilterLoad => if ev is Succeeded {
            &&& post.phase is SpawnChild
            &&& same_store(pre, post)
            &&& a matches Action::LoadSeccomp { policy } && policy.default_action
                == allow_action() && policy.rules@ == baseline_rules()
        } else {
            fail_teardown(pre, post, a)
        },
        Phase::SpawnChild => if ev is Succeeded {
            &&& post.phase is AwaitChild
            &&& same_store(pre, post)
            &&& a matches Action::Spawn { binary, args } && binary == pre.binary_name
                && args@ == pre.binary_args@
        } else {
            fail_teardown(pre, post, a)
        },
        Phase::AwaitChild => {
            &&& post.phase is Teardown
            &&& post.tempdir == pre.tempdir
            &&& post.cgroup == pre.cgroup
            &&& post.exit_code == (match ev {
                Event::ChildExited(code) => Some(code),
                _ => None,
            })
            &&& a matches Action::DestroyCgroup { action } && action matches
                CgroupAction::RemoveGroup { name } && name@ == pre.hostname@
        },
        Phase::Teardown => {
            &&& post.phase is Done
            &&& same_store(pre, post)
            &&& a matches Action::Exit { code } && code == (match pre.exit_code {
                Some(c) => c,
                None => FAILURE_EXIT_CODE,
            })
        },
        Phase::FailCleanup => fail_teardown(pre, post, a),
        Phase::FailTeardown => fail_exit(pre, post, a),
        Phase::Done => false,
    }
}

/// Clones a list of arguments, value for value.
fn clone_strings(v: &Vec<String>) -> (r: Vec<String>)
    ensures
        r@ == v@,
{
    let mut r: Vec<String> = Vec::new();
    let mut i: usize = 0;
    while i < v.len()
        invariant
            i <= v@.len(),
            r@ == v@.take(i as int),
        decreases v@.len() - i,
    {
        r.push(v[i].clone());
        proof {
            assert(v@.take(i + 1 as int) =~= v@.take(i as int).push(v@[i as int]));
        }
        i = i + 1;
    }
    proof {
        assert(v@.take(v@.len() as int) =~= v@);
    }
    r
}

impl Pipeline {
    /// A pipeline for the given request, run by the process `self_pid`.
    /// The sandbox's random hostname — also its control group's name — is
    /// drawn here.
    pub fn new(args: Arguments, self_pid: u32) -> (p: Pipeline)
        ensures
            p.phase is Start,
            p.binary_name == args.binary_name,
            p.binary_args == args.binary_args,
            p.workdir == args.workdir,
            p.rootfs == args.rootfs,
            p.self_pid == self_pid,
            p.cgroup is None,
            p.exit_code is None,
            p.tempdir@ == Seq::<char>::empty(),
            wf(p),
    {
        Pipeline {
            phase: Phase::Start,
            binary_name: args.binary_name,
            binary_args: args.binary_args,
            workdir: args.workdir,
            rootfs: args.rootfs,
            hostname: generate_hostname(),
            self_pid,
            tempdir: String::new(),
            cgroup: None,
            exit_code: None,
        }
    }

    /// The action that tears the control group down.
    fn teardown_action(&self) -> (a: CgroupAction)
        requires
            self.cgroup is Some ==> self.cgroup->0.name@ == self.hostname@,
        ensures
            a matches CgroupAction::RemoveGroup { name } && name@ == self.hostname@,
    {
        match &self.cgroup {
            Some(handle) => handle.destroy(),
            None => CgroupAction::RemoveGroup { name: self.hostname.clone() },
        }
    }

    /// Feeds the pipeline how the last action went and returns what to
    /// perform next, as [`step_spec`] describes it.
    pub fn step(&mut self, ev: Event) -> (a: Action)
        requires
            wf(*old(self)),
            step_enabled(*old(self), ev),
        ensures
            step_spec(*old(self), ev, *final(self), a),
            wf(*final(self)),
    {
        match self.phase {
            Phase::Start => {
                self.phase = Phase::CgroupSetup;
                Action::UnshareMount
            },
            Phase::CgroupSetup => {
                match ev {
                    Event::Succeeded => {
                        let builder = CgroupV2Builder::new(self.hostname.as_str()).add_pid(
                            self.self_pid,
                        ).set_cpus_number(DEFAULT_CPUS).set_mem_max(DEFAULT_MEMORY_MAX).set_pids_max(
                            DEFAULT_PIDS_MAX,
                        );
                        proof {
                            lemma_hostname_names_cgroup(self.hostname@);
                            assert(builder.pids@ =~= seq![self.self_pid]);
                        }
                        match builder.create() {
                            Ok((plan, handle)) => {
                                self.phase = Phase::MakeRootDir;
                                self.cgroup = Some(handle);
                                Action::SetupCgroup { plan }
                            },
                            Err(_) => {
                                // not reached: the hostname is a valid group name
                                proof {
                                    assert(false);
                                }
                                Action::UnshareMount
                            },
                        }
                    },
                    _ => {
                        self.phase = Phase::Done;
                        Action::Exit { code: FAILURE_EXIT_CODE }
                    },
                }
            },
            Phase::MakeRootDir => {
                match ev {
                    Event::Succeeded => {
                        self.phase = Phase::RootfsSource;
                        Action::MakeTempDir
                    },
                    _ => {
                        let action = self.teardown_action();
                        self.phase = Phase::FailTeardown;
                        Action::DestroyCgroup { action }
                    },
                }
            },
            Phase::RootfsSource => {
                match ev {
                    Event::TempDirAt(path) => {
                        self.tempdir = path;
                        match &self.rootfs {
                            Some(reference) => {
                                self.phase = Phase::AwaitFetch;
                                Action::FetchImage {
                                    reference: reference.clone(),
                                    dest: self.tempdir.clone(),
                                }
                            },
                            None => {
                                self.phase = Phase::BindRootfs;
                                Action::MountPrivateRoot
                            },
                        }
                    },
                    _ => {
                        let action = self.teardown_action();
                        self.phase = Phase::FailTeardown;
                        Action::DestroyCgroup { action }
                    },
                }
            },
            Phase::AwaitFetch => {
                match ev {
                    Event::Succeeded => {
                        self.phase = Phase::BindRootfs;
                        Action::MountPrivateRoot
                    },
                    _ => {
                        // any fetcher error means: not an image, try the
                        // spec as a host directory
                        let source = match &self.rootfs {
                            Some(reference) => reference.clone(),
                            None => String::new(),
                        };
                        self.phase = Phase::AwaitCopy;
                        Action::CopyRootfs { source, dest: self.tempdir.clone() }
                    },
                }
            },
            Phase::AwaitCopy => {
                match ev {
                    Event::Succeeded => {
                        self.phase = Phase::BindRootfs;
                        Action::MountPrivateRoot
                    },
                    _ => {
                        self.phase = Phase::FailCleanup;
                        Action::RemoveTempDir { path: self.tempdir.clone() }
                    },
                }
            },
            Phase::BindRootfs => {
                match ev {
                    Event::Succeeded => {
                        self.phase = Phase::MakeOldrootDir;
                        Action::BindMountRootfs { path: self.tempdir.clone() }
                    },
                    _ => {
                        self.phase = Phase::FailCleanup;
                        Action::RemoveTempDir { path: self.tempdir.clone() }
                    },
                }
            },
            Phase::MakeOldrootDir => {
                match ev {
                    Event::Succeeded => {
                        self.phase = Phase::ChdirNewRoot;
                        Action::CreateOldrootDir {
                            path: self.tempdir.clone().concat("/oldrootfs"),
                        }
                    },
                    _ => {
                        self.phase = Phase::FailCleanup;
                        Action::RemoveTempDir { path: self.tempdir.clone() }
                    },
                }
            },
            Phase::ChdirNewRoot => {
                match ev {
                    Event::Succeeded => {
                        self.phase = Phase::Pivot;
                        Action::ChangeDir { path: self.tempdir.clone() }
                    },
                    _ => {
                        self.phase = Phase::FailCleanup;
                        Action::RemoveTempDir { path: self.tempdir.clone() }
                    },
                }
            },
            Phase::Pivot => {
                match ev {
                    Event::Succeeded => {
                        self.phase = Phase::ChdirRoot;
                        Action::PivotRoot {
                            new_root: self.tempdir.clone(),
                            put_old: self.tempdir.clone().concat("/oldrootfs"),
                        }
                    },
                    _ => {
                        self.phase = Phase::FailCleanup;
                        Action::RemoveTempDir { path: self.tempdir.clone() }
                    },
                }
            },
            Phase::ChdirRoot => {
                match ev {
                    Event::Succeeded => {
                        self.phase = Phase::ProcMount;
                        Action::ChangeDir { path: String::from_str("/") }
                    },
                    _ => {
                        self.phase = Phase::FailCleanup;
                        Action::RemoveTempDir { path: self.tempdir.clone() }
                    },
                }
            },
            Phase::ProcMount => {
                match ev {
                    Event::Succeeded => {
                        self.phase = Phase::DevMove;
                        Action::MountProc
                    },
                    _ => {
                        let action = self.teardown_action();
                        self.phase = Phase::FailTeardown;
                        Action::DestroyCgroup { action }
                    },
                }
            },
            Phase::DevMove => {
                match ev {
                    Event::Succeeded => {
                        if self.workdir.is_some() {
                            self.phase = Phase::StudentDir;
                        } else {
                            self.phase = Phase::UnshareRest;
                        }
                        Action::MoveDev
                    },
                    _ => {
                        let action = self.teardown_action();
                        self.phase = Phase::FailTeardown;
                        Action::DestroyCgroup { action }
                    },
                }
            },
            Phase::StudentDir => {
                match ev {
                    Event::Succeeded => {
                        self.phase = Phase::WorkdirMount;
                        Action::CreateStudentDir
                    },
                    _ => {
                        let action = self.teardown_action();
                        self.phase = Phase::FailTeardown;
                        Action::DestroyCgroup { action }
                    },
                }
            },
            Phase::WorkdirMount => {
                match ev {
                    Event::Succeeded => {
                        let source = match &self.workdir {
                            Some(w) => String::from_str("/oldrootfs/").concat(w.as_str()),
                            None => String::from_str("/oldrootfs/"),
                        };
                        self.phase = Phase::UnshareRest;
                        Action::BindWorkdir { source, target: String::from_str("/home/student") }
                    },
                    _ => {
                        let action = self.teardown_action();
                        self.phase = Phase::FailTeardown;
                        Action::DestroyCgroup { action }
                    },
                }
            },
            Phase::UnshareRest => {
                match ev {
                    Event::Succeeded => {
                        self.phase = Phase::HostnameSet;
                        Action::UnshareNamespaces
                    },
                    _ => {
                        let action = self.teardown_action();
                        self.phase = Phase::FailTeardown;
                        Action::DestroyCgroup { action }
                    },
                }
            },
            Phase::HostnameSet => {
                match ev {
                    Event::Succeeded => {
                        self.phase = Phase::DetachOldroot;
                        Action::SetHostname { name: self.hostname.clone() }
                    },
                    _ => {
                        let action = self.teardown_action();
                        self.phase = Phase::FailTeardown;
                        Action::DestroyCgroup { action }
                    },
                }
            },
            Phase::DetachOldroot => {
                match ev {
                    Event::Succeeded => {
                        self.phase = Phase::RemoveOldroot;
                        Action::UnmountOldroot
                    },
                    _ => {
                        let action = self.teardown_action();
                        self.phase = Phase::FailTeardown;
                        Action::DestroyCgroup { action }
                    },
                }
            },
            Phase::RemoveOldroot => {
                match ev {
                    Event::Succeeded => {
                        self.phase = Phase::CapsDrop;
                        Action::RemoveOldrootDir
                    },
                    _ => {
                        let action = self.teardown_action();
                        self.phase = Phase::FailTeardown;
                        Action::DestroyCgroup { action }
                    },
                }
            },
            Phase::CapsDrop => {
                match ev {
                    Event::Succeeded => {
                        self.phase = Phase::FilterLoad;
                        Action::DropCapabilities
                    },
                    _ => {
                        let action = self.teardown_action();
                        self.phase = Phase::FailTeardown;
                        Action::DestroyCgroup { action }
                    },
                }
            },
            Phase::FilterLoad => {
                match ev {
                    Event::Succeeded => {
                        self.phase = Phase::SpawnChild;
                        Action::LoadSeccomp { policy: baseline_context() }
                    },
                    _ => {
                        let action = self.teardown_action();
                        self.phase = Phase::FailTeardown;
                        Action::DestroyCgroup { action }
                    },
                }
            },
            Phase::SpawnChild => {
                match ev {
                    Event::Succeeded => {
                        self.phase = Phase::AwaitChild;
                        Action::Spawn {
                            binary: self.binary_name.clone(),
                            args: clone_strings(&self.binary_args),
                        }
                    },
                    _ => {
                        let action = self.teardown_action();
                        self.phase = Phase::FailTeardown;
                        Action::DestroyCgroup { action }
                    },
                }
            },
            Phase::AwaitChild => {
                self.exit_code = match ev {
                    Event::ChildExited(code) => Some(code),
                    _ => None,
                };
                let action = self.teardown_action();
                self.phase = Phase::Teardown;
                Action::DestroyCgroup { action }
            },
            Phase::Teardown => {
                self.phase = Phase::Done;
                Action::Exit {
                    code: match self.exit_code {
                        Some(c) => c,
                        None => FAILURE_EXIT_CODE,
                    },
                }
            },
            Phase::FailCleanup => {
                let action = self.teardown_action();
                self.phase = Phase::FailTeardown;
                Action::DestroyCgroup { action }
            },
            Phase::FailTeardown => {
                self.phase = Phase::Done;
                Action::Exit { code: FAILURE_EXIT_CODE }
            },
            Phase::Done => {
                // not reached: no event is enabled once the run is over
                Action::Exit { code: FAILURE_EXIT_CODE }
            },
        }
    }
}

/// Every transition moves the construction strictly forward; no phase is
/// ever entered twice.
pub proof fn lemma_step_advances(pre: Pipeline, ev: Event, post: Pipeline, a: Action)
    requires
        step_spec(pre, ev, post, a),
    ensures
        phase_order(post.phase) > phase_order(pre.phase),
{
}

/// Which phase each distinguished action is issued from.  Together with
/// the strict forward motion this fixes the order of the whole
/// construction.
pub proof fn lemma_action_emitter(pre: Pipeline, ev: Event, post: Pipeline, a: Action)
    requires
        step_spec(pre, ev, post, a),
    ensures
        a is UnshareMount ==> pre.phase is Start,
        a is MountPrivateRoot ==> pre.phase is RootfsSource || pre.phase is AwaitFetch
            || pre.phase is AwaitCopy,
        a is BindMountRootfs ==> pre.phase is BindRootfs,
        a is PivotRoot ==> pre.phase is Pivot,
        a is MountProc ==> pre.phase is ProcMount,
        a is MoveDev ==> pre.phase is DevMove,
        a is BindWorkdir ==> pre.phase is WorkdirMount,
        a is UnshareNamespaces ==> pre.phase is UnshareRest,
        a is SetHostname ==> pre.phase is HostnameSet,
        a is UnmountOldroot ==> pre.phase is DetachOldroot,
        a is RemoveOldrootDir ==> pre.phase is RemoveOldroot,
        a is DropCapabilities ==> pre.phase is CapsDrop,
        a is LoadSeccomp ==> pre.phase is FilterLoad,
        a is Spawn ==> pre.phase is SpawnChild,
{
}

/// A run of the pipeline: a chain of states linked, step by step, by
/// [`step_spec`], with the event fed and the action issued at each step.
pub open spec fn is_run(states: Seq<Pipeline>, evs: Seq<Event>, acts: Seq<Action>) -> bool {
    &&& states.len() == acts.len() + 1
    &&& evs.len() == acts.len()
    &&& forall|i: int|
        0 <= i < acts.len() ==> #[trigger] step_spec(states[i], evs[i], states[i + 1], acts[i])
}

/// One link of a run, picked out by its index.
proof fn lemma_run_step(states: Seq<Pipeline>, evs: Seq<Event>, acts: Seq<Action>, j: int)
    requires
        is_run(states, evs, acts),
        0 <= j < acts.len(),
    ensures
        step_spec(states[j], evs[j], states[j + 1], acts[j]),
{
}

/// Along a run the construction only moves forward.
pub proof fn lemma_run_monotone(
    states: Seq<Pipeline>,
    evs: Seq<Event>,
    acts: Seq<Action>,
    i: int,
    j: int,
)
    requires
        is_run(states, evs, acts),
        0 <= i < j < states.len(),
    ensures
        phase_order(states[i].phase) < phase_order(states[j].phase),
    decreases j - i,
{
    lemma_step_advances(states[i], evs[i], states[i + 1], acts[i]);
    if i + 1 < j {
        lemma_run_monotone(states, evs, acts, i + 1, j);
    }
}

/// The hostname drawn at the start never changes along a run.
pub proof fn lemma_run_hostname(
    states: Seq<Pipeline>,
    evs: Seq<Event>,
    acts: Seq<Action>,
    i: int,
)
    requires
        is_run(states, evs, acts),
        0 <= i < states.len(),
    ensures
        states[i].hostname == states[0].hostname,
    decreases i,
{
    if i > 0 {
        lemma_run_hostname(states, evs, acts, i - 1);
        lemma_run_step(states, evs, acts, i - 1);
    }
}

/// The syscall filter is installed only after the root was pivoted: the
/// construction itself still needs `pivot_root`, which the filter denies.
pub proof fn lemma_filter_after_pivot(
    states: Seq<Pipeline>,
    evs: Seq<Event>,
    acts: Seq<Action>,
    i: int,
    j: int,
)
    requires
        is_run(states, evs, acts),
        0 <= i < acts.len(),
        0 <= j < acts.len(),
        acts[i] is LoadSeccomp,
        acts[j] is PivotRoot,
    ensures
        j < i,
{
    lemma_action_emitter(states[i], evs[i], states[i + 1], acts[i]);
    lemma_action_emitter(states[j], evs[j], states[j + 1], acts[j]);
    if i < j {
        lemma_run_monotone(states, evs, acts, i, j);
    }
}

/// The capability sets are emptied only after every mount operation of the
/// run: the mounts and the pivot need privileges that are gone afterwards.
pub proof fn lemma_caps_after_mounts(
    states: Seq<Pipeline>,
    evs: Seq<Event>,
    acts: Seq<Action>,
    i: int,
    j: int,
)
    requires
        is_run(states, evs, acts),
        0 <= i < acts.len(),
        0 <= j < acts.len(),
        acts[i] is DropCapabilities,
        acts[j] is MountPrivateRoot || acts[j] is BindMountRootfs || acts[j] is PivotRoot
            || acts[j] is MountProc || acts[j] is MoveDev || acts[j] is BindWorkdir,
    ensures
        j < i,
{
    lemma_action_emitter(states[i], evs[i], states[i + 1], acts[i]);
    lemma_action_emitter(states[j], evs[j], states[j + 1], acts[j]);
    if i < j {
        lemma_run_monotone(states, evs, acts, i, j);
    }
}

/// Entering one of the late phases pins the transition that led there.
proof fn lemma_entry(pre: Pipeline, ev: Event, post: Pipeline, a: Action)
    requires
        step_spec(pre, ev, post, a),
    ensures
        post.phase is SpawnChild ==> pre.phase is FilterLoad && a is LoadSeccomp,
        post.phase is FilterLoad ==> pre.phase is CapsDrop && a is DropCapabilities,
        post.phase is CapsDrop ==> pre.phase is RemoveOldroot && a is RemoveOldrootDir,
        post.phase is RemoveOldroot ==> pre.phase is DetachOldroot && a is UnmountOldroot,
        post.phase is DetachOldroot ==> pre.phase is HostnameSet && (a matches
            Action::SetHostname { name } && name == pre.hostname),
        post.phase is HostnameSet ==> pre.phase is UnshareRest && a is UnshareNamespaces,
{
}

/// What must immediately precede the child.  In any run that spawns it,
/// the six actions before `Spawn` are, in order: unshare the cgroup, IPC,
/// network, PID and UTS namespaces — so the child starts as PID 1 of a
/// fresh PID space — set the hostname this run drew, detach the old root
/// and remove its directory — so `/oldrootfs` is gone — empty the
/// capability sets, and install the syscall filter.
pub proof fn lemma_spawn_suffix(
    states: Seq<Pipeline>,
    evs: Seq<Event>,
    acts: Seq<Action>,
    k: int,
)
    requires
        is_run(states, evs, acts),
        0 <= k < acts.len(),
        acts[k] is Spawn,
        states[0].phase is Start,
    ensures
        k >= 7,
        acts[k - 1] is LoadSeccomp,
        acts[k - 2] is DropCapabilities,
        acts[k - 3] is RemoveOldrootDir,
        acts[k - 4] is UnmountOldroot,
        acts[k - 5] matches Action::SetHostname { name } && name == states[0].hostname,
        acts[k - 6] is UnshareNamespaces,
{
    lemma_action_emitter(states[k], evs[k], states[k + 1], acts[k]);
    assert(states[k].phase is SpawnChild);
    assert(k >= 1);
    lemma_run_step(states, evs, acts, k - 1);
    lemma_entry(states[k - 1], evs[k - 1], states[k], acts[k - 1]);
    assert(states[k - 1].phase is FilterLoad);
    assert(k >= 2);
    lemma_run_step(states, evs, acts, k - 2);
    lemma_entry(states[k - 2], evs[k - 2], states[k - 1], acts[k - 2]);
    assert(states[k - 2].phase is CapsDrop);
    assert(k >= 3);
    lemma_run_step(states, evs, acts, k - 3);
    lemma_entry(states[k - 3], evs[k - 3], states[k - 2], acts[k - 3]);
    assert(states[k - 3].phase is RemoveOldroot);
    assert(k >= 4);
    lemma_run_step(states, evs, acts, k - 4);
    lemma_entry(states[k - 4], evs[k - 4], states[k - 3], acts[k - 4]);
    assert(states[k - 4].phase is DetachOldroot);
    assert(k >= 5);
    lemma_run_step(states, evs, acts, k - 5);
    lemma_entry(states[k - 5], evs[k - 5], states[k - 4], acts[k - 5]);
    assert(states[k - 5].phase is HostnameSet);
    assert(k >= 6);
    lemma_run_step(states, evs, acts, k - 6);
    lemma_entry(states[k - 6], evs[k - 6], states[k - 5], acts[k - 6]);
    assert(states[k - 6].phase is UnshareRest);
    assert(k >= 7);
    lemma_run_hostname(states, evs, acts, k - 5);
}

/// The process's isolation state: which of the construction's effects
/// have taken place.
pub struct SandboxModel {
    /// The mount namespace is the process's own.
    pub mount_ns_unshared: bool,
    /// The staging directory has become `/`, and the old root hangs at
    /// `/oldrootfs`.
    pub pivoted: bool,
    /// A fresh procfs stands at `/proc`.
    pub proc_mounted: bool,
    /// The host's device tree stands at `/dev`.
    pub dev_moved: bool,
    /// The cgroup, IPC, network, PID and UTS namespaces are fresh.
    pub namespaces_unshared: bool,
    /// The UTS hostname, once it was set.
    pub hostname: Option<Seq<char>>,
    /// The old root's subtree is detached: no path leads to the host.
    pub oldroot_detached: bool,
    /// A directory `/oldrootfs` exists.
    pub oldroot_present: bool,
    /// The bounding and inheritable capability sets are empty.
    pub caps_dropped: bool,
    /// The syscall filter is installed.
    pub filter_loaded: bool,
}

/// The state before anything has happened.
pub open spec fn initial_sandbox() -> SandboxModel {
    SandboxModel {
        mount_ns_unshared: false,
        pivoted: false,
        proc_mounted: false,
        dev_moved: false,
        namespaces_unshared: false,
        hostname: None,
        oldroot_detached: false,
        oldroot_present: false,
        caps_dropped: false,
        filter_loaded: false,
    }
}

/// What one action does to the isolation state, as the kernel documents
/// it.  Every effect but the removal of `/oldrootfs` is irreversible.
pub open spec fn apply_sandbox_action(m: SandboxModel, a: Action) -> SandboxModel {
    match a {
        Action::UnshareMount => SandboxModel { mount_ns_unshared: true, ..m },
        Action::PivotRoot { .. } => SandboxModel { pivoted: true, oldroot_present: true, ..m },
        Action::MountProc => SandboxModel { proc_mounted: true, ..m },
        Action::MoveDev => SandboxModel { dev_moved: true, ..m },
        Action::UnshareNamespaces => SandboxModel { namespaces_unshared: true, ..m },
        Action::SetHostname { name } => SandboxModel { hostname: Some(name@), ..m },
        Action::UnmountOldroot => SandboxModel { oldroot_detached: true, ..m },
        Action::RemoveOldrootDir => SandboxModel { oldroot_present: false, ..m },
        Action::DropCapabilities => SandboxModel { caps_dropped: true, ..m },
        Action::LoadSeccomp { .. } => SandboxModel { filter_loaded: true, ..m },
        _ => m,
    }
}

/// Folds [`apply_sandbox_action`] over a whole run's actions, first one
/// first.
pub open spec fn apply_sandbox_actions(m: SandboxModel, s: Seq<Action>) -> SandboxModel
    decreases s.len(),
{
    if s.len() == 0 {
        m
    } else {
        apply_sandbox_action(apply_sandbox_actions(m, s.drop_last()), s.last())
    }
}

/// What the isolation state is at each phase of a construction that has
/// not failed: each effect appears exactly when its phase is past, and
/// `/oldrootfs` exists exactly between the pivot and its removal.
pub open spec fn model_matches(ph: Phase, m: SandboxModel, h: Seq<char>) -> bool {
    let o = phase_order(ph);
    &&& m.mount_ns_unshared == (o >= 1)
    &&& m.pivoted == (o >= 10)
    &&& m.proc_mounted == (o >= 12)
    &&& m.dev_moved == (o >= 13)
    &&& m.namespaces_unshared == (o >= 16)
    &&& m.hostname == (if o >= 17 {
        Some(h)
    } else {
        None
    })
    &&& m.oldroot_detached == (o >= 18)
    &&& m.oldroot_present == (10 <= o < 19)
    &&& m.caps_dropped == (o >= 20)
    &&& m.filter_loaded == (o >= 21)
}

/// Along any run that has not failed — it stands at or before the spawn —
/// the isolation state is exactly what the phase says: the actions
/// performed so far have had their effect, and nothing else has.
pub proof fn lemma_run_model(states: Seq<Pipeline>, evs: Seq<Event>, acts: Seq<Action>, n: int)
    requires
        is_run(states, evs, acts),
        states[0].phase is Start,
        0 <= n < states.len(),
        phase_order(states[n].phase) <= 21,
    ensures
        model_matches(
            states[n].phase,
            apply_sandbox_actions(initial_sandbox(), acts.take(n)),
            states[0].hostname@,
        ),
    decreases n,
{
    if n == 0 {
        assert(acts.take(0) =~= Seq::<Action>::empty());
    } else {
        lemma_run_monotone(states, evs, acts, n - 1, n);
        lemma_run_model(states, evs, acts, n - 1);
        lemma_run_hostname(states, evs, acts, n - 1);
        lemma_run_step(states, evs, acts, n - 1);
        assert(acts.take(n).drop_last() =~= acts.take(n - 1));
        assert(acts.take(n).last() == acts[n - 1]);
    }
}

/// The world the child starts in.  In any run that spawns it: the root is
/// pivoted, a fresh procfs stands at `/proc`, the host's devices at
/// `/dev`, the five namespaces are fresh — so the child is PID 1 of its
/// own PID space — the hostname is the one this run drew, `/oldrootfs` is
/// detached and no longer exists, the capability sets are empty, and the
/// syscall filter is in place.
pub proof fn lemma_spawn_world(states: Seq<Pipeline>, evs: Seq<Event>, acts: Seq<Action>, k: int)
    requires
        is_run(states, evs, acts),
        states[0].phase is Start,
        0 <= k < acts.len(),
        acts[k] is Spawn,
    ensures
        ({
            let m = apply_sandbox_actions(initial_sandbox(), acts.take(k));
            &&& m.mount_ns_unshared
            &&& m.pivoted
            &&& m.proc_mounted
            &&& m.dev_moved
            &&& m.namespaces_unshared
            &&& m.hostname == Some(states[0].hostname@)
            &&& m.oldroot_detached
            &&& !m.oldroot_present
            &&& m.caps_dropped
            &&& m.filter_loaded
        }),
{
    lemma_run_step(states, evs, acts, k);
    lemma_action_emitter(states[k], evs[k], states[k + 1], acts[k]);
    lemma_run_model(states, evs, acts, k);
}

/// What the pipeline's control-group plan does to the cgroup tree,
/// whatever it held before: it creates the group named after this run's
/// hostname, puts the runtime's own process into it — so the child
/// inherits the limits — and writes the default caps: one gibibyte of
/// memory, one hundred processes, one cpu.
pub proof fn lemma_pipeline_cgroup_plan(
    pre: Pipeline,
    ev: Event,
    post: Pipeline,
    a: Action,
    plan: Seq<CgroupAction>,
    m: CgroupModel,
)
    requires
        step_spec(pre, ev, post, a),
        pre.phase is CgroupSetup,
        ev is Succeeded,
        a matches Action::SetupCgroup { plan: actions } && actions@ == plan,
    ensures
        ({
            let m2 = apply_cgroup_actions(m, plan);
            &&& m2.groups.dom().contains(pre.hostname@)
            &&& m2.groups[pre.hostname@].procs.contains(pre.self_pid)
            &&& m2.groups[pre.hostname@].cpus == Some(DEFAULT_CPUS)
            &&& m2.groups[pre.hostname@].memory_max == Some(DEFAULT_MEMORY_MAX)
            &&& m2.groups[pre.hostname@].pids_max == Some(DEFAULT_PIDS_MAX)
        }),
{
    let b = choose|b: CgroupV2Builder|
        {
            &&& plan == #[trigger] create_action_seq(b)
            &&& b.name@ == pre.hostname@
            &&& b.pids@ == seq![pre.self_pid]
            &&& b.cpus == Some(DEFAULT_CPUS)
            &&& b.max_mem == Some(DEFAULT_MEMORY_MAX)
            &&& b.max_pids == Some(DEFAULT_PIDS_MAX)
        };
    lemma_create_plan(m, b);
    assert(b.pids@[0] == pre.self_pid);
}

/// The fallback: when the image fetch fails, the next action copies the
/// same rootfs spec, taken as a host directory, into the same staging
/// directory — so the sandbox then boots from that directory.
pub proof fn lemma_fetch_fallback(pre: Pipeline, ev: Event, post: Pipeline, a: Action)
    requires
        step_spec(pre, ev, post, a),
        pre.phase is AwaitFetch,
        !(ev is Succeeded),
    ensures
        post.phase is AwaitCopy,
        pre.rootfs is Some,
        a matches Action::CopyRootfs { source, dest } && source == pre.rootfs->0 && dest
            == pre.tempdir,
{
}

} // verus!
