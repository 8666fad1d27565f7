use mymoulette::args::Arguments;
use mymoulette::cgroup::CgroupAction;
use mymoulette::pipeline::{Action, Event, Phase, Pipeline};

fn arguments(workdir: Option<&str>, rootfs: Option<&str>) -> Arguments {
    Arguments {
        binary_name: String::from("/bin/busybox"),
        binary_args: vec![String::from("echo"), String::from("hello")],
        workdir: workdir.map(String::from),
        rootfs: rootfs.map(String::from),
    }
}

#[test]
fn hostname_is_ten_lowercase_alphanumerics() {
    let p = Pipeline::new(arguments(None, None), 1234);
    assert_eq!(p.hostname.chars().count(), 10);
    for c in p.hostname.chars() {
        assert!(c.is_ascii_lowercase() || c.is_ascii_digit(), "bad hostname char {c}");
    }
}

#[test]
fn two_pipelines_draw_their_own_names() {
    // not a certainty, but a 36^-10 coincidence means a broken generator
    let a = Pipeline::new(arguments(None, None), 1);
    let b = Pipeline::new(arguments(None, None), 1);
    assert_ne!(a.hostname, b.hostname);
}

/// Drives a full successful run with a rootfs image that downloads fine
/// and no workdir, and checks every action in order.
#[test]
fn happy_path_with_image() {
    let mut p = Pipeline::new(arguments(None, Some("alpine:latest")), 4242);
    let hostname = p.hostname.clone();

    assert!(matches!(p.step(Event::Begin), Action::UnshareMount));

    let plan = match p.step(Event::Succeeded) {
        Action::SetupCgroup { plan } => plan,
        _ => panic!("expected the cgroup plan"),
    };
    assert_eq!(plan.len(), 10);
    assert_eq!(plan[5], CgroupAction::CreateGroupDir { name: hostname.clone() });
    assert_eq!(plan[6], CgroupAction::AttachPid { name: hostname.clone(), pid: 4242 });
    assert_eq!(plan[7], CgroupAction::SetCpus { name: hostname.clone(), cpus: 1 });
    assert_eq!(
        plan[8],
        CgroupAction::SetMemoryMax { name: hostname.clone(), bytes: 1073741824 }
    );
    assert_eq!(plan[9], CgroupAction::SetPidsMax { name: hostname.clone(), pids: 100 });

    assert!(matches!(p.step(Event::Succeeded), Action::MakeTempDir));

    match p.step(Event::TempDirAt(String::from("/tmp/moulinette.x1"))) {
        Action::FetchImage { reference, dest } => {
            assert_eq!(reference, "alpine:latest");
            assert_eq!(dest, "/tmp/moulinette.x1");
        },
        _ => panic!("expected the image fetch"),
    }

    assert!(matches!(p.step(Event::Succeeded), Action::MountPrivateRoot));
    match p.step(Event::Succeeded) {
        Action::BindMountRootfs { path } => assert_eq!(path, "/tmp/moulinette.x1"),
        _ => panic!("expected the rootfs bind mount"),
    }
    match p.step(Event::Succeeded) {
        Action::CreateOldrootDir { path } => assert_eq!(path, "/tmp/moulinette.x1/oldrootfs"),
        _ => panic!("expected the oldroot directory"),
    }
    match p.step(Event::Succeeded) {
        Action::ChangeDir { path } => assert_eq!(path, "/tmp/moulinette.x1"),
        _ => panic!("expected the chdir into the new root"),
    }
    match p.step(Event::Succeeded) {
        Action::PivotRoot { new_root, put_old } => {
            assert_eq!(new_root, "/tmp/moulinette.x1");
            assert_eq!(put_old, "/tmp/moulinette.x1/oldrootfs");
        },
        _ => panic!("expected the pivot"),
    }
    match p.step(Event::Succeeded) {
        Action::ChangeDir { path } => assert_eq!(path, "/"),
        _ => panic!("expected the chdir to /"),
    }
    assert!(matches!(p.step(Event::Succeeded), Action::MountProc));
    assert!(matches!(p.step(Event::Succeeded), Action::MoveDev));
    // no workdir: straight on to the namespaces
    assert!(matches!(p.step(Event::Succeeded), Action::UnshareNamespaces));
    match p.step(Event::Succeeded) {
        Action::SetHostname { name } => assert_eq!(name, hostname),
        _ => panic!("expected the hostname"),
    }
    assert!(matches!(p.step(Event::Succeeded), Action::UnmountOldroot));
    assert!(matches!(p.step(Event::Succeeded), Action::RemoveOldrootDir));
    assert!(matches!(p.step(Event::Succeeded), Action::DropCapabilities));
    match p.step(Event::Succeeded) {
        Action::LoadSeccomp { policy } => {
            assert_eq!(policy.default_action, 0x7fff0000);
            let denied: Vec<i32> = policy.rules.iter().map(|r| r.syscall).collect();
            assert_eq!(denied, vec![180, 135, 155]);
        },
        _ => panic!("expected the filter"),
    }
    match p.step(Event::Succeeded) {
        Action::Spawn { binary, args } => {
            assert_eq!(binary, "/bin/busybox");
            assert_eq!(args, vec![String::from("echo"), String::from("hello")]);
        },
        _ => panic!("expected the spawn"),
    }
    match p.step(Event::ChildExited(0)) {
        Action::DestroyCgroup { action } => {
            assert_eq!(action, CgroupAction::RemoveGroup { name: hostname.clone() });
        },
        _ => panic!("expected the cgroup teardown"),
    }
    match p.step(Event::Succeeded) {
        Action::Exit { code } => assert_eq!(code, 0),
        _ => panic!("expected the exit"),
    }
    assert_eq!(p.phase, Phase::Done);
}

#[test]
fn workdir_is_mounted_at_home_student() {
    let mut p = Pipeline::new(arguments(Some("/tmp/work"), Some("/tmp/rfs")), 7);
    p.step(Event::Begin);
    p.step(Event::Succeeded);
    p.step(Event::Succeeded);
    p.step(Event::TempDirAt(String::from("/tmp/m2")));
    p.step(Event::Failed); // fetch fails: /tmp/rfs is a directory
    p.step(Event::Succeeded); // copy done -> make mounts private
    p.step(Event::Succeeded); // bind rootfs
    p.step(Event::Succeeded); // oldroot dir
    p.step(Event::Succeeded); // chdir new root
    p.step(Event::Succeeded); // pivot
    p.step(Event::Succeeded); // chdir /
    p.step(Event::Succeeded); // mount proc
    let a = p.step(Event::Succeeded); // move dev
    assert!(matches!(a, Action::MoveDev));
    assert!(matches!(p.step(Event::Succeeded), Action::CreateStudentDir));
    match p.step(Event::Succeeded) {
        Action::BindWorkdir { source, target } => {
            assert_eq!(source, "/oldrootfs//tmp/work");
            assert_eq!(target, "/home/student");
        },
        _ => panic!("expected the workdir bind mount"),
    }
    assert!(matches!(p.step(Event::Succeeded), Action::UnshareNamespaces));
}

#[test]
fn failed_fetch_falls_back_to_the_local_directory() {
    let mut p = Pipeline::new(arguments(None, Some("nonexistent:tag")), 7);
    p.step(Event::Begin);
    p.step(Event::Succeeded);
    p.step(Event::Succeeded);
    match p.step(Event::TempDirAt(String::from("/tmp/m3"))) {
        Action::FetchImage { reference, .. } => assert_eq!(reference, "nonexistent:tag"),
        _ => panic!("expected the image fetch"),
    }
    match p.step(Event::Failed) {
        Action::CopyRootfs { source, dest } => {
            // the spec is taken literally as a host path, colon and all
            assert_eq!(source, "nonexistent:tag");
            assert_eq!(dest, "/tmp/m3");
        },
        _ => panic!("expected the local copy"),
    }
    assert!(matches!(p.step(Event::Succeeded), Action::MountPrivateRoot));
}

#[test]
fn local_rootfs_skips_the_fetch() {
    let mut p = Pipeline::new(arguments(None, None), 7);
    p.step(Event::Begin);
    p.step(Event::Succeeded);
    p.step(Event::Succeeded);
    let a = p.step(Event::TempDirAt(String::from("/tmp/m4")));
    assert!(matches!(a, Action::MountPrivateRoot));
}

#[test]
fn construction_failure_tears_the_cgroup_down() {
    let mut p = Pipeline::new(arguments(None, None), 7);
    let hostname = p.hostname.clone();
    p.step(Event::Begin);
    p.step(Event::Succeeded); // cgroup plan issued
    match p.step(Event::Failed) {
        // the staging directory could not be created
        Action::DestroyCgroup { action } => {
            assert_eq!(action, CgroupAction::RemoveGroup { name: hostname });
        },
        _ => panic!("expected the cgroup teardown"),
    }
    match p.step(Event::Succeeded) {
        Action::Exit { code } => assert_eq!(code, 1),
        _ => panic!("expected the failure exit"),
    }
}

#[test]
fn pre_pivot_failure_removes_the_staging_directory() {
    let mut p = Pipeline::new(arguments(None, None), 7);
    let hostname = p.hostname.clone();
    p.step(Event::Begin);
    p.step(Event::Succeeded); // cgroup plan
    p.step(Event::Succeeded); // temp dir
    p.step(Event::TempDirAt(String::from("/tmp/m7"))); // -> make mounts private
    p.step(Event::Succeeded); // -> bind rootfs
    match p.step(Event::Failed) {
        // the bind mount failed: the root was never pivoted
        Action::RemoveTempDir { path } => assert_eq!(path, "/tmp/m7"),
        _ => panic!("expected the staging cleanup"),
    }
    match p.step(Event::Succeeded) {
        Action::DestroyCgroup { action } => {
            assert_eq!(action, CgroupAction::RemoveGroup { name: hostname });
        },
        _ => panic!("expected the cgroup teardown"),
    }
    match p.step(Event::Succeeded) {
        Action::Exit { code } => assert_eq!(code, 1),
        _ => panic!("expected the failure exit"),
    }
}

#[test]
fn early_failure_exits_at_once() {
    let mut p = Pipeline::new(arguments(None, None), 7);
    p.step(Event::Begin);
    match p.step(Event::Failed) {
        // the first unshare failed: no cgroup exists yet
        Action::Exit { code } => assert_eq!(code, 1),
        _ => panic!("expected the failure exit"),
    }
    assert_eq!(p.phase, Phase::Done);
}

#[test]
fn child_exit_code_is_propagated() {
    let mut p = Pipeline::new(arguments(None, None), 7);
    let mut a = p.step(Event::Begin);
    loop {
        a = match a {
            Action::Spawn { .. } => break,
            Action::MakeTempDir => p.step(Event::TempDirAt(String::from("/tmp/m5"))),
            _ => p.step(Event::Succeeded),
        };
    }
    p.step(Event::ChildExited(42));
    match p.step(Event::Succeeded) {
        Action::Exit { code } => assert_eq!(code, 42),
        _ => panic!("expected the exit"),
    }
}

#[test]
fn failed_wait_exits_nonzero() {
    let mut p = Pipeline::new(arguments(None, None), 7);
    let mut a = p.step(Event::Begin);
    loop {
        a = match a {
            Action::Spawn { .. } => break,
            Action::MakeTempDir => p.step(Event::TempDirAt(String::from("/tmp/m6"))),
            _ => p.step(Event::Succeeded),
        };
    }
    p.step(Event::WaitFailed);
    match p.step(Event::Succeeded) {
        Action::Exit { code } => assert_eq!(code, 1),
        _ => panic!("expected the failure exit"),
    }
}
