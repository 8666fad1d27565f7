use mymoulette::cgroup::{CgroupAction, CgroupError, CgroupV2Builder, Controller};
use mymoulette::cgroup::{action_content, action_path, controller_token};
use mymoulette::text::u64_to_string;

#[test]
fn builder_collects_configuration() {
    let builder = CgroupV2Builder::new("grp1")
        .add_pid(7)
        .add_pid(8)
        .set_cpus_number(2)
        .set_mem_max(1048576)
        .set_pids_max(64);
    let (plan, handle) = builder.create().expect("valid name");
    assert_eq!(handle.name, "grp1");
    assert_eq!(handle.path, "/sys/fs/cgroup/grp1");
    assert_eq!(plan.len(), 11);
    assert_eq!(plan[0], CgroupAction::EnsureRoot);
    assert_eq!(plan[1], CgroupAction::EnableController(Controller::Cpu));
    assert_eq!(plan[2], CgroupAction::EnableController(Controller::Cpuset));
    assert_eq!(plan[3], CgroupAction::EnableController(Controller::Memory));
    assert_eq!(plan[4], CgroupAction::EnableController(Controller::Pids));
    assert_eq!(plan[5], CgroupAction::CreateGroupDir { name: String::from("grp1") });
    assert_eq!(plan[6], CgroupAction::AttachPid { name: String::from("grp1"), pid: 7 });
    assert_eq!(plan[7], CgroupAction::AttachPid { name: String::from("grp1"), pid: 8 });
    assert_eq!(plan[8], CgroupAction::SetCpus { name: String::from("grp1"), cpus: 2 });
    assert_eq!(plan[9], CgroupAction::SetMemoryMax { name: String::from("grp1"), bytes: 1048576 });
    assert_eq!(plan[10], CgroupAction::SetPidsMax { name: String::from("grp1"), pids: 64 });
}

#[test]
fn limits_come_in_fixed_order() {
    let builder = CgroupV2Builder::new("g")
        .add_pid(1)
        .set_pids_max(100)
        .set_mem_max(1073741824)
        .set_cpus_number(1);
    let (plan, _) = builder.create().expect("valid name");
    // setter order does not matter: cpus, then memory, then pids
    assert_eq!(plan.len(), 10);
    assert_eq!(plan[7], CgroupAction::SetCpus { name: String::from("g"), cpus: 1 });
    assert_eq!(plan[8], CgroupAction::SetMemoryMax { name: String::from("g"), bytes: 1073741824 });
    assert_eq!(plan[9], CgroupAction::SetPidsMax { name: String::from("g"), pids: 100 });
}

#[test]
fn no_limits_no_limit_actions() {
    let (plan, _) = CgroupV2Builder::new("bare").create().expect("valid name");
    assert_eq!(plan.len(), 6);
    assert_eq!(plan[5], CgroupAction::CreateGroupDir { name: String::from("bare") });
}

#[test]
fn empty_name_is_rejected() {
    let r = CgroupV2Builder::new("").create();
    assert!(matches!(r, Err(CgroupError::InvalidName(_))));
}

#[test]
fn name_with_separator_is_rejected() {
    let r = CgroupV2Builder::new("a/b").create();
    assert!(matches!(r, Err(CgroupError::InvalidName(_))));
}

#[test]
fn destroy_removes_the_group_directory() {
    let (_, handle) = CgroupV2Builder::new("grp2").create().expect("valid name");
    let action = handle.destroy();
    assert_eq!(action, CgroupAction::RemoveGroup { name: String::from("grp2") });
    assert_eq!(action_path(&action), "/sys/fs/cgroup/grp2");
    assert_eq!(action_content(&action), None);
}

#[test]
fn action_paths_and_contents() {
    assert_eq!(action_path(&CgroupAction::EnsureRoot), "/sys/fs/cgroup/");
    let enable = CgroupAction::EnableController(Controller::Memory);
    assert_eq!(action_path(&enable), "/sys/fs/cgroup/cgroup.subtree_control");
    assert_eq!(action_content(&enable), Some(String::from("+memory")));
    let attach = CgroupAction::AttachPid { name: String::from("g"), pid: 4242 };
    assert_eq!(action_path(&attach), "/sys/fs/cgroup/g/cgroup.procs");
    assert_eq!(action_content(&attach), Some(String::from("4242")));
    let mem = CgroupAction::SetMemoryMax { name: String::from("g"), bytes: 1048576 };
    assert_eq!(action_path(&mem), "/sys/fs/cgroup/g/memory.max");
    assert_eq!(action_content(&mem), Some(String::from("1048576")));
    let pids = CgroupAction::SetPidsMax { name: String::from("g"), pids: 100 };
    assert_eq!(action_path(&pids), "/sys/fs/cgroup/g/pids.max");
    assert_eq!(action_content(&pids), Some(String::from("100")));
    let cpus = CgroupAction::SetCpus { name: String::from("g"), cpus: 1 };
    assert_eq!(action_path(&cpus), "/sys/fs/cgroup/g/cpuset.cpus");
    assert_eq!(action_content(&cpus), Some(String::from("1")));
}

#[test]
fn controller_tokens() {
    assert_eq!(controller_token(Controller::Cpu), "+cpu");
    assert_eq!(controller_token(Controller::Cpuset), "+cpuset");
    assert_eq!(controller_token(Controller::Memory), "+memory");
    assert_eq!(controller_token(Controller::Pids), "+pids");
}

#[test]
fn decimal_rendering() {
    assert_eq!(u64_to_string(0), "0");
    assert_eq!(u64_to_string(7), "7");
    assert_eq!(u64_to_string(100), "100");
    assert_eq!(u64_to_string(1073741824), "1073741824");
    assert_eq!(u64_to_string(u64::MAX), "18446744073709551615");
}
