//! The cgroup-v2 resource manager.
//!
//! A [`CgroupV2Builder`] collects the group's configuration; [`create`]
//! turns it into an ordered plan of filesystem actions that materialises the
//! group under the cgroup-v2 root, and [`CgroupV2::destroy`] into the action
//! that removes it.  The meaning of every action on the cgroup tree is given
//! by [`apply_cgroup_action`], and the laws at the end of this module state
//! what a whole plan does to the tree.
//!
//! [`create`]: CgroupV2Builder::create
use crate::text::{decimal_chars, u64_to_string};
use vstd::prelude::*;
use vstd::string::StringExecFns;

verus! {

/// Why building or tearing down a control group failed.
#[derive(Debug)]
pub enum CgroupError {
    /// The group name was empty or contained a path separator.
    InvalidName(&'static str),
    /// A filesystem action of the plan failed; the payload describes the
    /// operation that failed.
    IOError(String),
}

/// A cgroup-v2 controller that the runtime enables on the root subtree.
#[derive(Clone, Copy, Debug, PartialEq, Eq, Structural)]
pub enum Controller {
    Cpu,
    Cpuset,
    Memory,
    Pids,
}

/// One step of a control-group plan: a single directory operation or file
/// write under the cgroup-v2 root mount.
#[derive(Debug, PartialEq)]
pub enum CgroupAction {
    /// Create the cgroup-v2 root directory and all its parents if absent.
    EnsureRoot,
    /// Write `+<controller>` to `<root>/cgroup.subtree_control`.
    EnableController(Controller),
    /// Create the directory `<root>/<name>` if it does not exist; fail if
    /// the path exists and is not a directory.
    CreateGroupDir { name: String },
    /// Write one PID, in decimal, to `<root>/<name>/cgroup.procs`.
    AttachPid { name: String, pid: u32 },
    /// Write the count, in decimal, to `<root>/<name>/cpuset.cpus`.
    SetCpus { name: String, cpus: u32 },
    /// Write the limit, in decimal, to `<root>/<name>/memory.max`.
    SetMemoryMax { name: String, bytes: u64 },
    /// Write the limit, in decimal, to `<root>/<name>/pids.max`.
    SetPidsMax { name: String, pids: u32 },
    /// Remove the directory `<root>/<name>` recursively.
    RemoveGroup { name: String },
}

/// The absolute path of the cgroup-v2 root mount, with a trailing separator.
pub open spec fn cgroup_root_path() -> Seq<char> {
    "/sys/fs/cgroup/"@
}

/// A group name resolves to a direct child of the cgroup-v2 root: it is
/// non-empty and holds no path separator.
pub open spec fn valid_group_name(name: Seq<char>) -> bool {
    &&& name.len() > 0
    &&& forall|i: int| 0 <= i < name.len() ==> name[i] != '/'
}

/// Checks [`valid_group_name`] on a concrete string.
pub fn check_group_name(name: &str) -> (b: bool)
    ensures
        b == valid_group_name(name@),
{
    let len = name.unicode_len();
    if len == 0 {
        return false;
    }
    let mut i: usize = 0;
    while i < len
        invariant
            i <= len,
            len == name@.len(),
            forall|j: int| 0 <= j < i ==> name@[j] != '/',
        decreases len - i,
    {
        if name.get_char(i) == '/' {
            return false;
        }
        i = i + 1;
    }
    true
}

/// The configuration of a control group before it is materialised.
pub struct CgroupV2Builder {
    /// Name of the group: a direct child of the cgroup-v2 root.
    pub name: String,
    /// Processes to attach, in the order the plan attaches them.
    pub pids: Vec<u32>,
    /// Value for `memory.max`, if a memory cap is wanted.
    pub max_mem: Option<u64>,
    /// Value for `pids.max`, if a process-count cap is wanted.
    pub max_pids: Option<u32>,
    /// Value for `cpuset.cpus`, if a cpu restriction is wanted.
    pub cpus: Option<u32>,
}

/// A handle to a materialised group.  It owns the on-disk directory; the
/// [`destroy`] action removes it.
///
/// [`destroy`]: CgroupV2::destroy
pub struct CgroupV2 {
    /// The group's name.
    pub name: String,
    /// The group's absolute path, `<root>/<name>`.
    pub path: String,
}

/// The ordered action sequence that materialises the group described by `b`:
/// the root mount first, then the four controllers on its subtree — the
/// kernel wants one `+name` token per write, and the parent's controllers
/// must be enabled before any child interface file is written — then the
/// group directory, each configured process, and the configured limits.
pub open spec fn create_action_seq(b: CgroupV2Builder) -> Seq<CgroupAction> {
    seq![
        CgroupAction::EnsureRoot,
        CgroupAction::EnableController(Controller::Cpu),
        CgroupAction::EnableController(Controller::Cpuset),
        CgroupAction::EnableController(Controller::Memory),
        CgroupAction::EnableController(Controller::Pids),
        CgroupAction::CreateGroupDir { name: b.name },
    ] + b.pids@.map_values(|p: u32| CgroupAction::AttachPid { name: b.name, pid: p })
        + (if b.cpus is Some {
        seq![CgroupAction::SetCpus { name: b.name, cpus: b.cpus->0 }]
    } else {
        Seq::empty()
    }) + (if b.max_mem is Some {
        seq![CgroupAction::SetMemoryMax { name: b.name, bytes: b.max_mem->0 }]
    } else {
        Seq::empty()
    }) + (if b.max_pids is Some {
        seq![CgroupAction::SetPidsMax { name: b.name, pids: b.max_pids->0 }]
    } else {
        Seq::empty()
    })
}

impl CgroupV2Builder {
    /// A builder for a group called `name`, with no processes and no limits.
    pub fn new(name: &str) -> (b: CgroupV2Builder)
        ensures
            b.name@ == name@,
            b.pids@ == Seq::<u32>::empty(),
            b.max_mem is None,
            b.max_pids is None,
            b.cpus is None,
    {
        CgroupV2Builder {
            name: String::from_str(name),
            pids: Vec::new(),
            max_mem: None,
            max_pids: None,
            cpus: None,
        }
    }

    /// Adds one process to attach to the group.
    pub fn add_pid(self, pid: u32) -> (b: CgroupV2Builder)
        ensures
            b.name == self.name,
            b.pids@ == self.pids@.push(pid),
            b.max_mem == self.max_mem,
            b.max_pids == self.max_pids,
            b.cpus == self.cpus,
    {
        let mut pids = self.pids;
        pids.push(pid);
        CgroupV2Builder { pids, ..self }
    }

    /// Sets the memory cap, in bytes.
    pub fn set_mem_max(self, max: u64) -> (b: CgroupV2Builder)
        ensures
            b.name == self.name,
            b.pids == self.pids,
            b.max_mem == Some(max),
            b.max_pids == self.max_pids,
            b.cpus == self.cpus,
    {
        CgroupV2Builder { max_mem: Some(max), ..self }
    }

    /// Sets the process-count cap.
    pub fn set_pids_max(self, max: u32) -> (b: CgroupV2Builder)
        ensures
            b.name == self.name,
            b.pids == self.pids,
            b.max_mem == self.max_mem,
            b.max_pids == Some(max),
            b.cpus == self.cpus,
    {
        CgroupV2Builder { max_pids: Some(max), ..self }
    }

    /// Sets the number of cpus the group may use.
    pub fn set_cpus_number(self, n: u32) -> (b: CgroupV2Builder)
        ensures
            b.name == self.name,
            b.pids == self.pids,
            b.max_mem == self.max_mem,
            b.max_pids == self.max_pids,
            b.cpus == Some(n),
    {
        CgroupV2Builder { cpus: Some(n), ..self }
    }

    /// Turns the configuration into the plan that materialises the group,
    /// and the handle that owns it.  Fails exactly when the name is not a
    /// valid direct-child name.
    pub fn create(&self) -> (r: Result<(Vec<CgroupAction>, CgroupV2), CgroupError>)
        ensures
            r is Ok <==> valid_group_name(self.name@),
            r is Err ==> r->Err_0 is InvalidName,
            r is Ok ==> r->Ok_0.0@ == create_action_seq(*self),
            r is Ok ==> r->Ok_0.1.name == self.name && r->Ok_0.1.path@ == cgroup_root_path()
                + self.name@,
    {
        if !check_group_name(self.name.as_str()) {
            return Err(CgroupError::InvalidName("group name must be non-empty, with no '/'"));
        }
        let ghost all = create_action_seq(*self);
        let mut actions: Vec<CgroupAction> = Vec::new();
        actions.push(CgroupAction::EnsureRoot);
        actions.push(CgroupAction::EnableController(Controller::Cpu));
        actions.push(CgroupAction::EnableController(Controller::Cpuset));
        actions.push(CgroupAction::EnableController(Controller::Memory));
        actions.push(CgroupAction::EnableController(Controller::Pids));
        actions.push(CgroupAction::CreateGroupDir { name: self.name.clone() });
        let ghost head = actions@;
        let mut i: usize = 0;
        while i < self.pids.len()
            invariant
                i <= self.pids@.len(),
                actions@ == head + self.pids@.take(i as int).map_values(
                    |p: u32| CgroupAction::AttachPid { name: self.name, pid: p },
                ),
            decreases self.pids@.len() - i,
        {
            let pid = self.pids[i];
            actions.push(CgroupAction::AttachPid { name: self.name.clone(), pid });
            proof {
                assert(self.pids@.take(i + 1 as int).map_values(
                    |p: u32| CgroupAction::AttachPid { name: self.name, pid: p },
                ) =~= self.pids@.take(i as int).map_values(
                    |p: u32| CgroupAction::AttachPid { name: self.name, pid: p },
                ).push(CgroupAction::AttachPid { name: self.name, pid: self.pids@[i as int] }));
            }
            i = i + 1;
        }
        proof {
            assert(self.pids@.take(self.pids@.len() as int) =~= self.pids@);
        }
        if let Some(n) = self.cpus {
            actions.push(CgroupAction::SetCpus { name: self.name.clone(), cpus: n });
        }
        if let Some(m) = self.max_mem {
            actions.push(CgroupAction::SetMemoryMax { name: self.name.clone(), bytes: m });
        }
        if let Some(p) = self.max_pids {
            actions.push(CgroupAction::SetPidsMax { name: self.name.clone(), pids: p });
        }
        proof {
            assert(actions@ =~= create_action_seq(*self));
        }
        let path = String::from_str("/sys/fs/cgroup/").concat(self.name.as_str());
        Ok((actions, CgroupV2 { name: self.name.clone(), path }))
    }
}

impl CgroupV2 {
    /// The single teardown action: remove the group directory recursively.
    pub fn destroy(&self) -> (a: CgroupAction)
        ensures
            a == (CgroupAction::RemoveGroup { name: self.name }),
    {
        CgroupAction::RemoveGroup { name: self.name.clone() }
    }
}

/// The `+name` token whose write to `cgroup.subtree_control` enables `c`.
pub open spec fn spec_controller_token(c: Controller) -> Seq<char> {
    match c {
        Controller::Cpu => "+cpu"@,
        Controller::Cpuset => "+cpuset"@,
        Controller::Memory => "+memory"@,
        Controller::Pids => "+pids"@,
    }
}

/// The `+name` token that enables `c`, as a concrete string.
pub fn controller_token(c: Controller) -> (s: String)
    ensures
        s@ == spec_controller_token(c),
{
    match c {
        Controller::Cpu => String::from_str("+cpu"),
        Controller::Cpuset => String::from_str("+cpuset"),
        Controller::Memory => String::from_str("+memory"),
        Controller::Pids => String::from_str("+pids"),
    }
}

/// The absolute path of the file or directory that `a` touches.
pub open spec fn spec_action_path(a: CgroupAction) -> Seq<char> {
    match a {
        CgroupAction::EnsureRoot => cgroup_root_path(),
        CgroupAction::EnableController(_) => cgroup_root_path() + "cgroup.subtree_control"@,
        CgroupAction::CreateGroupDir { name } => cgroup_root_path() + name@,
        CgroupAction::AttachPid { name, .. } => cgroup_root_path() + name@ + "/cgroup.procs"@,
        CgroupAction::SetCpus { name, .. } => cgroup_root_path() + name@ + "/cpuset.cpus"@,
        CgroupAction::SetMemoryMax { name, .. } => cgroup_root_path() + name@ + "/memory.max"@,
        CgroupAction::SetPidsMax { name, .. } => cgroup_root_path() + name@ + "/pids.max"@,
        CgroupAction::RemoveGroup { name } => cgroup_root_path() + name@,
    }
}

/// The absolute path that `a` touches, as a concrete string.
pub fn action_path(a: &CgroupAction) -> (s: String)
    ensures
        s@ == spec_action_path(*a),
{
    let root = String::from_str("/sys/fs/cgroup/");
    match a {
        CgroupAction::EnsureRoot => root,
        CgroupAction::EnableController(_) => root.concat("cgroup.subtree_control"),
        CgroupAction::CreateGroupDir { name } => root.concat(name.as_str()),
        CgroupAction::AttachPid { name, .. } => root.concat(name.as_str()).concat(
            "/cgroup.procs",
        ),
        CgroupAction::SetCpus { name, .. } => root.concat(name.as_str()).concat("/cpuset.cpus"),
        CgroupAction::SetMemoryMax { name, .. } => root.concat(name.as_str()).concat(
            "/memory.max",
        ),
        CgroupAction::SetPidsMax { name, .. } => root.concat(name.as_str()).concat("/pids.max"),
        CgroupAction::RemoveGroup { name } => root.concat(name.as_str()),
    }
}

/// The exact text that `a` writes into its file, or `None` where `a` is a
/// directory operation.
pub open spec fn spec_action_content(a: CgroupAction) -> Option<Seq<char>> {
    match a {
        CgroupAction::EnableController(c) => Some(spec_controller_token(c)),
        CgroupAction::AttachPid { pid, .. } => Some(decimal_chars(pid as nat)),
        CgroupAction::SetCpus { cpus, .. } => Some(decimal_chars(cpus as nat)),
        CgroupAction::SetMemoryMax { bytes, .. } => Some(decimal_chars(bytes as nat)),
        CgroupAction::SetPidsMax { pids, .. } => Some(decimal_chars(pids as nat)),
        _ => None,
    }
}

/// The text that `a` writes, as a concrete string.
pub fn action_content(a: &CgroupAction) -> (r: Option<String>)
    ensures
        r is Some <==> spec_action_content(*a) is Some,
        r is Some ==> r->0@ == spec_action_content(*a)->0,
{
    match a {
        CgroupAction::EnableController(c) => Some(controller_token(*c)),
        CgroupAction::AttachPid { pid, .. } => Some(u64_to_string(*pid as u64)),
        CgroupAction::SetCpus { cpus, .. } => Some(u64_to_string(*cpus as u64)),
        CgroupAction::SetMemoryMax { bytes, .. } => Some(u64_to_string(*bytes)),
        CgroupAction::SetPidsMax { pids, .. } => Some(u64_to_string(*pids as u64)),
        _ => None,
    }
}

/// The state of one child group of the cgroup-v2 root: the processes
/// attached to it and the limit files that have been written.
pub struct GroupModel {
    /// Processes the group holds; `cgroup.procs` lists each on its own line.
    pub procs: Set<u32>,
    /// Content of `cpuset.cpus`, once written.
    pub cpus: Option<u32>,
    /// Content of `memory.max`, once written.
    pub memory_max: Option<u64>,
    /// Content of `pids.max`, once written.
    pub pids_max: Option<u32>,
}

/// The part of the cgroup-v2 tree that the plans touch: the root mount, the
/// controllers enabled on its subtree, and the direct child groups.
pub struct CgroupModel {
    /// Whether the root directory exists.
    pub root_exists: bool,
    /// Controllers listed in the root's `cgroup.subtree_control`.
    pub controllers: Set<Controller>,
    /// The direct child groups, by name.
    pub groups: Map<Seq<char>, GroupModel>,
}

/// A group directory that was just created: no processes, no limits.
pub open spec fn empty_group() -> GroupModel {
    GroupModel { procs: Set::empty(), cpus: None, memory_max: None, pids_max: None }
}

/// What one action does to the cgroup tree, as cgroup-v2 documents it: each
/// write to `cgroup.procs` moves exactly one process into the group, each
/// limit write replaces that limit, creating an existing directory changes
/// nothing, and removing the group directory discards the group whole.
/// A write into a group that does not exist fails and changes nothing.
pub open spec fn apply_cgroup_action(m: CgroupModel, a: CgroupAction) -> CgroupModel {
    match a {
        CgroupAction::EnsureRoot => CgroupModel { root_exists: true, ..m },
        CgroupAction::EnableController(c) => CgroupModel {
            controllers: m.controllers.insert(c),
            ..m
        },
        CgroupAction::CreateGroupDir { name } => if m.groups.dom().contains(name@) {
            m
        } else {
            CgroupModel { groups: m.groups.insert(name@, empty_group()), ..m }
        },
        CgroupAction::AttachPid { name, pid } => if m.groups.dom().contains(name@) {
            CgroupModel {
                groups: m.groups.insert(
                    name@,
                    GroupModel { procs: m.groups[name@].procs.insert(pid), ..m.groups[name@] },
                ),
                ..m
            }
        } else {
            m
        },
        CgroupAction::SetCpus { name, cpus } => if m.groups.dom().contains(name@) {
            CgroupModel {
                groups: m.groups.insert(name@, GroupModel { cpus: Some(cpus), ..m.groups[name@] }),
                ..m
            }
        } else {
            m
        },
        CgroupAction::SetMemoryMax { name, bytes } => if m.groups.dom().contains(name@) {
            CgroupModel {
                groups: m.groups.insert(
                    name@,
                    GroupModel { memory_max: Some(bytes), ..m.groups[name@] },
                ),
                ..m
            }
        } else {
            m
        },
        CgroupAction::SetPidsMax { name, pids } => if m.groups.dom().contains(name@) {
            CgroupModel {
                groups: m.groups.insert(
                    name@,
                    GroupModel { pids_max: Some(pids), ..m.groups[name@] },
                ),
                ..m
            }
        } else {
            m
        },
        CgroupAction::RemoveGroup { name } => CgroupModel { groups: m.groups.remove(name@), ..m },
    }
}

/// Folds [`apply_cgroup_action`] over a whole plan, first action first.
pub open spec fn apply_cgroup_actions(m: CgroupModel, s: Seq<CgroupAction>) -> CgroupModel
    decreases s.len(),
{
    if s.len() == 0 {
        m
    } else {
        apply_cgroup_actions(apply_cgroup_action(m, s[0]), s.drop_first())
    }
}

/// Running a plan made of two parts is running the first, then the second.
pub proof fn lemma_apply_append(m: CgroupModel, s1: Seq<CgroupAction>, s2: Seq<CgroupAction>)
    ensures
        apply_cgroup_actions(m, s1 + s2) == apply_cgroup_actions(apply_cgroup_actions(m, s1), s2),
    decreases s1.len(),
{
    if s1.len() == 0 {
        assert(s1 + s2 =~= s2);
    } else {
        assert((s1 + s2).drop_first() =~= s1.drop_first() + s2);
        lemma_apply_append(apply_cgroup_action(m, s1[0]), s1.drop_first(), s2);
    }
}

/// Attaching a sequence of processes to an existing group adds exactly those
/// processes to it and changes nothing else about the tree.
proof fn lemma_attach_all(m: CgroupModel, name: String, pids: Seq<u32>)
    requires
        m.groups.dom().contains(name@),
    ensures
        ({
            let m2 = apply_cgroup_actions(
                m,
                pids.map_values(|p: u32| CgroupAction::AttachPid { name, pid: p }),
            );
            &&& m2.root_exists == m.root_exists
            &&& m2.controllers == m.controllers
            &&& m2.groups.dom() == m.groups.dom()
            &&& m2.groups[name@].procs == m.groups[name@].procs + pids.to_set()
            &&& m2.groups[name@].cpus == m.groups[name@].cpus
            &&& m2.groups[name@].memory_max == m.groups[name@].memory_max
            &&& m2.groups[name@].pids_max == m.groups[name@].pids_max
        }),
    decreases pids.len(),
{
    let acts = pids.map_values(|p: u32| CgroupAction::AttachPid { name, pid: p });
    if pids.len() == 0 {
        assert(pids.to_set() =~= Set::empty());
        assert(m.groups[name@].procs + pids.to_set() =~= m.groups[name@].procs);
    } else {
        let m1 = apply_cgroup_action(m, acts[0]);
        assert(m1.groups.dom() =~= m.groups.dom());
        assert(acts.drop_first() =~= pids.drop_first().map_values(
            |p: u32| CgroupAction::AttachPid { name, pid: p },
        ));
        lemma_attach_all(m1, name, pids.drop_first());
        assert(pids.to_set() =~= pids.drop_first().to_set().insert(pids[0])) by {
            assert forall|p: u32| pids.to_set().contains(p) implies pids.drop_first().to_set().insert(
                pids[0],
            ).contains(p) by {
                let i = choose|i: int| 0 <= i < pids.len() && pids[i] == p;
                if i > 0 {
                    assert(pids.drop_first()[i - 1] == p);
                }
            }
            assert forall|p: u32|
                pids.drop_first().to_set().insert(pids[0]).contains(p) implies pids.to_set().contains(
                p,
            ) by {
                if p == pids[0] {
                    assert(pids[0] == p);
                } else {
                    let i = choose|i: int|
                        0 <= i < pids.drop_first().len() && pids.drop_first()[i] == p;
                    assert(pids[i + 1] == p);
                }
            }
        }
        assert(m.groups[name@].procs.insert(pids[0]) + pids.drop_first().to_set()
            =~= m.groups[name@].procs + pids.to_set());
    }
}

/// After the create plan runs, whatever the tree held before: the root and
/// the group directory exist, the four controllers are enabled, every
/// configured process is attached — `cgroup.procs` lists each of them — and
/// the configured limits are written.
pub proof fn lemma_create_plan(m: CgroupModel, b: CgroupV2Builder)
    ensures
        ({
            let m2 = apply_cgroup_actions(m, create_action_seq(b));
            &&& m2.root_exists
            &&& m2.controllers.contains(Controller::Cpu)
            &&& m2.controllers.contains(Controller::Cpuset)
            &&& m2.controllers.contains(Controller::Memory)
            &&& m2.controllers.contains(Controller::Pids)
            &&& m2.groups.dom().contains(b.name@)
            &&& forall|i: int|
                0 <= i < b.pids@.len() ==> m2.groups[b.name@].procs.contains(#[trigger] b.pids@[i])
            &&& b.cpus is Some ==> m2.groups[b.name@].cpus == b.cpus
            &&& b.max_mem is Some ==> m2.groups[b.name@].memory_max == b.max_mem
            &&& b.max_pids is Some ==> m2.groups[b.name@].pids_max == b.max_pids
        }),
{
    let head = seq![
        CgroupAction::EnsureRoot,
        CgroupAction::EnableController(Controller::Cpu),
        CgroupAction::EnableController(Controller::Cpuset),
        CgroupAction::EnableController(Controller::Memory),
        CgroupAction::EnableController(Controller::Pids),
        CgroupAction::CreateGroupDir { name: b.name },
    ];
    let attach = b.pids@.map_values(|p: u32| CgroupAction::AttachPid { name: b.name, pid: p });
    let tail_cpus: Seq<CgroupAction> = if b.cpus is Some {
        seq![CgroupAction::SetCpus { name: b.name, cpus: b.cpus->0 }]
    } else {
        Seq::empty()
    };
    let tail_mem: Seq<CgroupAction> = if b.max_mem is Some {
        seq![CgroupAction::SetMemoryMax { name: b.name, bytes: b.max_mem->0 }]
    } else {
        Seq::empty()
    };
    let tail_pids: Seq<CgroupAction> = if b.max_pids is Some {
        seq![CgroupAction::SetPidsMax { name: b.name, pids: b.max_pids->0 }]
    } else {
        Seq::empty()
    };
    assert(create_action_seq(b) =~= head + attach + tail_cpus + tail_mem + tail_pids);
    lemma_apply_append(m, head + attach + tail_cpus + tail_mem, tail_pids);
    lemma_apply_append(m, head + attach + tail_cpus, tail_mem);
    lemma_apply_append(m, head + attach, tail_cpus);
    lemma_apply_append(m, head, attach);
    let m_head = apply_cgroup_actions(m, head);
    assert(m_head == apply_cgroup_actions(
        apply_cgroup_action(m, CgroupAction::EnsureRoot),
        head.drop_first(),
    ));
    reveal_with_fuel(apply_cgroup_actions, 7);
    assert(m_head.root_exists);
    assert(m_head.groups.dom().contains(b.name@));
    lemma_attach_all(m_head, b.name, b.pids@);
    let m_att = apply_cgroup_actions(m_head, attach);
    assert(forall|i: int|
        0 <= i < b.pids@.len() ==> m_att.groups[b.name@].procs.contains(#[trigger] b.pids@[i]));
}

/// Creating a group and then destroying it leaves no `<root>/<name>`
/// directory behind, whatever the tree held before the pair ran.
pub proof fn lemma_create_then_destroy(m: CgroupModel, b: CgroupV2Builder)
    ensures
        !apply_cgroup_action(
            apply_cgroup_actions(m, create_action_seq(b)),
            CgroupAction::RemoveGroup { name: b.name },
        ).groups.dom().contains(b.name@),
{
}

} // verus!
