//! The seccomp syscall policy.
//!
//! A [`Context`] is the policy as data: a default action and a list of
//! per-syscall rules.  [`decision`] gives the policy's meaning, and
//! [`baseline_context`] builds the runtime's policy: allow everything,
//! except a denylist that fails with `EPERM`.  Installing the policy into
//! the kernel is the unverified caller's last step before `exec`; once
//! loaded it binds the task and all its descendants and cannot be removed.
use vstd::prelude::*;

verus! {

/// Why the kernel refused the filter.
#[derive(Debug)]
pub enum SeccompError {
    /// The kernel refused to allocate a filter.
    InitFailed,
    /// The kernel refused to install the filter.
    LoadFailed,
    /// The kernel refused one of the rules.
    RuleAddFailed,
}

/// One rule: the named syscall resolves to `action` instead of the default.
#[derive(Clone, Copy, Debug, PartialEq, Eq, Structural)]
pub struct Rule {
    /// The syscall's number on the native ABI.
    pub syscall: i32,
    /// The filter action, in the kernel's encoding.
    pub action: u32,
}

/// A syscall filter under construction: the default action and the rules
/// added so far, in order.
pub struct Context {
    /// The action for every syscall that no rule names.
    pub default_action: u32,
    /// The rules, in the order they were added.
    pub rules: Vec<Rule>,
}

/// The filter action that lets a syscall proceed, in the kernel's encoding.
pub open spec fn allow_action() -> u32 {
    0x7fff0000u32
}

/// The filter action that makes a syscall fail with `EPERM` (errno 1).
pub open spec fn eperm_action() -> u32 {
    0x00050001u32
}

/// The action value that lets a syscall proceed: `SCMP_ACT_ALLOW` of the
/// seccomp headers.
pub fn scmp_act_allow() -> (r: u32)
    ensures
        r == allow_action(),
{
    0x7fff0000
}

/// The action value that makes a syscall fail with the given errno, kept
/// in the value's low 16 bits: `SCMP_ACT_ERRNO` of the seccomp headers.
pub fn scmp_act_errno(errno: u16) -> (r: u32)
    ensures
        r == 0x00050000u32 + errno,
{
    0x00050000 + errno as u32
}

/// Relies on `syscall_numbers::x86_64::SYS_pivot_root`: 155 on x86-64.
#[verifier::external_body]
pub fn sys_pivot_root() -> (n: i32)
    ensures
        n == 155i32,
{
    syscall_numbers::x86_64::SYS_pivot_root as i32
}

/// Relies on `syscall_numbers::x86_64::SYS_personality`: 135 on x86-64.
#[verifier::external_body]
pub fn sys_personality() -> (n: i32)
    ensures
        n == 135i32,
{
    syscall_numbers::x86_64::SYS_personality as i32
}

/// Relies on `syscall_numbers::x86_64::SYS_nfsservctl`: 180 on x86-64.
#[verifier::external_body]
pub fn sys_nfsservctl() -> (n: i32)
    ensures
        n == 180i32,
{
    syscall_numbers::x86_64::SYS_nfsservctl as i32
}

/// What a rule list decides for `syscall`: the action of the first rule
/// that names it, else the default.
pub open spec fn decision_rules(rules: Seq<Rule>, dflt: u32, syscall: i32) -> u32
    decreases rules.len(),
{
    if rules.len() == 0 {
        dflt
    } else if rules[0].syscall == syscall {
        rules[0].action
    } else {
        decision_rules(rules.drop_first(), dflt, syscall)
    }
}

/// What the filter decides for `syscall`.
pub open spec fn decision(c: Context, syscall: i32) -> u32 {
    decision_rules(c.rules@, c.default_action, syscall)
}

impl Context {
    /// A filter with the given default action and no rules.  Only loading
    /// talks to the kernel, so building the policy cannot fail.
    pub fn new(action: u32) -> (c: Context)
        ensures
            c.default_action == action,
            c.rules@ == Seq::<Rule>::empty(),
    {
        Context { default_action: action, rules: Vec::new() }
    }

    /// Adds one rule: `syscall` resolves to `action`.
    pub fn add_simple_rule(&mut self, syscall: i32, action: u32)
        ensures
            final(self).default_action == old(self).default_action,
            final(self).rules@ == old(self).rules@.push(Rule { syscall, action }),
    {
        self.rules.push(Rule { syscall, action });
    }

    /// Adds one rule with the same action for each syscall in the list, in
    /// order.
    pub fn add_simple_array(&mut self, syscalls: Vec<i32>, action: u32)
        ensures
            final(self).default_action == old(self).default_action,
            final(self).rules@ == old(self).rules@ + syscalls@.map_values(
                |s: i32| Rule { syscall: s, action },
            ),
    {
        let mut i: usize = 0;
        while i < syscalls.len()
            invariant
                i <= syscalls@.len(),
                self.default_action == old(self).default_action,
                self.rules@ == old(self).rules@ + syscalls@.take(i as int).map_values(
                    |s: i32| Rule { syscall: s, action },
                ),
            decreases syscalls@.len() - i,
        {
            let s = syscalls[i];
            self.add_simple_rule(s, action);
            proof {
                assert(syscalls@.take(i + 1 as int).map_values(
                    |s: i32| Rule { syscall: s, action },
                ) =~= syscalls@.take(i as int).map_values(|s: i32| Rule { syscall: s, action }).push(
                    Rule { syscall: syscalls@[i as int], action },
                ));
                assert(old(self).rules@ + syscalls@.take(i + 1 as int).map_values(
                    |s: i32| Rule { syscall: s, action },
                ) =~= (old(self).rules@ + syscalls@.take(i as int).map_values(
                    |s: i32| Rule { syscall: s, action },
                )).push(Rule { syscall: syscalls@[i as int], action }));
            }
            i = i + 1;
        }
        proof {
            assert(syscalls@.take(syscalls@.len() as int) =~= syscalls@);
        }
    }
}

/// The baseline denylist rules: `nfsservctl`, `personality` and
/// `pivot_root` each fail with `EPERM`.
pub open spec fn baseline_rules() -> Seq<Rule> {
    seq![
        Rule { syscall: 180, action: eperm_action() },
        Rule { syscall: 135, action: eperm_action() },
        Rule { syscall: 155, action: eperm_action() },
    ]
}

/// The runtime's syscall policy: everything is allowed, and the baseline
/// denylist fails with `EPERM`.  `pivot_root` is on the list because the
/// sandbox is done pivoting by the time the policy is installed;
/// `personality` closes ABI-emulation tricks and `nfsservctl` a legacy
/// surface.
pub fn baseline_context() -> (c: Context)
    ensures
        c.default_action == allow_action(),
        c.rules@ == baseline_rules(),
{
    let mut c = Context::new(scmp_act_allow());
    let mut denied: Vec<i32> = Vec::new();
    denied.push(sys_nfsservctl());
    denied.push(sys_personality());
    denied.push(sys_pivot_root());
    let deny = scmp_act_errno(1);
    c.add_simple_array(denied, deny);
    proof {
        assert(c.rules@ =~= baseline_rules());
    }
    c
}

/// The baseline policy denies exactly the denylist: the three denied
/// syscalls resolve to "fail with EPERM", every other syscall to "allow".
pub proof fn lemma_baseline_decision(c: Context, syscall: i32)
    requires
        c.default_action == allow_action(),
        c.rules@ == baseline_rules(),
    ensures
        decision(c, syscall) == if syscall == 180 || syscall == 135 || syscall == 155 {
            eperm_action()
        } else {
            allow_action()
        },
{
    reveal_with_fuel(decision_rules, 4);
    assert(baseline_rules().drop_first() =~= seq![
        Rule { syscall: 135, action: eperm_action() },
        Rule { syscall: 155, action: eperm_action() },
    ]);
    assert(baseline_rules().drop_first().drop_first() =~= seq![
        Rule { syscall: 155, action: eperm_action() },
    ]);
    assert(baseline_rules().drop_first().drop_first().drop_first() =~= Seq::<Rule>::empty());
}

} // verus!
