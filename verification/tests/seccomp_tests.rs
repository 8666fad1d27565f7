use mymoulette::seccomp::{
    baseline_context, scmp_act_allow, scmp_act_errno, sys_nfsservctl, sys_personality,
    sys_pivot_root, Context, Rule,
};

#[test]
fn kernel_action_values() {
    // the kernel's encodings, straight from the seccomp headers
    assert_eq!(scmp_act_allow(), 0x7fff0000);
    assert_eq!(scmp_act_errno(1), 0x00050001);
}

#[test]
fn denied_syscall_numbers() {
    assert_eq!(sys_pivot_root(), 155);
    assert_eq!(sys_personality(), 135);
    assert_eq!(sys_nfsservctl(), 180);
}

#[test]
fn context_collects_rules() {
    let mut ctx = Context::new(scmp_act_allow());
    assert_eq!(ctx.default_action, 0x7fff0000);
    assert!(ctx.rules.is_empty());
    ctx.add_simple_rule(10, 0x00050001);
    ctx.add_simple_array(vec![20, 30], 0x00050001);
    assert_eq!(ctx.rules.len(), 3);
    assert_eq!(ctx.rules[0], Rule { syscall: 10, action: 0x00050001 });
    assert_eq!(ctx.rules[1], Rule { syscall: 20, action: 0x00050001 });
    assert_eq!(ctx.rules[2], Rule { syscall: 30, action: 0x00050001 });
}

#[test]
fn baseline_denies_exactly_the_denylist() {
    // everything is allowed by default; personality (among others) must
    // come back as "fail with EPERM"
    let ctx = baseline_context();
    assert_eq!(ctx.default_action, 0x7fff0000);
    let eperm = scmp_act_errno(1);
    let denied: Vec<i32> = ctx.rules.iter().map(|r| r.syscall).collect();
    assert_eq!(denied, vec![180, 135, 155]);
    for rule in &ctx.rules {
        assert_eq!(rule.action, eperm);
    }
}
