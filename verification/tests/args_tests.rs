use mymoulette::args::parse_arguments;

fn argv(items: &[&str]) -> Vec<String> {
    items.iter().map(|s| String::from(*s)).collect()
}

#[test]
fn full_command_line() {
    let args = argv(&[
        "mymoulette", "-v", "/tmp/work", "-I", "alpine:latest", "/bin/sh", "-c", "echo",
    ]);
    let parsed = parse_arguments(&args).expect("program name given");
    assert_eq!(parsed.binary_name, "/bin/sh");
    assert_eq!(parsed.binary_args, vec![String::from("-c"), String::from("echo")]);
    assert_eq!(parsed.workdir.as_deref(), Some("/tmp/work"));
    assert_eq!(parsed.rootfs.as_deref(), Some("alpine:latest"));
}

#[test]
fn workdir_mount_invocation() {
    let args = argv(&[
        "mymoulette",
        "-v",
        "/tmp/work",
        "-I",
        "/tmp/rfs",
        "/bin/busybox",
        "cat",
        "/home/student/work/answer.txt",
    ]);
    let parsed = parse_arguments(&args).expect("program name given");
    assert_eq!(parsed.binary_name, "/bin/busybox");
    assert_eq!(
        parsed.binary_args,
        vec![String::from("cat"), String::from("/home/student/work/answer.txt")]
    );
    assert_eq!(parsed.workdir.as_deref(), Some("/tmp/work"));
    assert_eq!(parsed.rootfs.as_deref(), Some("/tmp/rfs"));
}

#[test]
fn program_alone() {
    let parsed = parse_arguments(&argv(&["mymoulette", "prog"])).expect("program name given");
    assert_eq!(parsed.binary_name, "prog");
    assert!(parsed.binary_args.is_empty());
    assert_eq!(parsed.workdir, None);
    assert_eq!(parsed.rootfs, None);
}

#[test]
fn missing_program_yields_nothing() {
    assert!(parse_arguments(&argv(&["mymoulette"])).is_none());
    assert!(parse_arguments(&argv(&["mymoulette", "-v", "/tmp/w"])).is_none());
    assert!(parse_arguments(&argv(&["mymoulette", "-I", "img:tag"])).is_none());
}

#[test]
fn flags_bind_after_the_program_too() {
    // a flag always acts as a flag, wherever it stands
    let parsed =
        parse_arguments(&argv(&["mymoulette", "prog", "-v", "/w", "tail"])).expect("program given");
    assert_eq!(parsed.binary_name, "prog");
    assert_eq!(parsed.workdir.as_deref(), Some("/w"));
    assert_eq!(parsed.binary_args, vec![String::from("tail")]);
}

#[test]
fn flag_value_may_look_like_anything() {
    // whatever follows -I is consumed as the rootfs spec, as long as it
    // is not itself -v or -I
    let parsed = parse_arguments(&argv(&["mymoulette", "-I", "-weird", "prog"]));
    let parsed = parsed.expect("program name given");
    assert_eq!(parsed.binary_name, "prog");
    assert_eq!(parsed.rootfs.as_deref(), Some("-weird"));
    assert_eq!(parsed.binary_args, Vec::<String>::new());
}
