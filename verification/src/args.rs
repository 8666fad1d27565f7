//! The command-line surface:
//! `mymoulette [-v <workdir>] [-I <rootfs-spec>] <program> [<arg> ...]`.
//!
//! [`parse_arguments`] is specified against [`parse_all`], a step-by-step
//! model of the scan: `-v` and `-I` each mark the next argument as the
//! workdir or the rootfs spec, the first other argument is the program, and
//! everything after it is passed to the program verbatim.
use vstd::prelude::*;

verus! {

/// What the command line asks the runtime to do.
pub struct Arguments {
    /// The program launched inside the sandbox.
    pub binary_name: String,
    /// Its arguments, in order.
    pub binary_args: Vec<String>,
    /// Host directory made available at `/home/student`, if `-v` was given.
    pub workdir: Option<String>,
    /// Local rootfs path or `name:tag` image reference, if `-I` was given.
    pub rootfs: Option<String>,
}

/// The scan state after some prefix of the arguments.
pub struct ParseState {
    /// The program name, once the first plain argument was seen.
    pub binary_name: Option<Seq<char>>,
    /// Plain arguments seen after the program name.
    pub binary_args: Seq<Seq<char>>,
    /// The argument that followed a `-v`.
    pub workdir: Option<Seq<char>>,
    /// The argument that followed a `-I`.
    pub rootfs: Option<Seq<char>>,
    /// A `-v` was seen and its value has not arrived yet.
    pub expecting_workdir: bool,
    /// A `-I` was seen and its value has not arrived yet.
    pub expecting_rootfs: bool,
}

/// The state before any argument is read.
pub open spec fn initial_parse_state() -> ParseState {
    ParseState {
        binary_name: None,
        binary_args: Seq::empty(),
        workdir: None,
        rootfs: None,
        expecting_workdir: false,
        expecting_rootfs: false,
    }
}

/// How one argument advances the scan.  A flag always acts as a flag, even
/// where a flag's value was expected; a pending `-v` takes the value before
/// a pending `-I`; and only then does the argument count as the program
/// name or one of its arguments.
pub open spec fn parse_step(st: ParseState, item: Seq<char>) -> ParseState {
    if item == "-v"@ {
        ParseState { expecting_workdir: true, ..st }
    } else if item == "-I"@ {
        ParseState { expecting_rootfs: true, ..st }
    } else if st.expecting_workdir {
        ParseState { expecting_workdir: false, workdir: Some(item), ..st }
    } else if st.expecting_rootfs {
        ParseState { expecting_rootfs: false, rootfs: Some(item), ..st }
    } else if st.binary_name is Some {
        ParseState { binary_args: st.binary_args.push(item), ..st }
    } else {
        ParseState { binary_name: Some(item), ..st }
    }
}

/// Folds [`parse_step`] over the arguments, first one first.
pub open spec fn parse_all(st: ParseState, items: Seq<Seq<char>>) -> ParseState
    decreases items.len(),
{
    if items.len() == 0 {
        st
    } else {
        parse_all(parse_step(st, items[0]), items.drop_first())
    }
}

/// Extending the scanned prefix by one argument applies one more step.
proof fn lemma_parse_all_snoc(st: ParseState, items: Seq<Seq<char>>, k: int)
    requires
        0 <= k < items.len(),
    ensures
        parse_all(st, items.take(k + 1)) == parse_step(parse_all(st, items.take(k)), items[k]),
    decreases k,
{
    let pre = items.take(k);
    let cur = items.take(k + 1);
    if k == 0 {
        assert(cur.drop_first() =~= Seq::<Seq<char>>::empty());
        assert(cur[0] == items[0]);
        assert(parse_all(st, cur) == parse_all(parse_step(st, items[0]), cur.drop_first()));
        assert(pre =~= Seq::<Seq<char>>::empty());
    } else {
        let st1 = parse_step(st, items[0]);
        let rest = items.drop_first();
        lemma_parse_all_snoc(st1, rest, k - 1);
        assert(cur.drop_first() =~= rest.take(k));
        assert(pre.drop_first() =~= rest.take(k - 1));
        assert(cur[0] == items[0]);
        assert(pre[0] == items[0]);
        assert(parse_all(st, cur) == parse_all(st1, rest.take(k)));
        assert(parse_all(st, pre) == parse_all(st1, rest.take(k - 1)));
        assert(rest[k - 1] == items[k]);
    }
}

/// The scan state that the whole command line leaves, not counting the
/// leading program-image name.
pub open spec fn parsed(args: Seq<Seq<char>>) -> ParseState
    recommends
        args.len() >= 1,
{
    parse_all(initial_parse_state(), args.drop_first())
}

/// Parses the command line (`args[0]` is the runtime's own name and is
/// skipped).  Returns `None` exactly when no program name was given; the
/// caller then shows the usage text and exits non-zero.
pub fn parse_arguments(args: &Vec<String>) -> (r: Option<Arguments>)
    requires
        args@.len() >= 1,
    ensures
        ({
            let st = parsed(args@.map_values(|s: String| s@));
            match r {
                Some(a) => {
                    &&& st.binary_name == Some(a.binary_name@)
                    &&& a.binary_args@.map_values(|s: String| s@) == st.binary_args
                    &&& (a.workdir is Some <==> st.workdir is Some)
                    &&& a.workdir is Some ==> st.workdir == Some(a.workdir->0@)
                    &&& (a.rootfs is Some <==> st.rootfs is Some)
                    &&& a.rootfs is Some ==> st.rootfs == Some(a.rootfs->0@)
                },
                None => st.binary_name is None,
            }
        }),
{
    let ghost items = args@.map_values(|s: String| s@).drop_first();
    let flag_workdir = String::from_str("-v");
    let flag_rootfs = String::from_str("-I");
    let mut binary_name: Option<String> = None;
    let mut binary_args: Vec<String> = Vec::new();
    let mut workdir: Option<String> = None;
    let mut rootfs: Option<String> = None;
    let mut expecting_workdir: bool = false;
    let mut expecting_rootfs: bool = false;
    let mut i: usize = 1;
    while i < args.len()
        invariant
            1 <= i <= args@.len(),
            items == args@.map_values(|s: String| s@).drop_first(),
            flag_workdir@ == "-v"@,
            flag_rootfs@ == "-I"@,
            ({
                let st = parse_all(initial_parse_state(), items.take(i - 1));
                &&& (binary_name is Some <==> st.binary_name is Some)
                &&& binary_name is Some ==> st.binary_name == Some(binary_name->0@)
                &&& binary_args@.map_values(|s: String| s@) == st.binary_args
                &&& (workdir is Some <==> st.workdir is Some)
                &&& workdir is Some ==> st.workdir == Some(workdir->0@)
                &&& (rootfs is Some <==> st.rootfs is Some)
                &&& rootfs is Some ==> st.rootfs == Some(rootfs->0@)
                &&& expecting_workdir == st.expecting_workdir
                &&& expecting_rootfs == st.expecting_rootfs
            }),
        decreases args@.len() - i,
    {
        proof {
            assert(items.take(0) =~= Seq::<Seq<char>>::empty());
            lemma_parse_all_snoc(initial_parse_state(), items, i - 1);
            assert(items[i - 1] == args@.map_values(|s: String| s@)[i as int]);
        }
        let item = &args[i];
        if *item == flag_workdir {
            expecting_workdir = true;
        } else if *item == flag_rootfs {
            expecting_rootfs = true;
        } else if expecting_workdir {
            expecting_workdir = false;
            workdir = Some(item.clone());
        } else if expecting_rootfs {
            expecting_rootfs = false;
            rootfs = Some(item.clone());
        } else if binary_name.is_some() {
            binary_args.push(item.clone());
            proof {
                let st = parse_all(initial_parse_state(), items.take(i - 1));
                assert(binary_args@.map_values(|s: String| s@) =~= st.binary_args.push(
                    items[i - 1],
                ));
            }
        } else {
            binary_name = Some(item.clone());
        }
        i = i + 1;
    }
    proof {
        assert(items.take(i - 1) =~= items);
        assert(items.take(0) =~= Seq::<Seq<char>>::empty());
    }
    match binary_name {
        Some(name) => Some(
            Arguments { binary_name: name, binary_args, workdir, rootfs },
        ),
        None => None,
    }
}

} // verus!
