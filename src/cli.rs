//! Command-line options: `-r` / `--recursive` anywhere before `--`, and the
//! command with its arguments.
use vstd::prelude::*;

verus! {

/// The options of a tracing run.
pub struct Opt {
    /// Trace the children that the command creates, not only the command.
    pub recursive: bool,
    /// The command and its arguments.
    pub cmd: Vec<String>,
}

/// Why the arguments were refused.
#[derive(Clone, Copy, Debug, PartialEq, Eq, Structural)]
pub enum ArgError {
    /// The argument at this index looks like an option and is none.
    UnknownOption(usize),
    /// No command was given.
    MissingCommand,
}

pub open spec fn is_recursive_flag(s: Seq<char>) -> bool {
    s == "-r"@ || s == "--recursive"@
}

pub open spec fn is_options_end(s: Seq<char>) -> bool {
    s == "--"@
}

pub open spec fn looks_like_option(s: Seq<char>) -> bool {
    s.len() > 1 && s[0] == '-'
}

/// Adds an earlier recursive flag and earlier command words to the result of
/// parsing the rest.
pub open spec fn combine(
    recursive: bool,
    words: Seq<Seq<char>>,
    r: Result<(bool, Seq<Seq<char>>), ArgError>,
) -> Result<(bool, Seq<Seq<char>>), ArgError> {
    match r {
        Ok((rec, cmd)) => Ok((rec || recursive, words + cmd)),
        Err(e) => Err(e),
    }
}

/// Scans `args` from index `i`: up to `--`, `-r` and `--recursive` set the
/// recursive option wherever they stand, any other argument that looks
/// like an option is refused, and the rest are command words; after `--`
/// every argument is a command word.
pub open spec fn scan_from(args: Seq<Seq<char>>, i: int) -> Result<(bool, Seq<Seq<char>>), ArgError>
    decreases args.len() - i,
{
    if i < 0 || i >= args.len() {
        Ok((false, Seq::empty()))
    } else if is_options_end(args[i]) {
        Ok((false, args.skip(i + 1)))
    } else if is_recursive_flag(args[i]) {
        combine(true, Seq::empty(), scan_from(args, i + 1))
    } else if looks_like_option(args[i]) {
        Err(ArgError::UnknownOption(i as usize))
    } else {
        combine(false, seq![args[i]], scan_from(args, i + 1))
    }
}

/// The options that `args` give; a parse without command words fails.
pub open spec fn parsed(args: Seq<Seq<char>>) -> Result<(bool, Seq<Seq<char>>), ArgError> {
    match scan_from(args, 0) {
        Ok((rec, cmd)) => if cmd.len() == 0 {
            Err(ArgError::MissingCommand)
        } else {
            Ok((rec, cmd))
        },
        Err(e) => Err(e),
    }
}

pub open spec fn args_view(args: Seq<String>) -> Seq<Seq<char>> {
    args.map_values(|s: String| s@)
}

proof fn lemma_combine_twice(
    r1: bool,
    w1: Seq<Seq<char>>,
    r2: bool,
    w2: Seq<Seq<char>>,
    r: Result<(bool, Seq<Seq<char>>), ArgError>,
)
    ensures
        combine(r1, w1, combine(r2, w2, r)) == combine(r1 || r2, w1 + w2, r),
{
    match r {
        Ok((rec, cmd)) => {
            assert(w1 + (w2 + cmd) =~= (w1 + w2) + cmd);
        },
        Err(_) => {},
    }
}

/// Appends clones of the arguments from index `i` on.
fn append_from(out: &mut Vec<String>, args: &Vec<String>, i: usize)
    requires
        i <= args@.len(),
    ensures
        args_view(final(out)@) == args_view(old(out)@) + args_view(args@).skip(i as int),
{
    let ghost start = old(out)@;
    let mut k: usize = i;
    while k < args.len()
        invariant
            i <= k <= args@.len(),
            out@.len() == start.len() + (k - i),
            forall|j: int| 0 <= j < start.len() ==> #[trigger] out@[j]@ == start[j]@,
            forall|j: int| 0 <= j < k - i ==> #[trigger] out@[start.len() + j]@ == args@[i + j]@,
        decreases args@.len() - k,
    {
        let s = args[k].clone();
        assert(s@ == args@[k as int]@);
        out.push(s);
        k += 1;
    }
    assert forall|j: int| start.len() <= j < out@.len() implies out@[j]@ == args@[i + (j - start.len())]@ by {
        assert(out@[start.len() + (j - start.len())]@ == args@[i + (j - start.len())]@);
    }
    assert(args_view(out@) =~= args_view(start) + args_view(args@).skip(i as int));
}

/// Parses the arguments that follow the program name.
pub fn parse_args(args: &Vec<String>) -> (r: Result<Opt, ArgError>)
    ensures
        match r {
            Ok(opt) => parsed(args_view(args@)) == Ok::<(bool, Seq<Seq<char>>), ArgError>(
                (opt.recursive, args_view(opt.cmd@)),
            ),
            Err(e) => parsed(args_view(args@)) == Err::<(bool, Seq<Seq<char>>), ArgError>(e),
        },
{
    let ghost view = args_view(args@);
    let short = String::from_str("-r");
    let long = String::from_str("--recursive");
    let end = String::from_str("--");
    let mut recursive = false;
    let mut cmd: Vec<String> = Vec::new();
    let mut i: usize = 0;
    let mut ended = false;
    while i < args.len() && !ended
        invariant
            view == args_view(args@),
            short@ == "-r"@,
            long@ == "--recursive"@,
            end@ == "--"@,
            i <= args@.len(),
            ended ==> scan_from(view, 0) == Ok::<(bool, Seq<Seq<char>>), ArgError>(
                (recursive, args_view(cmd@)),
            ),
            !ended ==> scan_from(view, 0) == combine(recursive, args_view(cmd@), scan_from(view, i as int)),
        decreases args@.len() - i + (if ended { 0int } else { 1int }),
    {
        let a = &args[i];
        assert(a@ == view[i as int]);
        if *a == end {
            let ghost before = args_view(cmd@);
            append_from(&mut cmd, args, i + 1);
            assert(args_view(cmd@) == before + view.skip(i + 1));
            ended = true;
        } else if *a == short || *a == long {
            proof {
                lemma_combine_twice(recursive, args_view(cmd@), true, Seq::empty(), scan_from(view, i + 1));
                assert(args_view(cmd@) + Seq::<Seq<char>>::empty() =~= args_view(cmd@));
            }
            recursive = true;
            i += 1;
        } else {
            let n = a.as_str().unicode_len();
            if n > 1 && a.as_str().get_char(0) == '-' {
                return Err(ArgError::UnknownOption(i));
            }
            proof {
                lemma_combine_twice(recursive, args_view(cmd@), false, seq![view[i as int]], scan_from(view, i + 1));
            }
            let ghost before = args_view(cmd@);
            let s = a.clone();
            cmd.push(s);
            assert(args_view(cmd@) =~= before + seq![view[i as int]]);
            i += 1;
        }
    }
    if !ended {
        assert(args_view(cmd@) + Seq::<Seq<char>>::empty() =~= args_view(cmd@));
    }
    if cmd.len() == 0 {
        return Err(ArgError::MissingCommand);
    }
    Ok(Opt { recursive, cmd })
}

} // verus!
