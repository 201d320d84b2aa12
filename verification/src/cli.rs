use vstd::prelude::*;
use vstd::string::*;

verus! {

/// The arguments of the command line and the flags found among them.
pub struct Cli {
    pub args: Vec<String>,
    pub debug: bool,
    pub verbose: bool,
    pub nocolor: bool,
}

/// Whether one of `args` is `long` or `short`.
pub open spec fn has_flag(args: Seq<String>, long: &str, short: &str) -> bool {
    exists|i: int| 0 <= i < args.len() && ((#[trigger] args[i])@ == long@ || args[i]@ == short@)
}

/// The position of the first `=` in `s` at or after `from`.
pub open spec fn eq_from(s: Seq<char>, from: int) -> Option<int>
    decreases s.len() - from,
{
    if from < 0 || from >= s.len() {
        None
    } else if s[from] == '=' {
        Some(from)
    } else {
        eq_from(s, from + 1)
    }
}

/// What an argument answers to a key: the text behind its first `=` where
/// the text before it is the key; the argument itself where it has no `=`
/// and is the key; nothing else.
pub open spec fn arg_answer(arg: Seq<char>, searched: Seq<char>) -> Option<Seq<char>> {
    match eq_from(arg, 0) {
        Some(p) => if arg.subrange(0, p) == searched {
            Some(arg.subrange(p + 1, arg.len() as int))
        } else {
            None
        },
        None => if arg == searched {
            Some(arg)
        } else {
            None
        },
    }
}

/// The answer of the first argument from position `from` on that has one.
pub open spec fn args_answer(args: Seq<String>, searched: Seq<char>, from: int) -> Option<Seq<char>>
    decreases args.len() - from,
{
    if from < 0 || from >= args.len() {
        None
    } else if arg_answer(args[from]@, searched) is Some {
        arg_answer(args[from]@, searched)
    } else {
        args_answer(args, searched, from + 1)
    }
}

fn same(a: &str, b: &str) -> (r: bool)
    ensures
        r == (a@ == b@),
{
    a.to_owned() == b.to_owned()
}

fn find_eq(s: &str) -> (r: Option<usize>)
    ensures
        r is Some == eq_from(s@, 0) is Some,
        r is Some ==> r.unwrap() == eq_from(s@, 0).unwrap(),
        r is Some ==> r.unwrap() < s@.len(),
{
    let n = s.unicode_len();
    let mut i: usize = 0;
    while i < n
        invariant
            i <= n,
            n == s@.len(),
            eq_from(s@, 0) == eq_from(s@, i as int),
        decreases n - i,
    {
        if s.get_char(i) == '=' {
            return Some(i);
        }
        i = i + 1;
    }
    None
}

fn answer<'a>(arg: &'a str, searched: &str) -> (r: Option<&'a str>)
    ensures
        r is Some == arg_answer(arg@, searched@) is Some,
        r is Some ==> r.unwrap()@ == arg_answer(arg@, searched@).unwrap(),
{
    match find_eq(arg) {
        Some(p) => {
            let n = arg.unicode_len();
            let key = arg.substring_char(0, p);
            if same(key, searched) {
                Some(arg.substring_char(p + 1, n))
            } else {
                None
            }
        },
        None => if same(arg, searched) {
            Some(arg)
        } else {
            None
        },
    }
}

impl Cli {
    /// Keeps the arguments and notes which of the flags for debugging,
    /// verbosity and plain output are among them.
    pub fn new(args: Vec<String>) -> (r: Self)
        ensures
            r.args == args,
            r.debug == has_flag(args@, "--debug", "-d"),
            r.verbose == has_flag(args@, "--verbose", "-v"),
            r.nocolor == has_flag(args@, "--nocolor", "-n"),
    {
        let mut debug = false;
        let mut verbose = false;
        let mut nocolor = false;
        let mut i: usize = 0;
        while i < args.len()
            invariant
                i <= args@.len(),
                debug == has_flag(args@.subrange(0, i as int), "--debug", "-d"),
                verbose == has_flag(args@.subrange(0, i as int), "--verbose", "-v"),
                nocolor == has_flag(args@.subrange(0, i as int), "--nocolor", "-n"),
            decreases args@.len() - i,
        {
            let arg = args[i].as_str();
            let d = same(arg, "--debug") || same(arg, "-d");
            let v = same(arg, "--verbose") || same(arg, "-v");
            let n = same(arg, "--nocolor") || same(arg, "-n");
            proof {
                lemma_flag_step(args@, i as int, "--debug", "-d");
                lemma_flag_step(args@, i as int, "--verbose", "-v");
                lemma_flag_step(args@, i as int, "--nocolor", "-n");
            }
            debug = debug || d;
            verbose = verbose || v;
            nocolor = nocolor || n;
            i = i + 1;
        }
        assert(args@.subrange(0, args@.len() as int) =~= args@);
        Cli { args, debug, verbose, nocolor }
    }

    /// The answer of the first argument that has one for `searched`.
    pub fn get_arg(&self, searched: &str) -> (r: Option<&str>)
        ensures
            r is Some == args_answer(self.args@, searched@, 0) is Some,
            r is Some ==> r.unwrap()@ == args_answer(self.args@, searched@, 0).unwrap(),
    {
        let mut i: usize = 0;
        while i < self.args.len()
            invariant
                i <= self.args@.len(),
                args_answer(self.args@, searched@, 0) == args_answer(self.args@, searched@, i as int),
            decreases self.args@.len() - i,
        {
            if let Some(v) = answer(self.args[i].as_str(), searched) {
                return Some(v);
            }
            i = i + 1;
        }
        None
    }
}

/// A flag is among the first `i + 1` arguments where it is among the first
/// `i` or is argument `i`.
proof fn lemma_flag_step(args: Seq<String>, i: int, long: &str, short: &str)
    requires
        0 <= i < args.len(),
    ensures
        has_flag(args.subrange(0, i + 1), long, short) == (has_flag(args.subrange(0, i), long, short)
            || args[i]@ == long@ || args[i]@ == short@),
{
    let a = args.subrange(0, i);
    let b = args.subrange(0, i + 1);
    if has_flag(b, long, short) {
        let k = choose|k: int| 0 <= k < b.len() && ((#[trigger] b[k])@ == long@ || b[k]@ == short@);
        if k < i {
            assert(a[k] == b[k]);
        }
    }
    if has_flag(a, long, short) {
        let k = choose|k: int| 0 <= k < a.len() && ((#[trigger] a[k])@ == long@ || a[k]@ == short@);
        assert(b[k] == a[k]);
    }
    if args[i]@ == long@ || args[i]@ == short@ {
        assert(b[i] == args[i]);
    }
}

} // verus!
