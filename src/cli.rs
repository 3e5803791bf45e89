//! The command-line parser: `--name <TEXT>` (required) and `--build`.
use vstd::prelude::*;
use vstd::string::*;

verus! {

/// What a parse failure is, as plain sequences.
pub enum ParseFault {
    MissingRequiredArg { arg: Seq<char> },
    MissingArgumentValue { arg: Seq<char>, expected: Seq<char> },
    BoolArg { arg: Seq<char> },
}

/// Why the argument list was refused.
#[derive(Debug)]
pub enum CliParseError {
    /// A required flag never appeared.
    MissingRequiredArg { arg: String },
    /// A flag that takes a value was not given one.
    MissingArgumentValue { arg: String, expected: String },
    /// A flag that takes no value was given one.
    BoolArg { arg: String },
}

impl View for CliParseError {
    type V = ParseFault;

    open spec fn view(&self) -> ParseFault {
        match self {
            CliParseError::MissingRequiredArg { arg } => ParseFault::MissingRequiredArg { arg: arg@ },
            CliParseError::MissingArgumentValue { arg, expected } => ParseFault::MissingArgumentValue {
                arg: arg@,
                expected: expected@,
            },
            CliParseError::BoolArg { arg } => ParseFault::BoolArg { arg: arg@ },
        }
    }
}

/// The parsed options, as plain values.
pub struct Options {
    pub name: Seq<char>,
    pub build: bool,
}

/// The parsed options: the identifier to embed and whether to build first.
#[derive(Debug)]
pub struct Cli {
    pub name: String,
    pub build: bool,
}

impl View for Cli {
    type V = Options;

    open spec fn view(&self) -> Options {
        Options { name: self.name@, build: self.build }
    }
}

/// A token that looks like a flag: it begins with a dash.
pub open spec fn is_dash(s: Seq<char>) -> bool {
    s.len() > 0 && s[0] == '-'
}

/// Token `i` is followed by a token that can serve as its value.
pub open spec fn has_value(args: Seq<Seq<char>>, i: int) -> bool {
    i + 1 < args.len() && !is_dash(args[i + 1])
}

/// The failure for `--name` given without a value.
pub open spec fn missing_name_value() -> ParseFault {
    ParseFault::MissingArgumentValue { arg: "name"@, expected: "TEXT"@ }
}

/// The options before any token is read.
pub open spec fn no_options() -> Options {
    Options { name: Seq::empty(), build: false }
}

/// What token `i` does to the options read so far.
pub open spec fn scan_token(args: Seq<Seq<char>>, i: int, o: Options) -> Result<Options, ParseFault> {
    if args[i] == "--name"@ {
        if has_value(args, i) {
            Ok(Options { name: args[i + 1], build: o.build })
        } else {
            Err(missing_name_value())
        }
    } else if args[i] == "--build"@ {
        if has_value(args, i) {
            Err(ParseFault::BoolArg { arg: "build"@ })
        } else {
            Ok(Options { name: o.name, build: true })
        }
    } else {
        Ok(o)
    }
}

/// The options after reading the first `n` tokens, or the first fault met.
pub open spec fn scan(args: Seq<Seq<char>>, n: nat) -> Result<Options, ParseFault>
    decreases n,
{
    if n == 0 {
        Ok(no_options())
    } else {
        match scan(args, (n - 1) as nat) {
            Ok(o) => scan_token(args, n - 1, o),
            Err(e) => Err(e),
        }
    }
}

/// The result of parsing a whole argument list (program name included).
pub open spec fn parse_args(args: Seq<Seq<char>>) -> Result<Options, ParseFault> {
    match scan(args, args.len()) {
        Ok(o) => if o.name.len() == 0 {
            Err(ParseFault::MissingRequiredArg { arg: "name"@ })
        } else {
            Ok(o)
        },
        Err(e) => Err(e),
    }
}

/// A fault met while scanning stays the result for every longer prefix.
pub proof fn lemma_scan_fault_stays(args: Seq<Seq<char>>, n: nat, m: nat)
    requires
        n <= m,
        scan(args, n) is Err,
    ensures
        scan(args, m) == scan(args, n),
    decreases m - n,
{
    if n < m {
        lemma_scan_fault_stays(args, n, (m - 1) as nat);
    }
}

/// No `--build` token among the first `n` is followed by a value.
pub open spec fn build_unvalued_before(args: Seq<Seq<char>>, n: int) -> bool {
    forall|j: int| 0 <= j < n && j < args.len() && args[j] == "--build"@ ==> !has_value(args, j)
}

/// Without a `--name` token and a valued `--build`, every prefix scans to
/// options whose name is empty.
proof fn lemma_scan_without_name(args: Seq<Seq<char>>, n: nat)
    requires
        n <= args.len(),
        forall|j: int| 0 <= j < args.len() ==> args[j] != "--name"@,
        build_unvalued_before(args, args.len() as int),
    ensures
        scan(args, n) matches Ok(o) && o.name.len() == 0,
    decreases n,
{
    if n > 0 {
        lemma_scan_without_name(args, (n - 1) as nat);
    }
}

/// Without a valued `--build` among the first `n` tokens, scanning them
/// either succeeds or stops at a `--name` lacking its value.
proof fn lemma_scan_only_name_faults(args: Seq<Seq<char>>, n: nat)
    requires
        n <= args.len(),
        build_unvalued_before(args, n as int),
    ensures
        scan(args, n) is Ok || scan(args, n) == Err::<Options, ParseFault>(missing_name_value()),
    decreases n,
{
    if n > 0 {
        lemma_scan_only_name_faults(args, (n - 1) as nat);
    }
}

/// A `--name` with no value after it makes the parse fail for want of that
/// value, unless an earlier `--build` was given a value.
proof fn lemma_name_without_value(args: Seq<Seq<char>>, i: int)
    requires
        0 <= i < args.len(),
        args[i] == "--name"@,
        !has_value(args, i),
        build_unvalued_before(args, i),
    ensures
        parse_args(args) == Err::<Options, ParseFault>(missing_name_value()),
{
    lemma_scan_only_name_faults(args, i as nat);
    assert(scan(args, (i + 1) as nat) == Err::<Options, ParseFault>(missing_name_value()));
    lemma_scan_fault_stays(args, (i + 1) as nat, args.len());
}

/// An argument list without `--name` is refused with the error that names
/// `--name` as required, provided no `--build` in it is given a value.
pub proof fn law_name_is_required(args: Seq<Seq<char>>)
    requires
        forall|j: int| 0 <= j < args.len() ==> args[j] != "--name"@,
        build_unvalued_before(args, args.len() as int),
    ensures
        parse_args(args) == Err::<Options, ParseFault>(
            ParseFault::MissingRequiredArg { arg: "name"@ },
        ),
{
    lemma_scan_without_name(args, args.len());
}

/// An argument list that ends in `--name` is refused with the missing-value
/// error for `--name <TEXT>`, provided no `--build` in it is given a value.
pub proof fn law_trailing_name_lacks_value(args: Seq<Seq<char>>)
    requires
        args.len() > 0,
        args.last() == "--name"@,
        build_unvalued_before(args, args.len() - 1),
    ensures
        parse_args(args) == Err::<Options, ParseFault>(missing_name_value()),
{
    lemma_name_without_value(args, args.len() - 1);
}

/// A `--name` followed by a flag-like token fails exactly as a `--name` with
/// nothing after it: the list parses as its prefix ending at that `--name`,
/// to the missing-value error, provided no earlier `--build` is given a value.
pub proof fn law_dashed_name_value(args: Seq<Seq<char>>, i: int)
    requires
        0 <= i,
        i + 1 < args.len(),
        args[i] == "--name"@,
        is_dash(args[i + 1]),
        build_unvalued_before(args, i),
    ensures
        parse_args(args) == Err::<Options, ParseFault>(missing_name_value()),
        parse_args(args) == parse_args(args.take(i + 1)),
{
    lemma_name_without_value(args, i);
    let pre = args.take(i + 1);
    assert(build_unvalued_before(pre, i)) by {
        assert forall|j: int| 0 <= j < i && j < pre.len() && pre[j] == "--build"@ implies !has_value(
            pre,
            j,
        ) by {
            assert(pre[j] == args[j]);
            assert(pre[j + 1] == args[j + 1]);
        }
    }
    lemma_name_without_value(pre, i);
}

/// The characters of each argument.
pub open spec fn arg_views(args: Seq<String>) -> Seq<Seq<char>> {
    args.map_values(|s: String| s@)
}

/// Whether `s` begins with a dash.
pub fn starts_with_dash(s: &str) -> (r: bool)
    ensures
        r == is_dash(s@),
{
    !s.is_empty() && s.get_char(0) == '-'
}

/// Builds the error for a flag given without its value.
pub fn missing_arg_err(arg: &str, exp: &str) -> (r: CliParseError)
    ensures
        r@ == (ParseFault::MissingArgumentValue { arg: arg@, expected: exp@ }),
{
    CliParseError::MissingArgumentValue { arg: arg.to_owned(), expected: exp.to_owned() }
}

impl Cli {
    /// Parses an argument list whose first entry is the program name.
    /// `--name` must be followed by a token that is not a flag; `--build`
    /// must not be; unknown tokens are ignored; `--name` is required.
    pub fn parse(args: &Vec<String>) -> (r: Result<Cli, CliParseError>)
        ensures
            match r {
                Ok(c) => parse_args(arg_views(args@)) == Ok::<Options, ParseFault>(c@),
                Err(e) => parse_args(arg_views(args@)) == Err::<Options, ParseFault>(e@),
            },
    {
        let ghost v = arg_views(args@);
        let name_flag = "--name".to_owned();
        let build_flag = "--build".to_owned();
        let mut cli = Cli { name: String::new(), build: false };
        let mut i: usize = 0;
        while i < args.len()
            invariant
                i <= args.len(),
                v == arg_views(args@),
                name_flag@ == "--name"@,
                build_flag@ == "--build"@,
                scan(v, i as nat) == Ok::<Options, ParseFault>(cli@),
            decreases args.len() - i,
        {
            let arg = &args[i];
            assert(v[i as int] == arg@);
            assert(i + 1 < args.len() ==> v[i + 1] == args@[i + 1]@);
            assert(scan(v, (i + 1) as nat) == scan_token(v, i as int, cli@));
            proof {
                if scan_token(v, i as int, cli@) is Err {
                    lemma_scan_fault_stays(v, (i + 1) as nat, v.len());
                }
            }
            if *arg == name_flag {
                if i + 1 < args.len() && !starts_with_dash(args[i + 1].as_str()) {
                    cli.name = args[i + 1].clone();
                } else {
                    return Err(missing_arg_err("name", "TEXT"));
                }
            } else if *arg == build_flag {
                if i + 1 < args.len() && !starts_with_dash(args[i + 1].as_str()) {
                    return Err(CliParseError::BoolArg { arg: "build".to_owned() });
                }
                cli.build = true;
            }
            i = i + 1;
        }
        if cli.name.as_str().is_empty() {
            return Err(CliParseError::MissingRequiredArg { arg: "name".to_owned() });
        }
        Ok(cli)
    }
}

} // verus!
