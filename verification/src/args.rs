use vstd::prelude::*;
use vstd::string::StringExecFns;

verus! {

/// The run modes and configuration path taken from the command line.
#[derive(Debug)]
pub struct Args {
    pub config: String,
    pub dry_run: bool,
    pub verbose: bool,
}

/// Whether `a` spells exactly `lit`.
fn str_is(a: &String, lit: &str) -> (r: bool)
    ensures
        r == (a@ == lit@),
{
    let s = lit.to_owned();
    *a == s
}

/// The result of folding the options from position `i` on into the settings
/// accumulated so far, or `None` on a malformed tail: an unrecognized
/// argument, or a configuration flag with no value after it.
pub open spec fn parse_opts(s: Seq<Seq<char>>, i: int, config: Seq<char>, dry_run: bool, verbose: bool) -> Option<(Seq<char>, bool, bool)>
    recommends
        0 <= i,
    decreases s.len() - i,
{
    if i >= s.len() {
        Some((config, dry_run, verbose))
    } else if s[i] == "-c"@ || s[i] == "--config"@ {
        if i + 1 < s.len() {
            parse_opts(s, i + 2, s[i + 1], dry_run, verbose)
        } else {
            None
        }
    } else if s[i] == "-d"@ || s[i] == "--dry-run"@ {
        parse_opts(s, i + 1, config, true, verbose)
    } else if s[i] == "-v"@ || s[i] == "--verbose"@ {
        parse_opts(s, i + 1, config, dry_run, true)
    } else {
        None
    }
}

/// What a command line denotes: the settings, or nothing where the line is
/// empty or malformed. The leading element is the program name and carries
/// no information; the configuration path defaults to "config.toml".
pub open spec fn parsed_args(s: Seq<Seq<char>>) -> Option<(Seq<char>, bool, bool)> {
    if s.len() == 0 {
        None
    } else {
        parse_opts(s, 1, "config.toml"@, false, false)
    }
}

impl Args {
    /// Parses a command line, program name first. Accepts `-c`/`--config`
    /// with a following path, `-d`/`--dry-run` and `-v`/`--verbose`, in any
    /// order; the configuration path defaults to "config.toml". Fails
    /// exactly on the lines that denote no settings.
    pub fn parse_from(line: &Vec<String>) -> (r: Result<Args, String>)
        ensures
            parsed_args(line.deep_view()) matches Some(m)
                ==> (r matches Ok(a) && a.config@ == m.0 && a.dry_run == m.1 && a.verbose == m.2),
            parsed_args(line.deep_view()) is None ==> (r is Err),
    {
        if line.len() == 0 {
            return Err("missing program name".to_owned());
        }
        let mut config = "config.toml".to_owned();
        let mut dry_run = false;
        let mut verbose = false;
        let mut i: usize = 1;
        while i < line.len()
            invariant
                1 <= i <= line@.len(),
                line.deep_view().len() == line@.len(),
                parsed_args(line.deep_view()) == parse_opts(line.deep_view(), i as int, config@, dry_run, verbose),
            decreases line@.len() - i,
        {
            let arg = &line[i];
            if str_is(arg, "-c") || str_is(arg, "--config") {
                if i + 1 < line.len() {
                    config = line[i + 1].clone();
                    i = i + 2;
                } else {
                    return Err("missing value for the configuration flag".to_owned());
                }
            } else if str_is(arg, "-d") || str_is(arg, "--dry-run") {
                dry_run = true;
                i = i + 1;
            } else if str_is(arg, "-v") || str_is(arg, "--verbose") {
                verbose = true;
                i = i + 1;
            } else {
                return Err("unrecognized argument".to_owned());
            }
        }
        Ok(Args { config, dry_run, verbose })
    }
}

} // verus!
