use crate::text::same_text;
use vstd::prelude::*;
use vstd::string::StringExecFns;

verus! {

/// The arguments of the standalone installer, which copies the plugin and queues
/// it for the host's next start.
#[derive(Debug)]
pub struct Args {
    /// The plugin's crate name. Must be relative to the working directory.
    pub pkg_name: String,
    /// Build the release profile (debug by default).
    pub release: bool,
    /// Show the help text and stop.
    pub help: bool,
    /// Show the version and stop.
    pub version: bool,
}

/// Why a command line was refused.
#[derive(Debug, Clone, Copy, PartialEq, Eq, Structural)]
pub enum Fault {
    /// An option that takes a value came last.
    MissingValue,
    /// An argument that is no known option.
    Unknown,
    /// A required option was not given.
    MissingRequired,
}

/// A refused command line: the fault, and the argument or option it concerns.
#[derive(Debug)]
pub struct ArgsError {
    pub fault: Fault,
    pub arg: String,
}

/// The options that the parser knows.
#[derive(Debug, Clone, Copy, PartialEq, Eq, Structural)]
pub enum Opt {
    Package,
    Release,
    Help,
    Version,
    Other,
}

/// Which option the argument `a` names.
pub open spec fn opt_of(a: Seq<char>) -> Opt {
    if a == "--package"@ || a == "-p"@ {
        Opt::Package
    } else if a == "--release"@ || a == "-r"@ {
        Opt::Release
    } else if a == "--help"@ || a == "-h"@ {
        Opt::Help
    } else if a == "--version"@ {
        Opt::Version
    } else {
        Opt::Other
    }
}

/// What the arguments from `i` on give, on top of what came before: the package
/// (the last one named wins) and the three switches, or the first fault met.
pub open spec fn scan(
    args: Seq<Seq<char>>,
    i: int,
    pkg: Option<Seq<char>>,
    release: bool,
    help: bool,
    version: bool,
) -> Result<(Option<Seq<char>>, bool, bool, bool), (Fault, Seq<char>)>
    decreases args.len() - i,
{
    if i < 0 || i >= args.len() {
        Ok((pkg, release, help, version))
    } else {
        match opt_of(args[i]) {
            Opt::Package => if i + 1 < args.len() {
                scan(args, i + 2, Some(args[i + 1]), release, help, version)
            } else {
                Err((Fault::MissingValue, args[i]))
            },
            Opt::Release => scan(args, i + 1, pkg, true, help, version),
            Opt::Help => scan(args, i + 1, pkg, release, true, version),
            Opt::Version => scan(args, i + 1, pkg, release, help, true),
            Opt::Other => Err((Fault::Unknown, args[i])),
        }
    }
}

/// The views of a list of arguments.
pub open spec fn views(args: Seq<String>) -> Seq<Seq<char>> {
    args.map_values(|a: String| a@)
}

fn opt_of_arg(a: &str) -> (r: Opt)
    ensures
        r == opt_of(a@),
{
    if same_text(a, "--package") || same_text(a, "-p") {
        Opt::Package
    } else if same_text(a, "--release") || same_text(a, "-r") {
        Opt::Release
    } else if same_text(a, "--help") || same_text(a, "-h") {
        Opt::Help
    } else if same_text(a, "--version") {
        Opt::Version
    } else {
        Opt::Other
    }
}

fn refuse(fault: Fault, arg: &str) -> (r: ArgsError)
    ensures
        r.fault == fault,
        r.arg@ == arg@,
{
    ArgsError { fault, arg: String::from_str(arg) }
}

impl Args {
    /// Reads the command line `args` (without the program name). `--package` (or
    /// `-p`) takes the next argument as the package; `--release`/`-r`,
    /// `--help`/`-h` and `--version` set their switch; anything else is refused,
    /// and so is a command line that names no package.
    pub fn parse(args: Vec<String>) -> (r: Result<Args, ArgsError>)
        ensures
            match scan(views(args@), 0, None, false, false, false) {
                Ok((Some(p), release, help, version)) => {
                    &&& r is Ok
                    &&& r->Ok_0.pkg_name@ == p
                    &&& r->Ok_0.release == release
                    &&& r->Ok_0.help == help
                    &&& r->Ok_0.version == version
                },
                Ok((None, _, _, _)) => {
                    &&& r is Err
                    &&& r->Err_0.fault == Fault::MissingRequired
                    &&& r->Err_0.arg@ == "package"@
                },
                Err((fault, arg)) => {
                    &&& r is Err
                    &&& r->Err_0.fault == fault
                    &&& r->Err_0.arg@ == arg
                },
            },
    {
        let ghost all = views(args@);
        let mut pkg: Option<String> = None;
        let mut release = false;
        let mut help = false;
        let mut version = false;
        let mut i: usize = 0;
        while i < args.len()
            invariant
                all == views(args@),
                i <= args.len(),
                scan(all, 0, None, false, false, false) == scan(
                    all,
                    i as int,
                    match pkg {
                        Some(p) => Some(p@),
                        None => None::<Seq<char>>,
                    },
                    release,
                    help,
                    version,
                ),
            decreases args.len() - i,
        {
            let a = args[i].as_str();
            assert(all[i as int] == a@);
            match opt_of_arg(a) {
                Opt::Package => {
                    if i + 1 < args.len() {
                        assert(all[i + 1] == args@[i + 1]@);
                        pkg = Some(String::from_str(args[i + 1].as_str()));
                        i = i + 2;
                    } else {
                        return Err(refuse(Fault::MissingValue, a));
                    }
                },
                Opt::Release => {
                    release = true;
                    i = i + 1;
                },
                Opt::Help => {
                    help = true;
                    i = i + 1;
                },
                Opt::Version => {
                    version = true;
                    i = i + 1;
                },
                Opt::Other => {
                    return Err(refuse(Fault::Unknown, a));
                },
            }
        }
        match pkg {
            Some(pkg_name) => Ok(Args { pkg_name, release, help, version }),
            None => Err(refuse(Fault::MissingRequired, "package")),
        }
    }
}

} // verus!
