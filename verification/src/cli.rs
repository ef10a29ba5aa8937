//! The binary's command line: `aperture [--config <path>]`.
//!
//! One supported flag, one position: `argv[0]` is the program name,
//! `--config <path>` names a TOML file, `--help` / `-h` asks for usage.

use vstd::prelude::*;
use crate::text::{opt_view, str_eq};

verus! {

/// What a scan of argv found.
#[derive(Debug, Clone, PartialEq, Eq)]
pub enum ArgvScan {
    /// Run, loading the configuration from the path when one was given.
    Config(Option<String>),
    /// Usage was asked for.
    Help,
}

/// The meaning of an argv scan.
pub ghost enum ArgvVerdict {
    Config(Option<Seq<char>>),
    Help,
    Error(Seq<char>),
}

pub open spec fn duplicate_config_text() -> Seq<char> {
    "--config given more than once"@
}

pub open spec fn missing_path_text() -> Seq<char> {
    "--config requires a path argument"@
}

pub open spec fn unrecognised_text(arg: Seq<char>) -> Seq<char> {
    "unrecognised argument: "@ + arg
}

/// Scan `args` from index `i`, with `path` the config path found so far.
pub open spec fn scan_from(args: Seq<Seq<char>>, i: int, path: Option<Seq<char>>) -> ArgvVerdict
    decreases args.len() - i,
{
    if i >= args.len() {
        ArgvVerdict::Config(path)
    } else if args[i] == "--config"@ {
        if i + 1 >= args.len() {
            ArgvVerdict::Error(missing_path_text())
        } else if path is Some {
            ArgvVerdict::Error(duplicate_config_text())
        } else {
            scan_from(args, i + 2, Some(args[i + 1]))
        }
    } else if args[i] == "--help"@ || args[i] == "-h"@ {
        ArgvVerdict::Help
    } else {
        ArgvVerdict::Error(unrecognised_text(args[i]))
    }
}

/// The verdict for a whole argv; `argv[0]` is the program name.
pub open spec fn argv_verdict(args: Seq<Seq<char>>) -> ArgvVerdict {
    scan_from(args, 1, None)
}

/// The text of each argument.
pub open spec fn args_view(argv: Seq<String>) -> Seq<Seq<char>> {
    argv.map_values(|a: String| a@)
}

/// Scan argv for `--config <path>`: `Ok(Config(Some(path)))` when the flag
/// is given with a value, `Ok(Config(None))` when it is absent, `Ok(Help)`
/// when `--help` or `-h` is reached first, and an error for a flag without
/// its value, a repeated flag, or any other argument.
pub fn scan_argv(argv: &[String]) -> (r: Result<ArgvScan, String>)
    ensures
        match r {
            Ok(ArgvScan::Config(p)) => argv_verdict(args_view(argv@)) == ArgvVerdict::Config(
                opt_view(p),
            ),
            Ok(ArgvScan::Help) => argv_verdict(args_view(argv@)) == ArgvVerdict::Help,
            Err(e) => argv_verdict(args_view(argv@)) == ArgvVerdict::Error(e@),
        },
{
    let ghost args = args_view(argv@);
    let mut config_path: Option<String> = None;
    let mut i: usize = 1;
    proof {
        reveal_strlit("--config");
        reveal_strlit("--help");
        reveal_strlit("-h");
    }
    while i < argv.len()
        invariant
            args == args_view(argv@),
            args.len() == argv@.len(),
            1 <= i,
            scan_from(args, i as int, opt_view(config_path)) == argv_verdict(args),
        decreases argv@.len() - i,
    {
        let arg = argv[i].as_str();
        assert(arg@ == args[i as int]);
        if str_eq(arg, "--config") {
            if i + 1 >= argv.len() {
                return Err(String::from_str("--config requires a path argument"));
            }
            if config_path.is_some() {
                return Err(String::from_str("--config given more than once"));
            }
            assert(argv@[i + 1]@ == args[i + 1]);
            config_path = Some(argv[i + 1].clone());
            i = i + 2;
        } else if str_eq(arg, "--help") || str_eq(arg, "-h") {
            return Ok(ArgvScan::Help);
        } else {
            let mut message = String::from_str("unrecognised argument: ");
            message.append(arg);
            return Err(message);
        }
    }
    Ok(ArgvScan::Config(config_path))
}

/// Parse argv for `--config <path>`: `Ok(Some(path))` when the flag is
/// present with a value, `Ok(None)` when absent, and an error when the flag
/// lacks its value, is repeated, or another argument appears. Usage is not
/// a result of this function: argv that asks for it is left to the caller.
pub fn parse_argv(argv: &[String]) -> (r: Result<Option<String>, String>)
    requires
        argv_verdict(args_view(argv@)) != ArgvVerdict::Help,
    ensures
        match r {
            Ok(p) => argv_verdict(args_view(argv@)) == ArgvVerdict::Config(opt_view(p)),
            Err(e) => argv_verdict(args_view(argv@)) == ArgvVerdict::Error(e@),
        },
{
    match scan_argv(argv) {
        Ok(ArgvScan::Config(p)) => Ok(p),
        Ok(ArgvScan::Help) => Err(String::new()),
        Err(e) => Err(e),
    }
}

} // verus!
