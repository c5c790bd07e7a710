//! The command-line surface: what a given argument vector asks for.
//!
//! The sole argument `-h` or `--help` asks for the usage line and nothing
//! else; the form `-f <filename>` asks for a run whose output is also
//! written to the file; every other argument vector asks for a plain run.
//! The unverified shell reads the process arguments, consults
//! [`parse_args`], and either prints the usage line or drives the pipeline.

use vstd::prelude::*;
use vstd::string::StringExecFns;

verus! {

/// What the command line asks for: the usage line, or a run that writes
/// its output to the given file besides printing it.
#[derive(Debug)]
pub enum CliAction {
    Help,
    Run { file: Option<String> },
}

/// The shape of a [`CliAction`].
pub enum CliActionV {
    Help,
    Run { file: Option<Seq<char>> },
}

impl View for CliAction {
    type V = CliActionV;

    open spec fn view(&self) -> CliActionV {
        match self {
            CliAction::Help => CliActionV::Help,
            CliAction::Run { file } => CliActionV::Run {
                file: match file {
                    Option::None => None,
                    Option::Some(f) => Some(f@),
                },
            },
        }
    }
}

/// The action an argument vector asks for. The first argument is the
/// program's own name and carries no meaning.
pub open spec fn parse_args_v(args: Seq<Seq<char>>) -> CliActionV {
    if args.len() == 2 && (args[1] == "-h"@ || args[1] == "--help"@) {
        CliActionV::Help
    } else if args.len() == 3 && args[1] == "-f"@ {
        CliActionV::Run { file: Some(args[2]) }
    } else {
        CliActionV::Run { file: None }
    }
}

/// Reads the action the process arguments ask for.
pub fn parse_args(args: &Vec<String>) -> (r: CliAction)
    ensures
        r@ == parse_args_v(args@.map_values(|s: String| s@)),
{
    if args.len() == 2 {
        let help_short = String::from_str("-h");
        let help_long = String::from_str("--help");
        if args[1] == help_short || args[1] == help_long {
            return CliAction::Help;
        }
    }
    if args.len() == 3 {
        let file_flag = String::from_str("-f");
        if args[1] == file_flag {
            return CliAction::Run { file: Some(args[2].clone()) };
        }
    }
    CliAction::Run { file: None }
}

/// The one usage line printed for `-h`/`--help`.
pub fn usage_line() -> (r: &'static str)
    ensures
        r@ == "Usage: glinfo [-f filename]"@,
{
    "Usage: glinfo [-f filename]"
}

/// Help is asked for exactly when the sole argument is `-h` or `--help`,
/// and then no run and no file write is asked for.
pub proof fn lemma_help_action(args: Seq<Seq<char>>)
    ensures
        parse_args_v(args) is Help <==> args.len() == 2 && (args[1] == "-h"@ || args[1]
            == "--help"@),
{
}

/// A file write is asked for exactly under `-f <filename>`, and then the
/// file asked for is that argument.
pub proof fn lemma_file_action(args: Seq<Seq<char>>)
    ensures
        parse_args_v(args) matches CliActionV::Run { file: Some(f) } ==> args.len() == 3 && args[1]
            == "-f"@ && f == args[2],
        args.len() == 3 && args[1] == "-f"@ ==> parse_args_v(args) == (CliActionV::Run {
            file: Some(args[2]),
        }),
{
}

} // verus!
