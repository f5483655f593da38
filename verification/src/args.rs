//! The command line: one argument, the directory that holds the firmware
//! images.

use vstd::prelude::*;
use vstd::string::StringExecFns;

verus! {

/// What the command line asks for.
#[derive(Debug, PartialEq, Eq)]
pub struct FlasherArgs {
    pub firmware_dir: String,
}

/// The command line does not consist of exactly one argument.
#[derive(Debug, PartialEq, Eq)]
pub struct UsageError {
    /// The name under which the program was called; empty if the command
    /// line does not even give that.
    pub program: String,
}

/// The name under which the program was called: the first word of the
/// command line.
pub open spec fn program_name(args: Seq<String>) -> Seq<char> {
    if args.len() > 0 {
        args[0]@
    } else {
        Seq::empty()
    }
}

/// The line that tells how the program `program` is called.
pub open spec fn usage_text(program: Seq<char>) -> Seq<char> {
    "usage: "@ + program + " firmware_dir"@
}

/// Reads the command line, the program's own name included: it must hold
/// that name and exactly one argument.
pub fn get_args(args: &Vec<String>) -> (r: Result<FlasherArgs, UsageError>)
    ensures
        match r {
            Ok(parsed) => args.len() == 2 && parsed.firmware_dir@ == args[1]@,
            Err(e) => args.len() != 2 && e.program@ == program_name(args@),
        },
{
    if args.len() == 2 {
        Ok(FlasherArgs { firmware_dir: args[1].clone() })
    } else if args.len() > 0 {
        Err(UsageError { program: args[0].clone() })
    } else {
        Err(UsageError { program: String::new() })
    }
}

impl UsageError {
    /// The usage line to show to the caller.
    pub fn message(&self) -> (r: String)
        ensures
            r@ == usage_text(self.program@),
    {
        let mut line = String::from_str("usage: ");
        line.append(self.program.as_str());
        line.append(" firmware_dir");
        line
    }
}

} // verus!
