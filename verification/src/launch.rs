//! The command line that starts the ringing program.

use crate::stage::{full_name_of, method_full_name};
use vstd::prelude::*;
use vstd::string::*;

verus! {

/// A program and the arguments it is started with.
#[derive(Debug, PartialEq, Eq)]
pub struct LaunchCommand {
    /// The path of the executable.
    pub program: String,
    /// The arguments, in the order in which they are passed.
    pub args: Vec<String>,
}

/// What a [`LaunchCommand`] says, as plain sequences of characters.
pub struct LaunchModel {
    pub program: Seq<char>,
    pub args: Seq<Seq<char>>,
}

impl View for LaunchCommand {
    type V = LaunchModel;

    open spec fn view(&self) -> LaunchModel {
        LaunchModel { program: self.program@, args: self.args.deep_view() }
    }
}

/// The arguments of the ringing program: the identifier of the tower, then
/// the flag `--method`, then the full name of the method.
pub open spec fn launch_args_of(identifier: Seq<char>, method: Seq<char>, stage: int) -> Seq<
    Seq<char>,
> {
    seq![identifier, "--method"@, full_name_of(method, stage)]
}

/// Builds the argument list for one run of the ringing program.
pub fn launch_args(identifier: &str, method: &str, stage: usize) -> (args: Vec<String>)
    ensures
        args.deep_view() == launch_args_of(identifier@, method@, stage as int),
{
    let mut args: Vec<String> = Vec::new();
    args.push(String::from_str(identifier));
    args.push(String::from_str("--method"));
    args.push(method_full_name(method, stage));
    proof {
        assert(args.deep_view() =~= launch_args_of(identifier@, method@, stage as int));
    }
    args
}

} // verus!
