//! The child-process protocol: a command is a program, an ordered argument
//! vector, and an optional working directory. The embedding binary spawns the
//! process; this crate only assembles and interprets such commands.

use vstd::prelude::*;
use crate::errors::Error;
use crate::text::tokenize;
use crate::text::tokenize_spec;

verus! {

/// One child-process invocation, fully resolved.
#[derive(Debug)]
pub struct CommandSpec {
    /// The program to execute.
    pub program: String,
    /// The arguments handed to the program, in order.
    pub args: Vec<String>,
    /// The working directory to run in, if one is prescribed.
    pub cwd: Option<String>,
}

/// Parses one build step into a command: the first whitespace-separated token
/// is the program, the rest are its arguments. A step without tokens is
/// rejected, never silently skipped.
pub fn parse_command(step: &str, cwd: Option<String>) -> (r: Result<CommandSpec, Error>)
    ensures
        tokenize_spec(step@).len() == 0 ==> r matches Err(Error::EmptyCommand),
        tokenize_spec(step@).len() > 0 ==> (r matches Ok(c) && c.program@ == tokenize_spec(
            step@,
        )[0] && c.args.deep_view() == tokenize_spec(step@).skip(1) && c.cwd == cwd),
{
    let mut tokens = tokenize(step);
    if tokens.len() == 0 {
        proof {
            assert(tokenize_spec(step@).len() == 0);
        }
        Err(Error::EmptyCommand)
    } else {
        let program = tokens.remove(0);
        proof {
            assert(tokens.deep_view() =~= tokenize_spec(step@).skip(1));
        }
        Ok(CommandSpec { program, args: tokens, cwd })
    }
}

} // verus!
