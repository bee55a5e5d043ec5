//! Where the methods of a `console.Console` built by a script write.
use vstd::prelude::*;

verus! {

/// Destination of `log` or `error`.
#[derive(Clone, Copy, Debug, PartialEq, Eq, Structural)]
pub enum Output {
    /// The process's standard output or standard error.
    Default,
    /// The write stream passed as the constructor argument at this index.
    FsWriteStream(usize),
}

/// Destinations of a console's `log` and `error`.
#[derive(Clone, Copy, Debug, PartialEq, Eq, Structural)]
pub struct ConsoleLayout {
    pub stdout: Output,
    pub stderr: Output,
}

#[derive(Clone, Copy, Debug, PartialEq, Eq, Structural)]
pub enum ConsoleError {
    /// An argument that should be a write stream is not one.
    UnexpectedArgument,
}

/// `new console.Console(stdout[, stderr[, ignoreErrors]])`:
/// `arg_is_stream[i]` tells whether constructor argument `i` is a write
/// stream. With one argument, `log` goes to it and `error` to standard error;
/// with two or three, `log` goes to the first and `error` to the second; with
/// none, or more than three, both keep their defaults. A used argument that is
/// not a stream is refused.
pub fn new_console(arg_is_stream: &Vec<bool>) -> (r: Result<ConsoleLayout, ConsoleError>)
    ensures
        arg_is_stream@.len() == 1 ==> r == if arg_is_stream@[0] {
            Ok(ConsoleLayout { stdout: Output::FsWriteStream(0), stderr: Output::Default })
        } else {
            Err(ConsoleError::UnexpectedArgument)
        },
        arg_is_stream@.len() == 2 || arg_is_stream@.len() == 3 ==> r == if arg_is_stream@[0]
            && arg_is_stream@[1] {
            Ok(
                ConsoleLayout {
                    stdout: Output::FsWriteStream(0),
                    stderr: Output::FsWriteStream(1),
                },
            )
        } else {
            Err(ConsoleError::UnexpectedArgument)
        },
        arg_is_stream@.len() == 0 || arg_is_stream@.len() > 3 ==> r == Ok::<
            ConsoleLayout,
            ConsoleError,
        >(ConsoleLayout { stdout: Output::Default, stderr: Output::Default }),
{
    let n = arg_is_stream.len();
    if n == 1 {
        if arg_is_stream[0] {
            Ok(ConsoleLayout { stdout: Output::FsWriteStream(0), stderr: Output::Default })
        } else {
            Err(ConsoleError::UnexpectedArgument)
        }
    } else if n == 2 || n == 3 {
        if arg_is_stream[0] && arg_is_stream[1] {
            Ok(
                ConsoleLayout {
                    stdout: Output::FsWriteStream(0),
                    stderr: Output::FsWriteStream(1),
                },
            )
        } else {
            Err(ConsoleError::UnexpectedArgument)
        }
    } else {
        Ok(ConsoleLayout { stdout: Output::Default, stderr: Output::Default })
    }
}

} // verus!
