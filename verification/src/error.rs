use crate::convert::ConversionError;
use vstd::prelude::*;

verus! {

/// What went wrong inside the interpreter.
#[derive(Debug)]
pub enum LuaError {
    /// An error was raised while a script ran or was loaded; a script that
    /// is no program is reported so, in the compiler's words.
    RuntimeError(String),
    /// The interpreter ran out of memory.
    MemoryError(String),
    /// A function that the host gave the interpreter failed, and the script
    /// did not catch the failure. The usual case is the host refusing what
    /// the script asked of it.
    CallbackError {
        /// Where the script was.
        traceback: String,
        /// The failure, in words.
        cause: String,
    },
    /// Any other failure, in the interpreter's own words.
    Other(String),
}

/// Why an invocation produced no reply.
#[derive(Debug)]
pub enum InvokeError {
    /// The actor is not in a stage in which this may be asked of it.
    OutOfPhase,
    /// The message cannot be handed to a script.
    Argument(ConversionError),
    /// The script failed. The actor does not run again.
    Script(LuaError),
    /// What the script returned cannot be read as a message. The actor does
    /// not run again.
    Reply(ConversionError),
    /// No continuation waits under this identifier.
    UnknownContinuation(i64),
}

} // verus!
