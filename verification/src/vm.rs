use vstd::prelude::*;

use vstd::string::StringExecFns;

verus! {

/// An error of the interpreter: one found while compiling a program, or one
/// found while running it.
pub enum InterpreterError {
    CompileError(String),
    RuntimeError(String),
}

impl InterpreterError {
    /// The error as it is shown to the user.
    pub open spec fn spec_report(&self) -> Seq<char> {
        match self {
            InterpreterError::CompileError(msg) => "Compile error: "@ + msg@,
            InterpreterError::RuntimeError(msg) => "Runtime error: "@ + msg@,
        }
    }

    /// The error as it is shown to the user: `Compile error: ...` or
    /// `Runtime error: ...`.
    pub fn report(&self) -> (r: String)
        ensures
            r@ == self.spec_report(),
    {
        match self {
            InterpreterError::CompileError(msg) => {
                let mut r = String::from_str("Compile error: ");
                r.append(msg.as_str());
                r
            },
            InterpreterError::RuntimeError(msg) => {
                let mut r = String::from_str("Runtime error: ");
                r.append(msg.as_str());
                r
            },
        }
    }
}

} // verus!
