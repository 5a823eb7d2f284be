//! Configuration of a password prompt.

use vstd::prelude::*;
use vstd::string::StringExecFns;

verus! {

/// Configuration of a prompt whose answer is read without echo.
pub struct Password {
    pub message: String,
}

impl Password {
    /// A fresh prompt with no message.
    pub fn new() -> (r: Password)
        ensures
            r.message@ == Seq::<char>::empty(),
    {
        Password { message: String::new() }
    }

    /// Sets the prompt message.
    pub fn message(self, msg: &str) -> (r: Password)
        ensures
            r.message@ == msg@,
    {
        Password { message: String::from_str(msg) }
    }
}

} // verus!
