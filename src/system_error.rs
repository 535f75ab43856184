use vstd::prelude::*;
use vstd::string::StringExecFns;

verus! {

/// An error that carries a human-readable description.
#[derive(Debug)]
pub struct SystemError {
    pub details: String,
}

impl SystemError {
    pub fn new(details: &str) -> (r: SystemError)
        ensures
            r.details@ == details@,
    {
        SystemError { details: String::from_str(details) }
    }

    /// The description, as the error reads when shown to a user.
    pub fn to_string(&self) -> (r: String)
        ensures
            r@ == self.details@,
    {
        self.details.clone()
    }
}

} // verus!
