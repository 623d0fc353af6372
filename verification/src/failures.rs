//! The crate's own error value for conditions that are neither expected
//! business outcomes nor transport failures.

use vstd::prelude::*;
use vstd::string::StringExecFns;

verus! {

/// A failure with a human-readable description.
#[derive(Debug)]
pub struct CustomError {
    /// What went wrong, in words.
    pub desc: String,
}

impl CustomError {
    /// A failure described by `desc`.
    pub fn new(desc: &str) -> (r: CustomError)
        ensures
            r.desc@ == desc@,
    {
        CustomError { desc: desc.to_owned() }
    }

    /// The description this failure was created with.
    pub fn description(&self) -> (r: &str)
        ensures
            r@ == self.desc@,
    {
        self.desc.as_str()
    }

    /// The failure's display form: exactly "Failure: " followed by the
    /// description.
    pub fn render(&self) -> (r: String)
        ensures
            r@ == "Failure: "@ + self.desc@,
    {
        String::from_str("Failure: ").concat(self.desc.as_str())
    }
}

} // verus!
