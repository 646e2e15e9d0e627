//! Errors the probe reports: bad arguments, a failed frame comparison, or a
//! failure to reach a value the probe needed.

use vstd::prelude::*;

verus! {

/// An error of the probe. Each variant carries the detail that its
/// [`message`](PlutoError::message) reports after a fixed prefix.
#[derive(Debug)]
pub enum PlutoError {
    /// The command-line arguments were unusable.
    ArgsError(&'static str),
    /// Two frames could not be compared.
    CmpError(&'static str),
    /// A value the probe needed could not be obtained.
    CommonError(String),
}

/// The message a [`PlutoError`] reports: a fixed prefix per variant, then the
/// detail the variant carries.
pub open spec fn spec_error_message(e: PlutoError) -> Seq<char> {
    match e {
        PlutoError::ArgsError(s) => "wrong arguments "@ + s@,
        PlutoError::CmpError(s) => "failed compare frames "@ + s@,
        PlutoError::CommonError(s) => "failed to get target value "@ + s@,
    }
}

impl PlutoError {
    /// The human-readable description of the error.
    pub fn message(&self) -> (r: String)
        ensures
            r@ == spec_error_message(*self),
    {
        match self {
            PlutoError::ArgsError(s) => {
                let mut m = String::from_str("wrong arguments ");
                m.append(s);
                m
            },
            PlutoError::CmpError(s) => {
                let mut m = String::from_str("failed compare frames ");
                m.append(s);
                m
            },
            PlutoError::CommonError(s) => {
                let mut m = String::from_str("failed to get target value ");
                m.append(s.as_str());
                m
            },
        }
    }
}

} // verus!
