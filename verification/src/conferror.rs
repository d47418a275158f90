//! Configuration errors.

use vstd::prelude::*;

verus! {

/// The standard-library integer parse error, left opaque; it can ride inside
/// [`ConfigErr::Parse`] but nothing in the library looks into it.
#[verifier::external_type_specification]
#[verifier::external_body]
pub struct ExParseIntError(core::num::ParseIntError);

/// An error in the run configuration, surfaced before any file is touched.
#[derive(Debug)]
pub enum ConfigErr {
    /// An argument was empty or out of range (for example a zero dimension).
    EmptyVal,
    /// A numeric argument could not be parsed as an integer.
    Parse(core::num::ParseIntError),
}

impl ConfigErr {
    /// Human-readable description of the error.
    pub fn message(&self) -> (r: &'static str)
        ensures
            *self is EmptyVal ==> r@ == "Empty or invalid Argument"@,
            *self is Parse ==> r@ == "the provided string could not be parsed as int"@,
    {
        match *self {
            ConfigErr::EmptyVal => "Empty or invalid Argument",
            ConfigErr::Parse(..) => "the provided string could not be parsed as int",
        }
    }

    /// The underlying parse error, where there is one: the very error the
    /// [`ConfigErr::Parse`] variant wraps.
    pub fn source(&self) -> (r: Option<&core::num::ParseIntError>)
        ensures
            r is Some <==> *self is Parse,
            *self matches ConfigErr::Parse(err) ==> (r matches Some(p) && *p == err),
    {
        match *self {
            ConfigErr::EmptyVal => None,
            ConfigErr::Parse(ref err) => Some(err),
        }
    }
}

impl From<core::num::ParseIntError> for ConfigErr {
    fn from(error: core::num::ParseIntError) -> (r: Self) {
        ConfigErr::Parse(error)
    }
}

impl vstd::std_specs::convert::FromSpecImpl<core::num::ParseIntError> for ConfigErr {
    open spec fn obeys_from_spec() -> bool {
        true
    }

    open spec fn from_spec(error: core::num::ParseIntError) -> Self {
        ConfigErr::Parse(error)
    }
}

} // verus!
