//! Carriers that hand error values and arbitrary debug-renderable values to
//! the logging front end. Rendering itself happens outside the pipeline; the
//! types here only carry the values.
use vstd::prelude::*;

verus! {

/// `std::io::Error` carried as an opaque value.
#[verifier::external_type_specification]
#[verifier::external_body]
pub struct ExIoError(std::io::Error);

/// Carrier for an I/O error on its way to the logging front end.
pub struct ScoreDebugIoError(pub std::io::Error);

impl From<std::io::Error> for ScoreDebugIoError {
    fn from(err: std::io::Error) -> (r: Self) {
        ScoreDebugIoError(err)
    }
}

impl vstd::std_specs::convert::FromSpecImpl<std::io::Error> for ScoreDebugIoError {
    open spec fn obeys_from_spec() -> bool {
        true
    }

    open spec fn from_spec(err: std::io::Error) -> Self {
        ScoreDebugIoError(err)
    }
}

/// Carrier for any debug-renderable value, rendered outside into a buffer of
/// at most `MAX_LENGTH` bytes.
pub struct ScoreDebugDebug<'a, T: core::fmt::Debug, const MAX_LENGTH: usize>(pub &'a T);

} // verus!
