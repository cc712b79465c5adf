use vstd::prelude::*;

verus! {

/// Status reported by the native component when an output queue holds
/// nothing yet. It is a control-flow signal, not a failure.
pub const NO_ERROR_EMPTY_QUEUE: i32 = -2147475405;

/// Status used when a parameter name or value cannot be handed over as a
/// null-terminated string.
pub const ERROR_BAD_PARAMETER: i32 = -2147479547;

/// Errors surfaced by the session layer and the container reader.
///
/// Every native status is carried verbatim; only the empty-queue sentinel
/// is turned into a non-error result elsewhere.
#[derive(Debug, Clone, Copy, PartialEq, Eq, Structural)]
pub enum Error {
    /// A native status that no stage has classified further.
    Code(i32),
    /// Handle or session initialisation failed.
    Init(i32),
    /// A configuration value was rejected.
    Parameter(i32),
    /// Handing a buffer to the component failed.
    Send(i32),
    /// Fetching output from the component failed.
    Receive(i32),
    /// Malformed container input.
    Format,
    /// A null reference where a live one was needed.
    Null,
}

pub type Result<T> = core::result::Result<T, Error>;

/// Maps a native status: zero is success, anything else is surfaced as is.
pub fn ok(code: i32) -> (r: Result<()>)
    ensures
        code == 0 <==> r is Ok,
        code != 0 ==> r == Err::<(), Error>(Error::Code(code)),
{
    if code == 0 {
        Ok(())
    } else {
        Err(Error::Code(code))
    }
}

} // verus!
