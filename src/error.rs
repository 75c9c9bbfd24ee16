use vstd::prelude::*;

verus! {

/// The failures of the frame codec and of the handshake.
#[derive(Debug, Clone, Copy, PartialEq, Eq, Structural)]
pub enum HttpError {
    /// The byte stream failed or ended before the bytes that were asked for.
    IoError,
    /// A frame, or the connection preface, did not have the expected form.
    InvalidFrame,
}

} // verus!
