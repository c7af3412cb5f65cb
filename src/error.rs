use vstd::prelude::*;

verus! {

/// Failures of the graphics context itself.
#[derive(Clone, Copy, PartialEq, Eq, Structural, Debug)]
pub enum GfxErrorKind {
    SurfaceError,
}

/// The errors that the library reports.
#[derive(Clone, Copy, PartialEq, Eq, Structural, Debug)]
pub enum ErrorKind {
    /// A file could not be read.
    IoError,
    /// Image bytes could not be decoded, or do not hold the pixels they claim.
    ImageError,
    /// More quads were queued than a buffer can hold.
    CapacityExceeded,
    Gfx(GfxErrorKind),
}

#[verifier::external_type_specification]
#[verifier::external_body]
pub struct ExIoError(std::io::Error);

impl From<std::io::Error> for ErrorKind {
    fn from(_e: std::io::Error) -> (r: ErrorKind)
        ensures
            r == ErrorKind::IoError,
    {
        ErrorKind::IoError
    }
}

impl vstd::std_specs::convert::FromSpecImpl<std::io::Error> for ErrorKind {
    open spec fn obeys_from_spec() -> bool {
        true
    }

    open spec fn from_spec(v: std::io::Error) -> ErrorKind {
        ErrorKind::IoError
    }
}

} // verus!
