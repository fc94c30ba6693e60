use vstd::prelude::*;

verus! {

/// An I/O error, carried through unopened.
#[verifier::external_type_specification]
#[verifier::external_body]
pub struct ExIoError(std::io::Error);

/// A malformed device-path pattern, carried through unopened.
#[verifier::external_type_specification]
#[verifier::external_body]
pub struct ExPatternError(glob::PatternError);

/// A failure while listing the paths that match a pattern, carried through unopened.
#[verifier::external_type_specification]
#[verifier::external_body]
pub struct ExGlobError(glob::GlobError);

/// Why identifying a device failed.
#[derive(Debug)]
pub enum IdentifyError {
    /// The device-path pattern is malformed.
    PatternError(glob::PatternError),
    /// A path could not be listed.
    GlobError(glob::GlobError),
    /// A device could not be opened or registered for readiness.
    AsyncDeviceNew(std::io::Error),
    /// Every source ended before a decision was reached.
    EventStreamEnded,
    /// Reading an event failed.
    ReadEvent(std::io::Error),
}

} // verus!
