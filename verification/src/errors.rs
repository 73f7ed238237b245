use vstd::prelude::*;
use vstd::string::StringExecFns;

verus! {

/// Why an extraction could not produce a plan.
///
/// Filesystem and subprocess failures happen only while a plan is carried
/// out, outside this library; these errors are the decode failures that the
/// planners themselves detect.
#[derive(Clone, Copy, Debug, PartialEq, Eq, Structural)]
pub enum InstallError {
    /// The zip container cannot be opened.
    ZipContainer,
    /// A zip entry failed to decode; zip extraction aborts on the first one.
    ZipEntry,
    /// The gzip stream cannot be decoded at all.
    GzipStream,
}

impl InstallError {
    /// A short description for the surrounding program to display.
    pub fn message(&self) -> (r: String)
        ensures
            self is ZipContainer ==> r@ == "the zip container cannot be opened"@,
            self is ZipEntry ==> r@ == "a zip entry failed to decode"@,
            self is GzipStream ==> r@ == "the gzip stream cannot be decoded"@,
    {
        match self {
            InstallError::ZipContainer => String::from_str("the zip container cannot be opened"),
            InstallError::ZipEntry => String::from_str("a zip entry failed to decode"),
            InstallError::GzipStream => String::from_str("the gzip stream cannot be decoded"),
        }
    }
}

} // verus!
