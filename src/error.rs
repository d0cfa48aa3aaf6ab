//! Errors of a single manifest entry and of a whole run.
use vstd::prelude::*;

verus! {

/// Why one manifest entry could not be fetched and stored.
#[derive(Debug, Clone, Copy, PartialEq, Eq, Structural)]
pub enum DownloadError {
    /// The API key is absent or cannot be sent as a header value.
    ConfigurationError,
    /// A request to the catalog or the CDN failed in transport.
    TransportError,
    /// A catalog response could not be decoded.
    DecodeError,
    /// A file id has too few significant digits to derive a fallback URL from.
    InvalidIdentifier,
    /// Validation was due but the catalog listed no MD5 digest.
    MissingHash,
    /// The stored file's MD5 digest differs from the catalog's.
    ValidationFailed,
    /// Creating, writing or reading a local file failed.
    IOError,
}

/// Why a whole run stopped.
#[derive(Debug, Clone, Copy, PartialEq, Eq, Structural)]
pub enum PipelineError {
    /// The pack archive is missing or cannot be unpacked.
    ExtractionError,
    /// The unpacked archive holds no manifest document.
    ManifestNotFound,
    /// The manifest document is not valid.
    ManifestDecodeError,
    /// The directory the entries are fetched into cannot be created.
    DownloadSetupError,
    /// Copying the unpacked tree into the output directory failed.
    MergeError,
}

} // verus!
