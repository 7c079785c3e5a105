use vstd::prelude::*;

verus! {

/// Why an upload response could not be assembled: the first mandatory field
/// that is still missing.
#[derive(Debug, Clone, Copy, PartialEq, Eq, Structural)]
pub enum BuildError {
    MissingBucket,
    MissingKey,
    MissingETag,
    /// A multipart upload's response lacks its session identifier.
    MissingUploadId,
    /// The response names another session than the upload's.
    UploadIdMismatch,
}

/// Everything that can stop one upload.
#[derive(Debug, PartialEq, Eq)]
pub enum UploadError {
    /// A call to the storage service failed; the text is the client's.
    Service(String),
    /// The session identifier was set a second time.
    UploadIdAlreadySet,
    /// A part was scheduled before the session identifier was known.
    MissingUploadId,
    /// The handle no longer takes this operation: it is joining, aborting or done.
    HandleClosed,
    /// A task reported a part that was never scheduled, or reported it twice.
    UnexpectedPart(u32),
    /// Every task ended but this part has no integrity tag.
    MissingPart(u32),
    /// The number of parts no longer fits a part number.
    TooManyParts,
    /// Parts cannot be of size zero.
    InvalidPartSize,
    /// Finalization succeeded but no response builder was ever set.
    MissingResponse,
    /// The response builder lacked a mandatory field after finalization.
    InvalidResponse(BuildError),
    /// The multipart upload failed with the boxed cause before it was
    /// finalized. Its remote session (identifier given, if known) was not
    /// released: the parts it holds are still stored by the service.
    UploadFailed(Box<UploadError>, Option<String>),
    /// Uploads without a multipart session are not supported.
    SingleShotUnsupported,
    /// The upload was aborted, but the remote multipart session was not
    /// released: its parts are still held by the service.
    AbortCleanupNotPerformed(Option<String>),
}

} // verus!
