use crate::error::BuildError;
use crate::text::opt_view;
use vstd::prelude::*;

verus! {

/// Response fields as characters, present or not.
pub struct ResponseView {
    pub bucket: Option<Seq<char>>,
    pub key: Option<Seq<char>>,
    pub upload_id: Option<Seq<char>>,
    pub e_tag: Option<Seq<char>>,
    pub expiration: Option<Seq<char>>,
    pub version_id: Option<Seq<char>>,
}

/// What `build` gives for the fields `v`: the first missing mandatory field
/// (bucket, then key, then the session identifier on the multipart path,
/// then integrity tag), or the fields themselves.
pub open spec fn build_spec(v: ResponseView, multipart: bool) -> Result<ResponseView, BuildError> {
    if v.bucket is None {
        Err(BuildError::MissingBucket)
    } else if v.key is None {
        Err(BuildError::MissingKey)
    } else if multipart && v.upload_id is None {
        Err(BuildError::MissingUploadId)
    } else if v.e_tag is None {
        Err(BuildError::MissingETag)
    } else {
        Ok(v)
    }
}

/// The finished response of an upload.
#[derive(Debug, Clone, PartialEq, Eq)]
pub struct UploadResponse {
    pub bucket: String,
    pub key: String,
    pub upload_id: Option<String>,
    pub e_tag: String,
    pub expiration: Option<String>,
    pub version_id: Option<String>,
}

impl View for UploadResponse {
    type V = ResponseView;

    open spec fn view(&self) -> ResponseView {
        ResponseView {
            bucket: Some(self.bucket@),
            key: Some(self.key@),
            upload_id: opt_view(self.upload_id),
            e_tag: Some(self.e_tag@),
            expiration: opt_view(self.expiration),
            version_id: opt_view(self.version_id),
        }
    }
}

/// What a `build` result shows of itself.
pub open spec fn built_view(r: Result<UploadResponse, BuildError>) -> Result<ResponseView, BuildError> {
    match r {
        Ok(resp) => Ok(resp@),
        Err(e) => Err(e),
    }
}

/// Collects response fields as the upload learns them: the object identity
/// and session identifier first, what finalization returns later.
#[derive(Debug, Clone)]
pub struct UploadResponseBuilder {
    pub bucket: Option<String>,
    pub key: Option<String>,
    pub upload_id: Option<String>,
    pub e_tag: Option<String>,
    pub expiration: Option<String>,
    pub version_id: Option<String>,
}

impl View for UploadResponseBuilder {
    type V = ResponseView;

    open spec fn view(&self) -> ResponseView {
        ResponseView {
            bucket: opt_view(self.bucket),
            key: opt_view(self.key),
            upload_id: opt_view(self.upload_id),
            e_tag: opt_view(self.e_tag),
            expiration: opt_view(self.expiration),
            version_id: opt_view(self.version_id),
        }
    }
}

impl UploadResponseBuilder {
    /// A builder with no field set.
    pub fn new() -> (r: Self)
        ensures
            r.bucket is None && r.key is None && r.upload_id is None,
            r.e_tag is None && r.expiration is None && r.version_id is None,
    {
        UploadResponseBuilder {
            bucket: None,
            key: None,
            upload_id: None,
            e_tag: None,
            expiration: None,
            version_id: None,
        }
    }

    /// Sets the fields known once the upload has started.
    pub fn set_initial_fields(
        self,
        bucket: Option<String>,
        key: Option<String>,
        upload_id: Option<String>,
    ) -> (r: Self)
        ensures
            r == (UploadResponseBuilder { bucket, key, upload_id, ..self }),
    {
        UploadResponseBuilder { bucket, key, upload_id, ..self }
    }

    /// Sets the fields that finalization returns.
    pub fn set_final_fields(
        self,
        e_tag: Option<String>,
        expiration: Option<String>,
        version_id: Option<String>,
    ) -> (r: Self)
        ensures
            r == (UploadResponseBuilder { e_tag, expiration, version_id, ..self }),
    {
        UploadResponseBuilder { e_tag, expiration, version_id, ..self }
    }

    /// Sets the integrity tag of the whole object.
    pub fn set_e_tag(self, e_tag: Option<String>) -> (r: Self)
        ensures
            r == (UploadResponseBuilder { e_tag, ..self }),
    {
        UploadResponseBuilder { e_tag, ..self }
    }

    /// Sets the expiration rule that applies to the object.
    pub fn set_expiration(self, expiration: Option<String>) -> (r: Self)
        ensures
            r == (UploadResponseBuilder { expiration, ..self }),
    {
        UploadResponseBuilder { expiration, ..self }
    }

    /// Sets the version identifier of the object.
    pub fn set_version_id(self, version_id: Option<String>) -> (r: Self)
        ensures
            r == (UploadResponseBuilder { version_id, ..self }),
    {
        UploadResponseBuilder { version_id, ..self }
    }

    /// Checks that every mandatory field of the upload's path is present
    /// (the session identifier only where `multipart` holds) and freezes the
    /// fields into a response. The builder is left as it was.
    pub fn build(&self, multipart: bool) -> (r: Result<UploadResponse, BuildError>)
        ensures
            built_view(r) == build_spec(self@, multipart),
    {
        let bucket = match &self.bucket {
            Some(b) => b.clone(),
            None => return Err(BuildError::MissingBucket),
        };
        let key = match &self.key {
            Some(k) => k.clone(),
            None => return Err(BuildError::MissingKey),
        };
        if multipart && self.upload_id.is_none() {
            return Err(BuildError::MissingUploadId);
        }
        let e_tag = match &self.e_tag {
            Some(t) => t.clone(),
            None => return Err(BuildError::MissingETag),
        };
        let r = UploadResponse {
            bucket,
            key,
            upload_id: crate::text::clone_opt(&self.upload_id),
            e_tag,
            expiration: crate::text::clone_opt(&self.expiration),
            version_id: crate::text::clone_opt(&self.version_id),
        };
        assert(r@ == self@);
        Ok(r)
    }
}

/// Building twice from the same fields for the same path, with nothing
/// changed in between, gives equal results; and building fails exactly when
/// a mandatory field of that path is missing, with the same error each time.
pub proof fn build_is_deterministic(
    b: UploadResponseBuilder,
    multipart: bool,
    r1: Result<UploadResponse, BuildError>,
    r2: Result<UploadResponse, BuildError>,
)
    requires
        built_view(r1) == build_spec(b@, multipart),
        built_view(r2) == build_spec(b@, multipart),
    ensures
        built_view(r1) == built_view(r2),
        r1 is Err <==> (b.bucket is None || b.key is None || b.e_tag is None || (multipart
            && b.upload_id is None)),
        r1 is Err ==> r1 == r2,
{
}

} // verus!
