use crate::error::UploadError;
use crate::text::{clone_opt, opt_view};
use vstd::prelude::*;

verus! {

/// The caller's request: the object to write and the parameters that are
/// echoed verbatim into the finalization call.
#[derive(Debug, Clone)]
pub struct UploadRequest {
    pub bucket: String,
    pub key: String,
    pub request_payer: Option<String>,
    pub expected_bucket_owner: Option<String>,
    pub sse_customer_algorithm: Option<String>,
    pub sse_customer_key: Option<String>,
    pub sse_customer_key_md5: Option<String>,
}

/// The request parameters as characters.
pub struct RequestView {
    pub bucket: Seq<char>,
    pub key: Seq<char>,
    pub request_payer: Option<Seq<char>>,
    pub expected_bucket_owner: Option<Seq<char>>,
    pub sse_customer_algorithm: Option<Seq<char>>,
    pub sse_customer_key: Option<Seq<char>>,
    pub sse_customer_key_md5: Option<Seq<char>>,
}

impl View for UploadRequest {
    type V = RequestView;

    open spec fn view(&self) -> RequestView {
        RequestView {
            bucket: self.bucket@,
            key: self.key@,
            request_payer: opt_view(self.request_payer),
            expected_bucket_owner: opt_view(self.expected_bucket_owner),
            sse_customer_algorithm: opt_view(self.sse_customer_algorithm),
            sse_customer_key: opt_view(self.sse_customer_key),
            sse_customer_key_md5: opt_view(self.sse_customer_key_md5),
        }
    }
}

impl UploadRequest {
    /// A field-by-field copy.
    pub fn copy(&self) -> (r: UploadRequest)
        ensures
            r@ == self@,
    {
        UploadRequest {
            bucket: self.bucket.clone(),
            key: self.key.clone(),
            request_payer: clone_opt(&self.request_payer),
            expected_bucket_owner: clone_opt(&self.expected_bucket_owner),
            sse_customer_algorithm: clone_opt(&self.sse_customer_algorithm),
            sse_customer_key: clone_opt(&self.sse_customer_key),
            sse_customer_key_md5: clone_opt(&self.sse_customer_key_md5),
        }
    }
}

/// Shared state of one upload: the request, and the remote session
/// identifier once the service has assigned one.
#[derive(Debug)]
pub struct UploadContext {
    request: UploadRequest,
    upload_id: Option<String>,
}

/// A context as values: the request and the session identifier, if set.
pub struct ContextView {
    pub request: RequestView,
    pub session_id: Option<Seq<char>>,
}

impl View for UploadContext {
    type V = ContextView;

    closed spec fn view(&self) -> ContextView {
        ContextView { request: self.request@, session_id: opt_view(self.upload_id) }
    }
}

impl UploadContext {
    /// A context for `request` with no session identifier yet.
    pub fn new(request: UploadRequest) -> (r: Self)
        ensures
            r@.request == request@,
            r@.session_id is None,
    {
        UploadContext { request, upload_id: None }
    }

    /// The request this upload serves.
    pub fn request(&self) -> (r: &UploadRequest)
        ensures
            r@ == self@.request,
    {
        &self.request
    }

    /// Records the session identifier. It can be set once: a second call is
    /// refused and leaves the context as it was.
    pub fn set_upload_id(&mut self, upload_id: String) -> (r: Result<(), UploadError>)
        ensures
            old(self)@.session_id is None ==> {
                &&& r is Ok
                &&& final(self)@ == (ContextView { session_id: Some(upload_id@), ..old(self)@ })
            },
            old(self)@.session_id is Some ==> {
                &&& r == Err::<(), UploadError>(UploadError::UploadIdAlreadySet)
                &&& final(self)@ == old(self)@
            },
    {
        if self.upload_id.is_some() {
            return Err(UploadError::UploadIdAlreadySet);
        }
        self.upload_id = Some(upload_id);
        Ok(())
    }

    /// The session identifier, if one has been set.
    pub fn upload_id(&self) -> (r: Option<&String>)
        ensures
            match r {
                Some(s) => self@.session_id == Some(s@),
                None => self@.session_id is None,
            },
    {
        self.upload_id.as_ref()
    }

    /// Whether this upload runs through a multipart session.
    pub fn is_multipart_upload(&self) -> (r: bool)
        ensures
            r == self@.session_id is Some,
    {
        self.upload_id.is_some()
    }
}

} // verus!
