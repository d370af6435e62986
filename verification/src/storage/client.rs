//! The Cloud Storage client: the request URIs it builds (with
//! percent-encoded path segments) and the mapping of raw responses into
//! typed results.
//!
//! A download is `GET {endpoint}/b/{bucket}/o/{object}?alt=media`; an
//! upload is `POST {upload-endpoint}/b/{bucket}/o?uploadType=media&name=...`
//! with the object bytes as the body.  Each request carries the bearer
//! token of the client's token cache.

use vstd::prelude::*;
use vstd::string::*;
use crate::auth::TokenManager;
use crate::encoding::push_path_segment;
use crate::encoding::push_str_chars;
use crate::encoding::spec_path_seg_enc;
use crate::encoding::string_from_chars;
use crate::error::Error;
use crate::util::spec_bearer;
use crate::util::construct_request;

verus! {

/// The error a Storage call surfaces when the service answers outside the
/// 2xx range.
#[derive(Debug, PartialEq, Eq)]
pub enum CloudStorageError {
    /// A non-success response, with its status code and body.
    ErrorResponse {
        /// The status code received.
        status: u16,
        /// The response body, kept for diagnostics.
        response: String,
    },
}

/// A Cloud Storage client: the token cache for the Storage scopes.  The
/// transport that carries its requests lives outside the library.
pub struct Client {
    /// The token cache this client attaches bearer tokens from.
    pub token_manager: TokenManager,
}

/// The parts of an object download request: the URI, the query pairs, and
/// the `authorization` header value.
pub struct ObjectRequest {
    pub uri: String,
    pub query: Vec<(String, String)>,
    pub authorization: String,
}

/// The parts of an object upload request: the URI, the query pairs, the
/// `authorization` header value, the content headers, and the body.
pub struct CreateObjectRequest {
    pub uri: String,
    pub query: Vec<(String, String)>,
    pub authorization: String,
    pub content_type: String,
    pub content_length: usize,
    pub body: Vec<u8>,
}

/// A Storage URI: the endpoint, then `/b/` and the encoded bucket segment,
/// then, if an object is named, `/o/` and the encoded object segment.
pub open spec fn spec_uri_by_endpoint(
    endpoint: Seq<char>,
    bucket: Seq<u8>,
    object: Option<Seq<u8>>,
) -> Seq<char> {
    let base = endpoint + "/b/"@ + spec_path_seg_enc(bucket);
    match object {
        Some(o) => base + "/o/"@ + spec_path_seg_enc(o),
        None => base,
    }
}

/// Whether a status code counts as success: the 2xx range.
pub open spec fn spec_is_success(status: u16) -> bool {
    200 <= status < 300
}

impl Client {
    /// A Storage client over an already-initialized token cache.
    pub fn new(token_manager: TokenManager) -> (r: Self)
        ensures
            r.token_manager == token_manager,
    {
        Client { token_manager }
    }

    /// The permission scopes a Storage token is minted for.
    pub fn scopes() -> (r: Vec<String>)
        ensures
            r@.len() == 2,
            r@[0]@ == "https://www.googleapis.com/auth/cloud-platform"@,
            r@[1]@ == "https://www.googleapis.com/auth/devstorage.full_control"@,
    {
        let mut r: Vec<String> = Vec::new();
        r.push(String::from_str("https://www.googleapis.com/auth/cloud-platform"));
        r.push(String::from_str("https://www.googleapis.com/auth/devstorage.full_control"));
        r
    }

    /// The URI of an object under the media endpoint, with bucket and
    /// object percent-encoded as single path segments (in particular, a
    /// `/` inside the object name becomes `%2F`).
    pub fn build_uri(bucket: &str, object: Option<&str>) -> (r: String)
        ensures
            r@ == spec_uri_by_endpoint(
                "https://storage.googleapis.com/storage/v1"@,
                bucket.spec_bytes(),
                match object {
                    Some(o) => Some(o.spec_bytes()),
                    None => None,
                },
            ),
    {
        Self::build_uri_by_endpoint("https://storage.googleapis.com/storage/v1", bucket, object)
    }

    /// The URI of an object under the upload endpoint.
    pub fn build_upload_uri(bucket: &str, object: Option<&str>) -> (r: String)
        ensures
            r@ == spec_uri_by_endpoint(
                "https://storage.googleapis.com/upload/storage/v1"@,
                bucket.spec_bytes(),
                match object {
                    Some(o) => Some(o.spec_bytes()),
                    None => None,
                },
            ),
    {
        Self::build_uri_by_endpoint(
            "https://storage.googleapis.com/upload/storage/v1",
            bucket,
            object,
        )
    }

    /// A Storage URI against an arbitrary endpoint; see
    /// [`spec_uri_by_endpoint`] for its exact shape.
    pub fn build_uri_by_endpoint(endpoint: &str, bucket: &str, object: Option<&str>) -> (r: String)
        ensures
            r@ == spec_uri_by_endpoint(
                endpoint@,
                bucket.spec_bytes(),
                match object {
                    Some(o) => Some(o.spec_bytes()),
                    None => None,
                },
            ),
    {
        let mut out: Vec<char> = Vec::new();
        push_str_chars(&mut out, endpoint);
        push_str_chars(&mut out, "/b/");
        push_path_segment(&mut out, bucket);
        match object {
            Some(o) => {
                push_str_chars(&mut out, "/o/");
                push_path_segment(&mut out, o);
            },
            None => {},
        }
        string_from_chars(out)
    }

    /// The request that downloads an object's bytes: the object URI with
    /// `alt=media`, authorized with `token`.
    pub fn object(&self, token: &str, bucket: &str, object: &str) -> (r: ObjectRequest)
        ensures
            r.uri@ == spec_uri_by_endpoint(
                "https://storage.googleapis.com/storage/v1"@,
                bucket.spec_bytes(),
                Some(object.spec_bytes()),
            ),
            r.query@.len() == 1,
            r.query@[0].0@ == "alt"@,
            r.query@[0].1@ == "media"@,
            r.authorization@ == spec_bearer(token@),
    {
        let uri = Self::build_uri(bucket, Some(object));
        let mut query: Vec<(String, String)> = Vec::new();
        query.push((String::from_str("alt"), String::from_str("media")));
        let metadata = construct_request(token, &Vec::new());
        ObjectRequest { uri, query, authorization: metadata.authorization }
    }

    /// The request that uploads an object in one shot: the upload URI for
    /// the bucket (with an empty object segment), `uploadType=media` and
    /// the object's `name` as query, the object bytes as the body, and the
    /// declared content type and length.
    pub fn create_object(
        &self,
        token: &str,
        bucket: &str,
        name: &str,
        object: Vec<u8>,
        mime_type: &str,
    ) -> (r: CreateObjectRequest)
        ensures
            r.uri@ == spec_uri_by_endpoint(
                "https://storage.googleapis.com/upload/storage/v1"@,
                bucket.spec_bytes(),
                Some(Seq::<u8>::empty()),
            ),
            r.query@.len() == 2,
            r.query@[0].0@ == "uploadType"@,
            r.query@[0].1@ == "media"@,
            r.query@[1].0@ == "name"@,
            r.query@[1].1@ == name@,
            r.authorization@ == spec_bearer(token@),
            r.content_type@ == mime_type@,
            r.content_length == object.len(),
            r.body@ == object@,
    {
        proof {
            reveal_strlit("");
            assert(""@ =~= Seq::<char>::empty());
            assert("".spec_bytes() =~= Seq::<u8>::empty());
        }
        let uri = Self::build_upload_uri(bucket, Some(""));
        let mut query: Vec<(String, String)> = Vec::new();
        query.push((String::from_str("uploadType"), String::from_str("media")));
        query.push((String::from_str("name"), String::from_str(name)));
        let metadata = construct_request(token, &Vec::new());
        let content_length = object.len();
        CreateObjectRequest {
            uri,
            query,
            authorization: metadata.authorization,
            content_type: String::from_str(mime_type),
            content_length,
            body: object,
        }
    }

    /// Whether a response status counts as success (the 2xx range).
    pub fn is_success(status: u16) -> (r: bool)
        ensures
            r == spec_is_success(status),
    {
        200 <= status && status < 300
    }

    /// The typed error for a non-success response.
    pub fn error_response(status: u16, response: String) -> (r: Error)
        ensures
            r == Error::CloudStorage(CloudStorageError::ErrorResponse { status, response }),
    {
        Error::CloudStorage(CloudStorageError::ErrorResponse { status, response })
    }
}

} // verus!
