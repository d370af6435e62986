//! The Cloud KMS client: the gRPC request messages it sends and the
//! metadata attached to each call.
//!
//! Every call carries an `authorization` bearer header and an
//! `x-goog-request-params` routing header derived from the `parent` or
//! `name` the call addresses.

use vstd::prelude::*;
use vstd::string::*;
use crate::auth::Token;
use crate::util::GrpcCall;
use crate::util::RequestMetadata;
use crate::util::construct_request;
use crate::util::spec_bearer;
use crate::util::spec_header_views;
use crate::util::spec_request_params;

verus! {

/// The host the KMS calls are routed to.
pub const DOMAIN_NAME: &'static str = "cloudkms.googleapis.com";

/// The endpoint the KMS channel connects to.
pub const ENDPOINT: &'static str = "https://cloudkms.googleapis.com";

/// The request that lists the key rings under a location.
#[derive(Debug, Clone, PartialEq)]
pub struct ListKeyRingsRequest {
    pub parent: String,
    pub page_size: i32,
    pub page_token: String,
    pub filter: String,
    pub order_by: String,
}

/// The request that lists the crypto keys under a key ring.
#[derive(Debug, Clone, PartialEq)]
pub struct ListCryptoKeysRequest {
    pub parent: String,
    pub page_size: i32,
    pub page_token: String,
    pub filter: String,
    pub order_by: String,
    pub version_view: i32,
}

/// The request that encrypts a plaintext under a crypto key.
#[derive(Debug, Clone, PartialEq)]
pub struct EncryptRequest {
    pub name: String,
    pub plaintext: Vec<u8>,
    pub additional_authenticated_data: Vec<u8>,
    pub plaintext_crc32c: Option<i64>,
    pub additional_authenticated_data_crc32c: Option<i64>,
}

/// The request that decrypts a ciphertext under a crypto key.
#[derive(Debug, Clone, PartialEq)]
pub struct DecryptRequest {
    pub name: String,
    pub ciphertext: Vec<u8>,
    pub additional_authenticated_data: Vec<u8>,
    pub ciphertext_crc32c: Option<i64>,
    pub additional_authenticated_data_crc32c: Option<i64>,
}

/// A Cloud KMS client: the bearer token its calls are authorized with.
/// The gRPC channel that carries the calls lives outside the library.
pub struct KmsClient {
    /// The token attached to every call of this client.
    pub token: Token,
}

impl KmsClient {
    /// A KMS client that authorizes its calls with `token`.
    pub fn new(token: Token) -> (r: Self)
        ensures
            r.token == token,
    {
        KmsClient { token }
    }

    /// The permission scopes a KMS token is minted for.
    pub fn scopes() -> (r: Vec<String>)
        ensures
            r@.len() == 2,
            r@[0]@ == "https://www.googleapis.com/auth/cloud-platform"@,
            r@[1]@ == "https://www.googleapis.com/auth/cloudkms"@,
    {
        let mut r: Vec<String> = Vec::new();
        r.push(String::from_str("https://www.googleapis.com/auth/cloud-platform"));
        r.push(String::from_str("https://www.googleapis.com/auth/cloudkms"));
        r
    }

    /// The metadata of one call of this client: its token as the bearer,
    /// the given routing pairs as the request params.
    pub fn construct_request(&self, headers: &Vec<(String, String)>) -> (r: RequestMetadata)
        ensures
            r.authorization@ == spec_bearer(self.token.value@),
            r.request_params@ == spec_request_params(spec_header_views(headers@)),
    {
        construct_request(self.token.as_str(), headers)
    }

    /// The call that lists key rings: one page of up to 100, routed by
    /// `parent` (in the format `projects/*/locations/*`).
    pub fn list_key_rings(&self, parent: &str) -> (r: GrpcCall<ListKeyRingsRequest>)
        ensures
            r.metadata.authorization@ == spec_bearer(self.token.value@),
            r.metadata.request_params@ == "parent"@ + seq!['='] + parent@,
            r.message.parent@ == parent@,
            r.message.page_size == 100,
            r.message.page_token@ == Seq::<char>::empty(),
            r.message.filter@ == Seq::<char>::empty(),
            r.message.order_by@ == Seq::<char>::empty(),
    {
        let metadata = self.routing_by(("parent", parent));
        GrpcCall {
            metadata,
            message: ListKeyRingsRequest {
                parent: String::from_str(parent),
                page_size: 100,
                page_token: String::new(),
                filter: String::new(),
                order_by: String::new(),
            },
        }
    }

    /// The call that lists crypto keys: one page of up to 100, routed by
    /// `parent` (in the format `projects/*/locations/*/keyRings/*`).
    pub fn list_crypto_keys(&self, parent: &str) -> (r: GrpcCall<ListCryptoKeysRequest>)
        ensures
            r.metadata.authorization@ == spec_bearer(self.token.value@),
            r.metadata.request_params@ == "parent"@ + seq!['='] + parent@,
            r.message.parent@ == parent@,
            r.message.page_size == 100,
            r.message.page_token@ == Seq::<char>::empty(),
            r.message.filter@ == Seq::<char>::empty(),
            r.message.order_by@ == Seq::<char>::empty(),
            r.message.version_view == 0,
    {
        let metadata = self.routing_by(("parent", parent));
        GrpcCall {
            metadata,
            message: ListCryptoKeysRequest {
                parent: String::from_str(parent),
                page_size: 100,
                page_token: String::new(),
                filter: String::new(),
                order_by: String::new(),
                version_view: 0,
            },
        }
    }

    /// The call that encrypts `data` under the crypto key `key_name` (in
    /// the format `projects/*/locations/*/keyRings/*/cryptoKeys/*`): the
    /// plaintext is carried unchanged, with no additional authenticated
    /// data and no checksums.
    pub fn encrypt(&self, key_name: &str, data: Vec<u8>) -> (r: GrpcCall<EncryptRequest>)
        ensures
            r.metadata.authorization@ == spec_bearer(self.token.value@),
            r.metadata.request_params@ == "name"@ + seq!['='] + key_name@,
            r.message.name@ == key_name@,
            r.message.plaintext@ == data@,
            r.message.additional_authenticated_data@ == Seq::<u8>::empty(),
            r.message.plaintext_crc32c is None,
            r.message.additional_authenticated_data_crc32c is None,
    {
        let metadata = self.routing_by(("name", key_name));
        GrpcCall {
            metadata,
            message: EncryptRequest {
                name: String::from_str(key_name),
                plaintext: data,
                additional_authenticated_data: Vec::new(),
                plaintext_crc32c: None,
                additional_authenticated_data_crc32c: None,
            },
        }
    }

    /// The call that decrypts `data` under the crypto key `key_name`: the
    /// ciphertext is carried unchanged, with no additional authenticated
    /// data and no checksums.
    pub fn decrypt(&self, key_name: &str, data: Vec<u8>) -> (r: GrpcCall<DecryptRequest>)
        ensures
            r.metadata.authorization@ == spec_bearer(self.token.value@),
            r.metadata.request_params@ == "name"@ + seq!['='] + key_name@,
            r.message.name@ == key_name@,
            r.message.ciphertext@ == data@,
            r.message.additional_authenticated_data@ == Seq::<u8>::empty(),
            r.message.ciphertext_crc32c is None,
            r.message.additional_authenticated_data_crc32c is None,
    {
        let metadata = self.routing_by(("name", key_name));
        GrpcCall {
            metadata,
            message: DecryptRequest {
                name: String::from_str(key_name),
                ciphertext: data,
                additional_authenticated_data: Vec::new(),
                ciphertext_crc32c: None,
                additional_authenticated_data_crc32c: None,
            },
        }
    }

    /// The metadata of a call routed by a single `key=value` pair.
    fn routing_by(&self, header: (&str, &str)) -> (r: RequestMetadata)
        ensures
            r.authorization@ == spec_bearer(self.token.value@),
            r.request_params@ == header.0@ + seq!['='] + header.1@,
    {
        let mut headers: Vec<(String, String)> = Vec::new();
        headers.push((String::from_str(header.0), String::from_str(header.1)));
        let metadata = construct_request(self.token.as_str(), &headers);
        proof {
            let views = spec_header_views(headers@);
            assert(views.len() == 1);
            assert(views[0] == (header.0@, header.1@));
            assert(spec_request_params(views) =~= header.0@ + seq!['='] + header.1@);
        }
        metadata
    }
}

} // verus!
