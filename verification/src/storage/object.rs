//! The Cloud Storage object resource, as the JSON API describes it.

use vstd::prelude::*;

verus! {

/// An object resource: the metadata record the Storage API answers with
/// after an upload.
#[derive(Debug, Clone, PartialEq)]
pub struct ObjectResource {
    /// Value: "storage#object"
    pub kind: String,
    pub id: String,
    pub self_link: String,
    pub name: String,
    pub bucket: String,
    pub generation: String,
    pub metageneration: String,
    pub content_type: String,
    pub time_created: String,
    pub updated: String,
    pub time_deleted: Option<String>,
    pub temporary_hold: Option<bool>,
    pub event_based_hold: Option<bool>,
    pub retention_expiration_time: Option<String>,
    pub storage_class: String,
    pub time_storage_class_updated: Option<String>,
    pub size: String,
    pub md5_hash: String,
    pub media_link: String,
    pub content_encoding: Option<String>,
    pub content_disposition: Option<String>,
    pub content_language: Option<String>,
    pub cache_control: Option<String>,
    pub metadata: Option<std::collections::HashMap<String, String>>,
    pub acl: Option<Vec<ObjectAclResource>>,
    pub owner: Option<ObjectOwner>,
    pub crc32c: String,
    pub component_count: Option<String>,
    pub etag: String,
    pub customer_encryption: Option<ObjectCustomerEncryption>,
    pub kms_key_name: Option<String>,
}

/// The owner of an object.
#[derive(Debug, Clone, PartialEq)]
pub struct ObjectOwner {
    pub entity: String,
    pub entity_id: String,
}

/// Customer-supplied encryption info of an object.
#[derive(Debug, Clone, PartialEq)]
pub struct ObjectCustomerEncryption {
    pub encryption_algorithm: String,
    pub key_sha256: String,
}

/// An access-control entry of an object.
#[derive(Debug, Clone, PartialEq)]
pub struct ObjectAclResource {
    /// Value: "storage#objectAccessControl"
    pub kind: String,
    pub entity: String,
    pub role: String,
    pub email: String,
    pub entity_id: String,
    pub domain: String,
    pub project_team: ObjectAclProjectTeam,
    pub etag: String,
}

/// The project team an access-control entry grants to.
#[derive(Debug, Clone, PartialEq)]
pub struct ObjectAclProjectTeam {
    pub project_number: String,
    pub team: String,
}

} // verus!
