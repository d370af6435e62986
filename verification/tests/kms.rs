use google_apis_ex::auth::Token;
use google_apis_ex::kms::client::KmsClient;
use google_apis_ex::kms::client::ListKeyRingsRequest;

fn client() -> KmsClient {
    KmsClient::new(Token {
        value: "token".to_string(),
        expires_at: None,
    })
}

#[test]
fn test_construct_request() {
    let parent = "projects/test-proj/locations/asia-northeast1";
    let metadata = client().construct_request(&vec![
        ("parent".to_string(), parent.to_string()),
        ("key".to_string(), "value".to_string()),
    ]);
    assert_eq!(metadata.authorization, "Bearer token");
    assert_eq!(
        metadata.request_params,
        "parent=projects/test-proj/locations/asia-northeast1&key=value"
    );
}

#[test]
fn test_list_key_rings_request() {
    let parent = "projects/test-proj/locations/asia-northeast1";
    let call = client().list_key_rings(parent);
    assert_eq!(call.metadata.authorization, "Bearer token");
    assert_eq!(
        call.metadata.request_params,
        "parent=projects/test-proj/locations/asia-northeast1"
    );
    assert_eq!(
        call.message,
        ListKeyRingsRequest {
            parent: parent.to_string(),
            page_size: 100,
            page_token: String::new(),
            filter: String::new(),
            order_by: String::new(),
        }
    );
}

#[test]
fn test_list_crypto_keys_request() {
    let parent = "projects/test-proj/locations/asia-northeast1/keyRings/ring";
    let call = client().list_crypto_keys(parent);
    assert_eq!(
        call.metadata.request_params,
        "parent=projects/test-proj/locations/asia-northeast1/keyRings/ring"
    );
    assert_eq!(call.message.parent, parent);
    assert_eq!(call.message.page_size, 100);
    assert_eq!(call.message.version_view, 0);
}

#[test]
fn test_encrypt_request_keeps_plaintext() {
    let key = "projects/p/locations/l/keyRings/r/cryptoKeys/k";
    let data = vec![0u8, 255, 7, 42];
    let call = client().encrypt(key, data.clone());
    assert_eq!(call.metadata.authorization, "Bearer token");
    assert_eq!(
        call.metadata.request_params,
        "name=projects/p/locations/l/keyRings/r/cryptoKeys/k"
    );
    assert_eq!(call.message.name, key);
    assert_eq!(call.message.plaintext, data);
    assert!(call.message.additional_authenticated_data.is_empty());
    assert!(call.message.plaintext_crc32c.is_none());
    assert!(call.message.additional_authenticated_data_crc32c.is_none());
}

#[test]
fn test_decrypt_request_keeps_ciphertext() {
    let key = "projects/p/locations/l/keyRings/r/cryptoKeys/k";
    let data = vec![9u8, 9, 9];
    let call = client().decrypt(key, data.clone());
    assert_eq!(
        call.metadata.request_params,
        "name=projects/p/locations/l/keyRings/r/cryptoKeys/k"
    );
    assert_eq!(call.message.name, key);
    assert_eq!(call.message.ciphertext, data);
    assert!(call.message.additional_authenticated_data.is_empty());
}

// The local halves of an encrypt-then-decrypt round trip: the plaintext
// reaches the encrypt request unchanged, and whatever ciphertext the
// service answers with reaches the decrypt request unchanged.
#[test]
fn test_encrypt_decrypt_requests_round_trip_bytes() {
    let key = "projects/p/locations/l/keyRings/r/cryptoKeys/k";
    let plaintext = vec![1u8, 2, 3, 4, 5, 6, 7, 8];
    let c = client();
    let enc = c.encrypt(key, plaintext.clone());
    assert_eq!(enc.message.plaintext, plaintext);
    let ciphertext = vec![104u8, 3, 77];
    let dec = c.decrypt(key, ciphertext.clone());
    assert_eq!(dec.message.ciphertext, ciphertext);
}

#[test]
fn test_kms_scopes() {
    assert_eq!(
        KmsClient::scopes(),
        vec![
            "https://www.googleapis.com/auth/cloud-platform".to_string(),
            "https://www.googleapis.com/auth/cloudkms".to_string(),
        ]
    );
}

#[test]
fn test_kms_endpoints() {
    assert_eq!(
        google_apis_ex::kms::client::DOMAIN_NAME,
        "cloudkms.googleapis.com"
    );
    assert_eq!(
        google_apis_ex::kms::client::ENDPOINT,
        "https://cloudkms.googleapis.com"
    );
}
