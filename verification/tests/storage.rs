use google_apis_ex::auth::Token;
use google_apis_ex::auth::TokenManager;
use google_apis_ex::error::Error;
use google_apis_ex::storage::client::Client;
use google_apis_ex::storage::client::CloudStorageError;

fn client() -> Client {
    let mut tm = TokenManager::new(Client::scopes());
    tm.complete_mint(Ok(Token {
        value: "token".to_string(),
        expires_at: None,
    }))
    .unwrap();
    Client::new(tm)
}

#[test]
fn client_test_build_uri() {
    let cases: Vec<(&str, Option<&str>, &str)> = vec![
        (
            "test-bucket",
            Some("hoge.yaml"),
            "https://storage.googleapis.com/storage/v1/b/test-bucket/o/hoge.yaml",
        ),
        (
            "test-bucket",
            Some("hoge/foo/bar.yaml"),
            "https://storage.googleapis.com/storage/v1/b/test-bucket/o/hoge%2Ffoo%2Fbar.yaml",
        ),
        (
            "test-bucket",
            Some(""),
            "https://storage.googleapis.com/storage/v1/b/test-bucket/o/",
        ),
        (
            "test-bucket",
            None,
            "https://storage.googleapis.com/storage/v1/b/test-bucket",
        ),
    ];
    for (bucket, object, expected) in cases {
        assert_eq!(
            url::Url::parse(&Client::build_uri(bucket, object)).unwrap(),
            url::Url::parse(expected).unwrap()
        );
    }
}

#[test]
fn test_build_upload_uri() {
    assert_eq!(
        Client::build_upload_uri("test-bucket", Some("")),
        "https://storage.googleapis.com/upload/storage/v1/b/test-bucket/o/"
    );
}

#[test]
fn test_build_uri_encodes_segments() {
    assert_eq!(
        Client::build_uri("a b", Some("x?y#z%")),
        "https://storage.googleapis.com/storage/v1/b/a%20b/o/x%3Fy%23z%25"
    );
}

#[test]
fn test_object_request() {
    let c = client();
    let r = c.object("token", "test-bucket", "hoge/foo/bar.yaml");
    assert_eq!(
        r.uri,
        "https://storage.googleapis.com/storage/v1/b/test-bucket/o/hoge%2Ffoo%2Fbar.yaml"
    );
    assert_eq!(r.query, vec![("alt".to_string(), "media".to_string())]);
    assert_eq!(r.authorization, "Bearer token");
}

#[test]
fn test_create_object_request() {
    let c = client();
    let data = vec![1u8, 2, 3, 4, 5];
    let r = c.create_object("token", "test-bucket", "dir/file.txt", data.clone(), "text/plain");
    assert_eq!(
        r.uri,
        "https://storage.googleapis.com/upload/storage/v1/b/test-bucket/o/"
    );
    assert_eq!(
        r.query,
        vec![
            ("uploadType".to_string(), "media".to_string()),
            ("name".to_string(), "dir/file.txt".to_string()),
        ]
    );
    assert_eq!(r.authorization, "Bearer token");
    assert_eq!(r.content_type, "text/plain");
    assert_eq!(r.content_length, 5);
    assert_eq!(r.body, data);
}

#[test]
fn test_is_success_range() {
    assert!(!Client::is_success(199));
    assert!(Client::is_success(200));
    assert!(Client::is_success(204));
    assert!(Client::is_success(299));
    assert!(!Client::is_success(300));
    assert!(!Client::is_success(404));
}

#[test]
fn test_error_response() {
    let err = Client::error_response(403, "forbidden".to_string());
    assert_eq!(
        err,
        Error::CloudStorage(CloudStorageError::ErrorResponse {
            status: 403,
            response: "forbidden".to_string()
        })
    );
}

#[test]
fn test_storage_scopes() {
    assert_eq!(
        Client::scopes(),
        vec![
            "https://www.googleapis.com/auth/cloud-platform".to_string(),
            "https://www.googleapis.com/auth/devstorage.full_control".to_string(),
        ]
    );
}
