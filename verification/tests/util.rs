use google_apis_ex::util::construct_request;

#[test]
fn util_test_construct_request() {
    let token = "token";
    let parent = "projects/test-proj/locations/asia-northeast1";

    let metadata = construct_request(
        token,
        &vec![
            ("parent".to_string(), parent.to_string()),
            ("key".to_string(), "value".to_string()),
        ],
    );

    assert_eq!(metadata.authorization, "Bearer token");
    assert_eq!(
        metadata.request_params,
        "parent=projects/test-proj/locations/asia-northeast1&key=value"
    );
}

#[test]
fn test_construct_request_without_headers() {
    let metadata = construct_request("token", &vec![]);
    assert_eq!(metadata.authorization, "Bearer token");
    assert_eq!(metadata.request_params, "");
}

#[test]
fn test_construct_request_single_header() {
    let metadata = construct_request("t", &vec![("key".to_string(), "value".to_string())]);
    assert_eq!(metadata.authorization, "Bearer t");
    assert_eq!(metadata.request_params, "key=value");
}
