use google_apis_ex::drive::client::Client;
use google_apis_ex::drive::client::File;
use google_apis_ex::drive::client::GoogleDriveError;
use google_apis_ex::drive::client::Scope;
use google_apis_ex::drive::upload_file::metadata_json;
use google_apis_ex::drive::upload_file::resume_request;
use google_apis_ex::drive::upload_file::resume_url;
use google_apis_ex::drive::upload_file::upload_file;
use google_apis_ex::drive::upload_file::upload_request;
use google_apis_ex::error::Error;

fn test_metadata() -> File {
    File {
        name: "test.rb".to_string(),
        mime_type: "text/plain".to_string(),
        ..File::default()
    }
}

#[test]
fn test_build_uri() {
    assert_eq!(
        url::Url::parse(&Client::build_uri("hoge/goo.txt", &vec![])).unwrap(),
        url::Url::parse("https://www.googleapis.com/hoge/goo.txt").unwrap()
    );

    assert_eq!(
        url::Url::parse(&Client::build_uri("/hoge/goo.txt", &vec![])).unwrap(),
        url::Url::parse("https://www.googleapis.com/hoge/goo.txt").unwrap()
    );

    assert_eq!(
        url::Url::parse(&Client::build_uri(
            "/hoge/goo.txt",
            &vec![("hoge".to_string(), "foo".to_string())]
        ))
        .unwrap(),
        url::Url::parse("https://www.googleapis.com/hoge/goo.txt?hoge=foo").unwrap()
    );
}

#[test]
fn test_build_uri_encodes_query_pairs() {
    assert_eq!(
        Client::build_uri(
            "files",
            &vec![("q".to_string(), "name = 'a&b'".to_string())]
        ),
        "https://www.googleapis.com/files?q=name+%3D+%27a%26b%27"
    );
}

#[test]
fn test_scope_as_ref() {
    assert_eq!(Scope::Full.as_ref(), "https://www.googleapis.com/auth/drive");
    assert_eq!(
        Scope::Appdata.as_ref(),
        "https://www.googleapis.com/auth/drive.appdata"
    );
    assert_eq!(
        Scope::File.as_ref(),
        "https://www.googleapis.com/auth/drive.file"
    );
    assert_eq!(
        Scope::Metadata.as_ref(),
        "https://www.googleapis.com/auth/drive.metadata"
    );
    assert_eq!(
        Scope::MetadataReadonly.as_ref(),
        "https://www.googleapis.com/auth/drive.metadata.readonly"
    );
    assert_eq!(
        Scope::PhotoReadonly.as_ref(),
        "https://www.googleapis.com/auth/drive.photos.readonly"
    );
    assert_eq!(
        Scope::Readonly.as_ref(),
        "https://www.googleapis.com/auth/drive.readonly"
    );
    assert_eq!(
        Scope::Script.as_ref(),
        "https://www.googleapis.com/auth/drive.scripts"
    );
}

#[test]
fn test_metadata_json_plain() {
    let json = metadata_json(&test_metadata());
    assert_eq!(
        json,
        "{\"kind\":null,\"id\":null,\"name\":\"test.rb\",\"mimeType\":\"text/plain\",\
         \"description\":null,\"createdTime\":null,\"modifiedTime\":null,\"parents\":[],\
         \"starred\":null,\"viewedByMeTime\":null,\"writersCanShare\":null}"
    );
    // A real JSON parser agrees on what was written.
    let value: serde_json::Value = serde_json::from_str(&json).unwrap();
    assert_eq!(value["name"], serde_json::Value::String("test.rb".to_string()));
    assert_eq!(
        value["mimeType"],
        serde_json::Value::String("text/plain".to_string())
    );
    assert!(value["kind"].is_null());
}

#[test]
fn test_metadata_json_escapes_strings() {
    let mut metadata = test_metadata();
    metadata.name = "a\"b\\c\nd\te\u{1f}f".to_string();
    metadata.parents = vec!["p1".to_string(), "p/2".to_string()];
    metadata.starred = Some(true);
    let json = metadata_json(&metadata);
    let value: serde_json::Value = serde_json::from_str(&json).unwrap();
    assert_eq!(
        value["name"],
        serde_json::Value::String("a\"b\\c\nd\te\u{1f}f".to_string())
    );
    assert_eq!(value["parents"][0], serde_json::Value::String("p1".to_string()));
    assert_eq!(value["parents"][1], serde_json::Value::String("p/2".to_string()));
    assert_eq!(value["starred"], serde_json::Value::Bool(true));
    // The control character took the long escape, lowercase hex.
    assert!(json.contains("\\u001f"));
}

#[test]
fn test_resume_url() {
    let metadata = test_metadata();
    let data = [1u8, 2, 3];
    let request = resume_request("token", data.len(), &metadata);

    // What the initiation request carries.
    assert_eq!(
        request.uri,
        "https://www.googleapis.com/upload/drive/v3/files?uploadType=resumable"
    );
    assert_eq!(request.authorization, "Bearer token");
    assert_eq!(request.content_type, "application/json");
    assert_eq!(request.upload_content_type, "text/plain");
    assert_eq!(request.upload_content_length, 3);

    // A 200 with a Location header yields the session URL.
    let resumable_url = resume_url(200, Some("https://hoge.com".to_string()), String::new());
    assert_eq!(resumable_url.unwrap(), "https://hoge.com");
}

#[test]
fn test_resume_url_not_found() {
    let err = resume_url(200, None, "no location".to_string()).unwrap_err();
    assert_eq!(
        err,
        Error::GooleDrive(GoogleDriveError::ResumeUrlNotFound {
            response: "no location".to_string()
        })
    );
}

#[test]
fn test_resume_url_unexpected_status() {
    let err = resume_url(503, None, "unavailable".to_string()).unwrap_err();
    assert_eq!(
        err,
        Error::GooleDrive(GoogleDriveError::UnexpectedResponse {
            status: 503,
            response: "unavailable".to_string()
        })
    );
}

#[test]
fn test_upload_file() {
    let metadata = test_metadata();
    let data = [1u8, 2, 3];
    let upload_url = "https://hoge.com/upload_file";

    // Phase one answered 200 with a Location: phase two PUTs the bytes
    // there, unchanged, under the file's own content type.
    let put = upload_file(
        "token",
        200,
        Some(upload_url.to_string()),
        String::new(),
        data.to_vec(),
        &metadata,
    )
    .unwrap();
    assert_eq!(put.uri, upload_url);
    assert_eq!(put.authorization, "Bearer token");
    assert_eq!(put.content_type, "text/plain");
    assert_eq!(put.content_length, 3);
    assert_eq!(put.body, vec![1u8, 2, 3]);

    // The mocked PUT response: the created file resource.
    let response_body = "{\"kind\":\"drive#file\",\"id\":\"asehdgjfhkjkasdflkajsdfalksjdfa\",\
                         \"name\":\"test.rb\",\"mimeType\":\"text/plain\"}";
    let value: serde_json::Value = serde_json::from_str(response_body).unwrap();
    let file = File {
        kind: value["kind"].as_str().map(str::to_string),
        id: value["id"].as_str().map(str::to_string),
        name: value["name"].as_str().unwrap().to_string(),
        mime_type: value["mimeType"].as_str().unwrap().to_string(),
        ..File::default()
    };
    assert_eq!(
        file,
        File {
            kind: Some("drive#file".to_string()),
            id: Some("asehdgjfhkjkasdflkajsdfalksjdfa".to_string()),
            ..metadata
        }
    );
}

#[test]
fn test_upload_file_propagates_initiation_failure() {
    let metadata = test_metadata();
    let err = upload_file(
        "token",
        404,
        None,
        "not here".to_string(),
        vec![1u8],
        &metadata,
    )
    .unwrap_err();
    assert_eq!(
        err,
        Error::GooleDrive(GoogleDriveError::UnexpectedResponse {
            status: 404,
            response: "not here".to_string()
        })
    );
}

#[test]
fn test_upload_request_keeps_bytes() {
    let metadata = test_metadata();
    let data = vec![9u8, 8, 7, 6];
    let put = upload_request(
        "token",
        "https://session.example/u".to_string(),
        data.clone(),
        &metadata,
    );
    assert_eq!(put.body, data);
    assert_eq!(put.content_length, 4);
}

#[test]
fn test_drive_scopes() {
    assert_eq!(
        Client::scopes(),
        vec!["https://www.googleapis.com/auth/drive".to_string()]
    );
}

#[test]
fn test_build_uri_empty_path() {
    assert_eq!(
        Client::build_uri("", &vec![]),
        "https://www.googleapis.com/"
    );
}
