use base64::Engine;
use home_api::errors::ServerError;
use home_api::s3::{
    get_object, list_objects, list_prefix, object_key, object_name, FetchedObject, Listing,
    ObjectEntry, ObjectType,
};

fn strings(v: &[&str]) -> Option<Vec<String>> {
    Some(v.iter().map(|s| s.to_string()).collect())
}

fn names(entries: &[ObjectEntry]) -> Vec<(String, ObjectType)> {
    entries.iter().map(|e| (e.name.clone(), e.kind)).collect()
}

fn fetched(body: &[u8], content_type: Option<&str>) -> Result<FetchedObject, String> {
    Ok(FetchedObject {
        body: Ok(body.to_vec()),
        content_type: content_type.map(|t| t.to_string()),
    })
}

fn blob_of(body: &[u8]) -> String {
    get_object("k", fetched(body, Some("application/octet-stream")))
        .unwrap()
        .blob
}

fn restore_padding(s: &str) -> String {
    match s.len() % 4 {
        2 => format!("{}==", s),
        3 => format!("{}=", s),
        _ => s.to_string(),
    }
}

#[test]
fn listing_root() {
    let listing = Listing { common_prefixes: strings(&["dir/"]), contents: strings(&["a.txt"]) };
    let entries = list_objects(Ok(listing)).unwrap();
    assert_eq!(
        names(&entries),
        vec![("dir/".to_string(), ObjectType::Dir), ("a.txt".to_string(), ObjectType::File)]
    );
}

#[test]
fn listing_keeps_backend_order_within_groups() {
    let listing = Listing {
        common_prefixes: strings(&["p/b/", "p/a/", "p/a/"]),
        contents: strings(&["p/z", "p/y"]),
    };
    let entries = list_objects(Ok(listing)).unwrap();
    assert_eq!(
        names(&entries),
        vec![
            ("p/b/".to_string(), ObjectType::Dir),
            ("p/a/".to_string(), ObjectType::Dir),
            ("p/a/".to_string(), ObjectType::Dir),
            ("p/z".to_string(), ObjectType::File),
            ("p/y".to_string(), ObjectType::File),
        ]
    );
}

#[test]
fn listing_without_groups_is_empty() {
    let listing = Listing { common_prefixes: None, contents: None };
    assert!(list_objects(Ok(listing)).unwrap().is_empty());
    let only_files = Listing { common_prefixes: None, contents: strings(&["x"]) };
    assert_eq!(names(&list_objects(Ok(only_files)).unwrap()), vec![("x".to_string(), ObjectType::File)]);
}

#[test]
fn listing_failure_is_list_objects_error() {
    let r = list_objects(Err("access denied".to_string()));
    assert!(matches!(r, Err(ServerError::ListObjects { ref message }) if message == "access denied"));
}

#[test]
fn list_prefix_defaults_to_root() {
    assert_eq!(list_prefix(None), "");
    assert_eq!(list_prefix(Some("photos".to_string())), "photos");
}

#[test]
fn get_object_hello() {
    let o = get_object("dir/file.txt", fetched(b"hello", Some("text/plain"))).unwrap();
    assert_eq!(o.blob, "aGVsbG8");
    assert_eq!(o.name, "file.txt");
    assert_eq!(o.mime_type, "text/plain");
}

#[test]
fn get_object_without_content_type() {
    let r = get_object("dir/file.txt", fetched(b"hello", None));
    assert!(matches!(r, Err(ServerError::GetObject { ref message }) if message == "No content type"));
}

#[test]
fn missing_key_is_get_object_error() {
    let r = object_key(None);
    assert!(matches!(r, Err(ServerError::GetObject { ref message }) if message == "No file path"));
    assert_eq!(object_key(Some("a/b".to_string())).unwrap(), "a/b");
}

#[test]
fn backend_failures_are_get_object_errors() {
    let r = get_object("a", Err("service unavailable".to_string()));
    assert!(matches!(r, Err(ServerError::GetObject { ref message }) if message == "service unavailable"));
    let body_failed = Ok(FetchedObject {
        body: Err("stream reset".to_string()),
        content_type: Some("text/plain".to_string()),
    });
    let r = get_object("a", body_failed);
    assert!(matches!(r, Err(ServerError::GetObject { ref message }) if message == "stream reset"));
}

#[test]
fn display_names() {
    assert_eq!(object_name("dir/"), "");
    assert_eq!(object_name("dir/file.txt"), "file.txt");
    assert_eq!(object_name("a/b/c"), "c");
    assert_eq!(object_name("plain"), "plain");
    assert_eq!(object_name(""), "");
    assert_eq!(object_name("/"), "");
    assert_eq!(object_name("été/naïve"), "naïve");
    let o = get_object("dir/", fetched(b"", Some("text/plain"))).unwrap();
    assert_eq!(o.name, "");
}

#[test]
fn blob_encoding_values() {
    assert_eq!(blob_of(b""), "");
    assert_eq!(blob_of(b"f"), "Zg");
    assert_eq!(blob_of(b"fo"), "Zm8");
    assert_eq!(blob_of(b"foo"), "Zm9v");
    assert_eq!(blob_of(&[0xfb, 0xff]), "+/8");
}

#[test]
fn blob_round_trip() {
    let samples: Vec<Vec<u8>> = vec![
        vec![],
        vec![0],
        vec![255, 254],
        b"hello".to_vec(),
        (0..=255).collect(),
    ];
    for bytes in samples {
        let padded = restore_padding(&blob_of(&bytes));
        let decoded = base64::engine::general_purpose::STANDARD.decode(padded).unwrap();
        assert_eq!(decoded, bytes);
    }
}

#[test]
fn status_codes() {
    assert_eq!(ServerError::GetObject { message: String::new() }.status_code(), 500);
    assert_eq!(ServerError::ListObjects { message: String::new() }.status_code(), 500);
    assert_eq!(ServerError::HealthCheck { errors: vec![] }.status_code(), 500);
    assert_eq!(ServerError::Login { code: 401, message: String::new() }.status_code(), 401);
}
