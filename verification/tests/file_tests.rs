use know::errors::DataUrlError;
use know::file::{deserialize_data, serialize_data, File, FileData};
use know::traits::ThingLike;

fn jsonld_str<'a>(obj: &'a know::json::JsonObject, key: &str) -> Option<&'a str> {
    obj.get(key).and_then(|f| f.as_str())
}

#[test]
fn test_file_default() {
    let file = File::default();
    assert_eq!(file.id, None);
    assert_eq!(file.name, None);
    assert_eq!(file.size, 0);
    assert!(file.data.is_empty());
}

#[test]
fn file_test_thing_like_trait() {
    let file_with_id = File { id: Some("_:test-id".to_string()), ..Default::default() };

    let file_without_id = File::default();

    assert_eq!(file_with_id.id(), Some("_:test-id"));
    assert_eq!(file_without_id.id(), None);
    assert_eq!(file_with_id.name(), None);
    assert_eq!(file_without_id.name(), None);
}

#[test]
fn file_test_to_jsonld_with_id() {
    let file = File {
        id: Some("_:test-file-123".to_string()),
        data: FileData { content_type: None, data: vec![255, 0, 0] },
        ..Default::default()
    };

    let result = file.to_jsonld();
    assert_eq!(jsonld_str(&result, "@type"), Some("File"));
    assert_eq!(jsonld_str(&result, "@id"), Some("_:test-file-123"));

    let data_str = jsonld_str(&result, "data").unwrap();
    assert!(data_str.starts_with("data:application/octet-stream;base64,"));
    assert!(data_str.contains("/wAA")); // Base64 encoded [255, 0, 0]
}

#[test]
fn file_test_to_jsonld_without_id() {
    let file = File::default();

    let result = file.to_jsonld();
    assert_eq!(jsonld_str(&result, "@type"), Some("File"));
    assert_eq!(jsonld_str(&result, "@id"), Some("_:file"));
    assert_eq!(jsonld_str(&result, "data"), None);
}

#[test]
fn file_data_url_typed_round_trip() {
    let original = FileData {
        content_type: Some("application/octet-stream".into()),
        data: vec![128, 64, 32, 16, 8, 4, 2, 1],
    };

    let url = serialize_data(&original);
    let back = deserialize_data(url.as_str()).unwrap();

    assert_eq!(back, original);
}

#[test]
fn file_data_url_text_form() {
    let payload = FileData { content_type: None, data: vec![1, 2, 3] };
    assert_eq!(
        serialize_data(&payload),
        "data:text/plain;charset=utf-8,\u{1}\u{2}\u{3}".to_string()
    );

    let back = deserialize_data("data:text/plain;charset=utf-8,\u{1}\u{2}\u{3}").unwrap();
    assert_eq!(back.content_type.as_deref(), Some("text/plain;charset=utf-8"));
    assert_eq!(back.data, vec![1, 2, 3]);
}

#[test]
fn file_data_url_deserialization() {
    let file = deserialize_data("data:application/octet-stream;base64,AQID").unwrap();
    assert_eq!(file.content_type.as_deref(), Some("application/octet-stream"));
    assert_eq!(file.data, vec![1, 2, 3]);
}

#[test]
fn file_data_url_errors() {
    assert_eq!(deserialize_data("foo"), Err(DataUrlError::MissingPrefix));
    assert_eq!(deserialize_data("data:text/plain"), Err(DataUrlError::MissingSeparator));
    assert_eq!(
        deserialize_data("data:x;base64,!!!"),
        Err(DataUrlError::InvalidBase64)
    );
    assert_eq!(DataUrlError::MissingPrefix.message(), "missing data: prefix");
    assert_eq!(DataUrlError::MissingSeparator.message(), "missing comma separator");
    assert_eq!(DataUrlError::InvalidBase64.message(), "invalid base64 payload");
}
