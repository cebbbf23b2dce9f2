use know::image::{deserialize_data, Image, ImageLike};
use know::traits::ThingLike;

fn jsonld_str<'a>(obj: &'a know::json::JsonObject, key: &str) -> Option<&'a str> {
    obj.get(key).and_then(|f| f.as_str())
}

fn jsonld_u64(obj: &know::json::JsonObject, key: &str) -> Option<u64> {
    obj.get(key).and_then(|f| f.as_u64())
}

fn assert_is_image_like<T: ImageLike>(_: T) {}

#[test]
fn test_image_default() {
    let image = Image::default();
    assert_eq!(image.id, None);
    assert_eq!(image.width, None);
    assert_eq!(image.height, None);
    assert!(image.data.is_empty());
}

#[test]
fn test_image_new_with_fields() {
    let image = Image {
        id: Some("_:test-image".to_string()),
        width: Some(800),
        height: Some(600),
        data: vec![255, 0, 0, 0, 255, 0, 0, 0, 255], // RGB pixel data
        source: None,
    };

    assert_eq!(image.id, Some("_:test-image".to_string()));
    assert_eq!(image.width, Some(800));
    assert_eq!(image.height, Some(600));
    assert_eq!(image.data, vec![255, 0, 0, 0, 255, 0, 0, 0, 255]);
}

#[test]
fn test_image_clone() {
    let original = Image {
        id: Some("_:original".to_string()),
        width: Some(100),
        height: Some(100),
        data: vec![1, 2, 3, 4, 5],
        source: None,
    };

    let cloned = original.clone();
    assert_eq!(original, cloned);
    assert_eq!(cloned.id, Some("_:original".to_string()));
    assert_eq!(cloned.width, Some(100));
    assert_eq!(cloned.height, Some(100));
    assert_eq!(cloned.data, vec![1, 2, 3, 4, 5]);
}

#[test]
fn test_image_equality() {
    let image1 = Image {
        id: Some("_:test".to_string()),
        width: Some(50),
        height: Some(50),
        data: vec![1, 2, 3],
        source: None,
    };

    let image2 = Image {
        id: Some("_:test".to_string()),
        width: Some(50),
        height: Some(50),
        data: vec![1, 2, 3],
        source: None,
    };

    let image3 = Image {
        id: Some("_:different".to_string()),
        width: Some(50),
        height: Some(50),
        data: vec![1, 2, 3],
        source: None,
    };

    assert_eq!(image1, image2);
    assert_ne!(image1, image3);
}

#[test]
fn test_image_ordering() {
    let image1 = Image {
        id: Some("_:a".to_string()),
        width: Some(10),
        height: Some(10),
        data: vec![1],
        source: None,
    };

    let image2 = Image {
        id: Some("_:b".to_string()),
        width: Some(10),
        height: Some(10),
        data: vec![1],
        source: None,
    };

    assert!(image1 < image2);
    assert!(image2 > image1);
}

#[test]
fn test_image_debug() {
    let image = Image {
        id: Some("_:debug-test".to_string()),
        width: Some(32),
        height: Some(32),
        data: vec![255, 128, 0],
        source: None,
    };

    let debug_str = format!("{:?}", image);
    assert!(debug_str.contains("_:debug-test"));
    assert!(debug_str.contains("32"));
    assert!(debug_str.contains("255"));
}

#[test]
fn image_test_thing_like_trait() {
    let image_with_id = Image {
        id: Some("_:test-id".to_string()),
        width: None,
        height: None,
        data: vec![],
        source: None,
    };

    let image_without_id = Image::default();

    assert_eq!(image_with_id.id(), Some("_:test-id"));
    assert_eq!(image_without_id.id(), None);
    assert_eq!(image_with_id.name(), None);
    assert_eq!(image_without_id.name(), None);
}

#[test]
fn test_image_like_trait() {
    let image = Image::default();
    assert_is_image_like(image);
}

#[test]
fn test_image_with_large_data() {
    let large_data = vec![42; 1000000]; // 1MB of data
    let image = Image {
        id: Some("_:large-image".to_string()),
        width: Some(1000),
        height: Some(1000),
        data: large_data.clone(),
        source: None,
    };

    assert_eq!(image.data.len(), 1000000);
    assert_eq!(image.data[0], 42);
    assert_eq!(image.data[999999], 42);
}

#[test]
fn test_image_partial_fields() {
    let image_only_width = Image {
        id: None,
        width: Some(640),
        height: None,
        data: vec![],
        source: None,
    };

    let image_only_height = Image {
        id: None,
        width: None,
        height: Some(480),
        data: vec![],
        source: None,
    };

    assert_eq!(image_only_width.width, Some(640));
    assert_eq!(image_only_width.height, None);
    assert_eq!(image_only_height.width, None);
    assert_eq!(image_only_height.height, Some(480));
}

#[test]
fn image_test_to_jsonld_with_id() {
    let image = Image {
        id: Some("_:test-image-123".to_string()),
        width: Some(800),
        height: Some(600),
        data: vec![255, 0, 0], // Simple RGB data
        source: None,
    };

    let result = image.to_jsonld();
    assert_eq!(jsonld_str(&result, "@type"), Some("Image"));
    assert_eq!(jsonld_str(&result, "@id"), Some("_:test-image-123"));
    assert_eq!(jsonld_u64(&result, "width"), Some(800));
    assert_eq!(jsonld_u64(&result, "height"), Some(600));

    let data_str = jsonld_str(&result, "data").unwrap();
    assert!(data_str.starts_with("data:image/rgb;base64,"));
    assert!(data_str.contains("/wAA")); // Base64 encoded [255, 0, 0]
}

#[test]
fn image_test_to_jsonld_without_id() {
    let image = Image {
        id: None,
        width: Some(100),
        height: Some(100),
        data: vec![0, 255, 0], // Green pixel
        source: None,
    };

    let result = image.to_jsonld();
    assert_eq!(jsonld_str(&result, "@type"), Some("Image"));
    assert_eq!(jsonld_str(&result, "@id"), Some("_:image"));
    assert_eq!(jsonld_u64(&result, "width"), Some(100));
    assert_eq!(jsonld_u64(&result, "height"), Some(100));

    let data_str = jsonld_str(&result, "data").unwrap();
    assert!(data_str.starts_with("data:image/rgb;base64,"));
}

#[test]
fn test_to_jsonld_empty_data() {
    let image = Image {
        id: Some("_:empty-image".to_string()),
        width: Some(0),
        height: Some(0),
        data: vec![],
        source: None,
    };

    let result = image.to_jsonld();
    assert_eq!(jsonld_str(&result, "@type"), Some("Image"));
    assert_eq!(jsonld_str(&result, "@id"), Some("_:empty-image"));
    assert_eq!(jsonld_u64(&result, "width"), Some(0));
    assert_eq!(jsonld_u64(&result, "height"), Some(0));
    assert_eq!(jsonld_str(&result, "data"), Some("data:image/rgb;base64,"));
}

#[test]
fn image_data_url_round_trip() {
    let data = vec![128, 64, 32, 16, 8, 4, 2, 1];
    let url = know::image::serialize_data(&data);
    assert!(url.starts_with("data:image/rgb;base64,"));
    assert_eq!(deserialize_data(url.as_str()).unwrap(), data);
}

#[test]
fn image_data_url_deserialization() {
    assert_eq!(
        deserialize_data("data:image/rgb;base64,AQID").unwrap(),
        vec![1, 2, 3]
    );
    assert!(deserialize_data("data:image/rgb;base64,!!!").is_err());
}
