use base64::Engine;
use llm_tui::domain::{ImageContent, ProviderProtocol, Role};
use llm_tui::image::{check_image_path, image_from_bytes, load_images_from_paths, mime_type, read_failure};
use llm_tui::persistence::{fts_query, protocol_from_db, protocol_to_db, role_from_db, role_to_db, title_pattern};

#[test]
fn image_path_checks() {
    assert_eq!(
        check_image_path("/nonexistent/image.png", false, false, Some("png")),
        Err("Image file not found: /nonexistent/image.png".to_string())
    );
    assert!(check_image_path("/nonexistent/image.png", false, false, Some("png"))
        .unwrap_err()
        .contains("not found"));
    assert_eq!(
        check_image_path("/tmp", true, false, None),
        Err("Path is not a file: /tmp".to_string())
    );
    assert_eq!(
        check_image_path("test.bmp", true, true, Some("bmp")),
        Err("Unsupported image format: bmp".to_string())
    );
    assert!(check_image_path("test.bmp", true, true, Some("bmp"))
        .unwrap_err()
        .contains("Unsupported"));
    assert_eq!(
        check_image_path("noext", true, true, None),
        Err("Unsupported image format: ".to_string())
    );
    assert_eq!(check_image_path("a.PNG", true, true, Some("PNG")), Ok("image/png"));
    assert_eq!(check_image_path("a.JpEg", true, true, Some("JpEg")), Ok("image/jpeg"));
}

#[test]
fn mime_types_by_extension() {
    assert_eq!(mime_type("png"), Some("image/png"));
    assert_eq!(mime_type("jpg"), Some("image/jpeg"));
    assert_eq!(mime_type("jpeg"), Some("image/jpeg"));
    assert_eq!(mime_type("gif"), Some("image/gif"));
    assert_eq!(mime_type("webp"), Some("image/webp"));
    assert_eq!(mime_type("PNG"), None);
    assert_eq!(mime_type("bmp"), None);
}

#[test]
fn lowercase_and_base64() {
    assert_eq!(check_image_path("x.PnG", true, true, Some("PnG")), Ok("image/png"));
    assert_eq!(title_pattern("ÄBC"), "%äbc%");
    assert_eq!(image_from_bytes("image/gif", b"hello").url, "data:image/gif;base64,aGVsbG8=");
    assert_eq!(image_from_bytes("image/gif", b"").url, "data:image/gif;base64,");
}

#[test]
fn image_from_bytes_builds_data_url() {
    let img = image_from_bytes("image/png", b"fake png");
    assert_eq!(img.url, "data:image/png;base64,ZmFrZSBwbmc=");
    assert!(img.url.starts_with("data:image/png;base64,"));
    assert_eq!(img.detail, None);
    assert_eq!(read_failure("denied"), "Failed to read image file: denied");
}

#[test]
fn load_images_keeps_successes_in_order() {
    let loaded = vec![
        Ok(ImageContent { url: "data:a".into(), detail: None }),
        Err("Image file not found: x".to_string()),
        Ok(ImageContent { url: "data:b".into(), detail: Some("low".into()) }),
    ];
    let images = load_images_from_paths(loaded);
    assert_eq!(images.len(), 2);
    assert_eq!(images[0].url, "data:a");
    assert_eq!(images[1].url, "data:b");
    assert_eq!(images[1].detail.as_deref(), Some("low"));
    assert!(load_images_from_paths(Vec::new()).is_empty());
}

#[test]
fn roles_round_trip_through_storage() {
    for role in [Role::System, Role::User, Role::Assistant, Role::Tool] {
        assert_eq!(role_from_db(role_to_db(role)), Ok(role));
    }
    assert_eq!(role_to_db(Role::Assistant), "assistant");
    assert!(role_from_db("wizard").is_err());
}

#[test]
fn protocol_storage_names() {
    assert_eq!(protocol_to_db(ProviderProtocol::OpenAiCompatible), "openai_compatible");
    assert_eq!(protocol_from_db("openai_compatible"), ProviderProtocol::OpenAiCompatible);
    assert_eq!(protocol_from_db("anything"), ProviderProtocol::OpenAiCompatible);
}

#[test]
fn fts_queries_quote_every_word() {
    assert_eq!(fts_query(""), None);
    assert_eq!(fts_query("   \t"), None);
    assert_eq!(fts_query("rust"), Some("\"rust\"".to_string()));
    assert_eq!(fts_query("  learn   rust "), Some("\"learn\" \"rust\"".to_string()));
    assert_eq!(fts_query("say \"hi\""), Some("\"say\" \"hi\"".to_string()));
    assert_eq!(fts_query("\"\""), Some("\"\"".to_string()));
}

#[test]
fn title_patterns_are_lowercase_wildcards() {
    assert_eq!(title_pattern("Rust"), "%rust%");
    assert_eq!(title_pattern(""), "%%");
}

#[test]
fn image_loading_from_file() {
    // A minimal PNG file (1x1 pixel), as read from "test.png".
    let png_data = vec![
        0x89, 0x50, 0x4E, 0x47, 0x0D, 0x0A, 0x1A, 0x0A, // PNG signature
        0x00, 0x00, 0x00, 0x0D, 0x49, 0x48, 0x44, 0x52, // IHDR chunk
        0x00, 0x00, 0x00, 0x01, 0x00, 0x00, 0x00, 0x01, 0x08, 0x02, 0x00, 0x00, 0x00, 0x90, 0x77,
        0x53, 0xDE,
    ];
    let result = check_image_path("/tmp/test.png", true, true, Some("png"))
        .map(|mime| image_from_bytes(mime, &png_data));
    assert!(result.is_ok());
    let image = result.unwrap();
    assert!(image.url.starts_with("data:image/png;base64,"));
    assert_eq!(image.url, "data:image/png;base64,iVBORw0KGgoAAAANSUhEUgAAAAEAAAABCAIAAACQd1Pe");
}

#[test]
fn image_loading_nonexistent_file() {
    let result = check_image_path("/nonexistent/image.png", false, false, Some("png"));
    assert!(result.is_err());
    assert!(result.unwrap_err().contains("not found"));
}

#[test]
fn image_loading_unsupported_format() {
    let result = check_image_path("/tmp/test.bmp", true, true, Some("bmp"));
    assert!(result.is_err());
    assert!(result.unwrap_err().contains("Unsupported"));
}

#[test]
fn image_data_decodes_back_to_the_bytes() {
    for bytes in [&b""[..], b"a", b"ab", b"abc", b"\x00\xff\x10\x80fake png"] {
        let img = image_from_bytes("image/png", bytes);
        let data = img.url.strip_prefix("data:image/png;base64,").unwrap();
        assert_eq!(base64::engine::general_purpose::STANDARD.decode(data).unwrap(), bytes.to_vec());
    }
}
