use image_flipper::registry::{is_image_format, lookup, Format};

#[test]
fn lookup_accepts_every_supported_spelling() {
    for ext in ["png", "jpg", "jpeg", "webp", "bmp", "tiff", "tif", "gif", "ico"] {
        assert!(lookup(ext).is_ok(), "extension {ext} should be supported");
    }
}

#[test]
fn lookup_maps_each_spelling_to_its_format() {
    assert_eq!(lookup("png").unwrap(), Format::Png);
    assert_eq!(lookup("jpg").unwrap(), Format::Jpeg);
    assert_eq!(lookup("jpeg").unwrap(), Format::Jpeg);
    assert_eq!(lookup("webp").unwrap(), Format::WebP);
    assert_eq!(lookup("bmp").unwrap(), Format::Bmp);
    assert_eq!(lookup("tiff").unwrap(), Format::Tiff);
    assert_eq!(lookup("tif").unwrap(), Format::Tiff);
    assert_eq!(lookup("gif").unwrap(), Format::Gif);
    assert_eq!(lookup("ico").unwrap(), Format::Ico);
}

#[test]
fn jpg_and_jpeg_alias_the_same_format() {
    assert_eq!(lookup("jpg").unwrap(), lookup("jpeg").unwrap());
}

#[test]
fn tif_and_tiff_alias_the_same_format() {
    assert_eq!(lookup("tif").unwrap(), lookup("tiff").unwrap());
}

#[test]
fn lookup_rejects_unsupported_extensions() {
    for ext in ["txt", "svg", "PNG", "Jpeg", "", "pngg", "jp", "heic"] {
        let err = lookup(ext).expect_err("extension should be unsupported");
        assert_eq!(err.extension, ext);
    }
}

#[test]
fn is_image_format_recognizes_supported_extensions() {
    for ext in ["png", "jpg", "jpeg", "webp", "bmp", "tiff", "tif", "gif", "ico"] {
        assert!(is_image_format(Some(ext)));
    }
}

#[test]
fn is_image_format_rejects_others_and_none() {
    assert!(!is_image_format(Some("txt")));
    assert!(!is_image_format(Some("PNG")));
    assert!(!is_image_format(Some("")));
    assert!(!is_image_format(None));
}
