use render_pipeline::renderer::resource::{
    TextureDescriptor, TextureFormat, TextureId, TextureUsages,
};
use render_pipeline::renderer::texture_manager::{
    load_texture, plan_upload, RgbaImage, TextureLookup, TextureManager, TextureManagerError,
    TextureUpload,
};

fn manifest(entries: &[(&str, &str)]) -> Vec<(String, String)> {
    entries.iter().map(|(name, path)| (name.to_string(), path.to_string())).collect()
}

fn image_descriptor(width: u32, height: u32) -> TextureDescriptor {
    TextureDescriptor {
        width,
        height,
        format: TextureFormat::Rgba8UnormSrgb,
        usage: TextureUsages { copy_dst: true, texture_binding: true, render_attachment: false },
    }
}

fn png_rgba(width: u32, height: u32, pixels: Vec<u8>) -> Vec<u8> {
    let image = image::RgbaImage::from_raw(width, height, pixels).unwrap();
    let mut out = std::io::Cursor::new(Vec::new());
    image::DynamicImage::ImageRgba8(image)
        .write_to(&mut out, image::ImageOutputFormat::Png)
        .unwrap();
    out.into_inner()
}

fn png_rgb(width: u32, height: u32, pixels: Vec<u8>) -> Vec<u8> {
    let image = image::RgbImage::from_raw(width, height, pixels).unwrap();
    let mut out = std::io::Cursor::new(Vec::new());
    image::DynamicImage::ImageRgb8(image)
        .write_to(&mut out, image::ImageOutputFormat::Png)
        .unwrap();
    out.into_inner()
}

fn not_found() -> std::io::Error {
    std::io::Error::new(std::io::ErrorKind::NotFound, "missing_file.png")
}

#[test]
fn new_cache_is_empty() {
    let manager = TextureManager::new(manifest(&[("bg", "fields/bg.png")]));
    assert_eq!(manager.len(), 0);
    assert_eq!(manager.descriptor(TextureId(0)), None);
}

#[test]
fn name_in_manifest_is_answered_with_its_path() {
    let manager =
        TextureManager::new(manifest(&[("bg", "fields/bg.png"), ("fg", "fields/fg.png")]));
    assert_eq!(
        manager.get_texture("bg").unwrap(),
        TextureLookup::Load { path: "fields/bg.png".to_string() }
    );
    assert_eq!(
        manager.get_texture("fg").unwrap(),
        TextureLookup::Load { path: "fields/fg.png".to_string() }
    );
}

#[test]
fn last_path_of_a_repeated_name_counts() {
    let manager = TextureManager::new(manifest(&[("bg", "old.png"), ("bg", "new.png")]));
    assert_eq!(
        manager.get_texture("bg").unwrap(),
        TextureLookup::Load { path: "new.png".to_string() }
    );
}

#[test]
fn missing_name_always_fails_with_name_not_in_manifest() {
    let mut manager = TextureManager::new(manifest(&[("bg", "fields/bg.png")]));
    assert!(matches!(
        manager.get_texture("missing"),
        Err(TextureManagerError::NameNotInManifest)
    ));
    manager.insert("bg", image_descriptor(2, 2)).unwrap();
    assert!(matches!(
        manager.get_texture("missing"),
        Err(TextureManagerError::NameNotInManifest)
    ));
    assert!(matches!(manager.get_texture(""), Err(TextureManagerError::NameNotInManifest)));
    let empty = TextureManager::new(vec![]);
    assert!(matches!(empty.get_texture("bg"), Err(TextureManagerError::NameNotInManifest)));
}

#[test]
fn insert_refuses_a_name_outside_the_manifest() {
    let mut manager = TextureManager::new(manifest(&[("bg", "fields/bg.png")]));
    assert!(matches!(
        manager.insert("missing", image_descriptor(1, 1)),
        Err(TextureManagerError::NameNotInManifest)
    ));
    assert_eq!(manager.len(), 0);
}

#[test]
fn second_request_returns_the_same_texture() {
    let mut manager =
        TextureManager::new(manifest(&[("bg", "fields/bg.png"), ("fg", "fields/fg.png")]));
    assert!(matches!(manager.get_texture("bg"), Ok(TextureLookup::Load { .. })));
    let id = manager.insert("bg", image_descriptor(4, 2)).unwrap();
    assert_eq!(id, TextureId(0));
    assert_eq!(manager.get_texture("bg").unwrap(), TextureLookup::Cached(id));
    assert_eq!(manager.get_texture("bg").unwrap(), TextureLookup::Cached(id));
    assert_eq!(manager.len(), 1);
    assert_eq!(manager.descriptor(id), Some(image_descriptor(4, 2)));

    let other = manager.insert("fg", image_descriptor(1, 1)).unwrap();
    assert_eq!(other, TextureId(1));
    assert_eq!(manager.get_texture("bg").unwrap(), TextureLookup::Cached(id));
    assert_eq!(manager.get_texture("fg").unwrap(), TextureLookup::Cached(other));
    assert_eq!(manager.len(), 2);
}

#[test]
fn cached_name_keeps_its_texture() {
    let mut manager = TextureManager::new(manifest(&[("bg", "fields/bg.png")]));
    let id = manager.insert("bg", image_descriptor(4, 2)).unwrap();
    let again = manager.insert("bg", image_descriptor(8, 8)).unwrap();
    assert_eq!(again, id);
    assert_eq!(manager.len(), 1);
    assert_eq!(manager.descriptor(id), Some(image_descriptor(4, 2)));
    assert_eq!(manager.descriptor(TextureId(1)), None);
}

#[test]
fn unreadable_file_is_a_file_read_error() {
    let loaded = load_texture("missing_file.png", Err(not_found()));
    match loaded {
        Err(TextureManagerError::FileReadError(e)) => {
            assert_eq!(e.kind(), std::io::ErrorKind::NotFound)
        },
        other => panic!("unexpected result: {:?}", other),
    }
}

#[test]
fn failed_load_is_not_cached_and_is_retried() {
    let mut manager = TextureManager::new(manifest(&[("bg", "missing_file.png")]));
    let path = match manager.get_texture("bg").unwrap() {
        TextureLookup::Load { path } => path,
        other => panic!("unexpected lookup: {:?}", other),
    };
    assert_eq!(path, "missing_file.png");
    assert!(matches!(
        load_texture(&path, Err(not_found())),
        Err(TextureManagerError::FileReadError(_))
    ));
    assert_eq!(manager.len(), 0);
    assert_eq!(
        manager.get_texture("bg").unwrap(),
        TextureLookup::Load { path: "missing_file.png".to_string() }
    );

    let bytes = png_rgba(1, 1, vec![9, 8, 7, 6]);
    let upload = load_texture(&path, Ok(bytes)).unwrap();
    let id = manager.insert("bg", upload.descriptor).unwrap();
    assert_eq!(manager.get_texture("bg").unwrap(), TextureLookup::Cached(id));
}

#[test]
fn decoded_image_is_uploaded_at_its_own_size() {
    let pixels: Vec<u8> = (0..24).collect();
    let bytes = png_rgba(3, 2, pixels.clone());
    assert_ne!(bytes, pixels);
    let upload = load_texture("fields/test_field.png", Ok(bytes)).unwrap();
    assert_eq!(
        upload,
        TextureUpload {
            descriptor: image_descriptor(3, 2),
            bytes_per_row: 12,
            rows_per_image: 2,
            pixels,
        }
    );
}

#[test]
fn image_without_alpha_becomes_opaque() {
    let bytes = png_rgb(2, 1, vec![10, 20, 30, 40, 50, 60]);
    let upload = load_texture("a.png", Ok(bytes)).unwrap();
    assert_eq!(upload.descriptor, image_descriptor(2, 1));
    assert_eq!(upload.bytes_per_row, 8);
    assert_eq!(upload.rows_per_image, 1);
    assert_eq!(upload.pixels, vec![10, 20, 30, 255, 40, 50, 60, 255]);
}

#[test]
fn malformed_image_is_a_decode_error() {
    let garbage = vec![0u8, 1, 2, 3, 4, 5, 6, 7];
    assert!(matches!(
        load_texture("fields/bg.png", Ok(garbage)),
        Err(TextureManagerError::ImageDecodeError(_))
    ));
    assert!(matches!(
        load_texture("fields/bg.png", Ok(vec![])),
        Err(TextureManagerError::ImageDecodeError(_))
    ));
}

#[test]
fn format_is_read_from_the_extension() {
    let bytes = png_rgba(1, 1, vec![1, 2, 3, 4]);
    assert!(load_texture("bg.PNG", Ok(bytes.clone())).is_ok());
    assert!(matches!(
        load_texture("bg.bmp", Ok(bytes.clone())),
        Err(TextureManagerError::ImageDecodeError(_))
    ));
    assert!(matches!(
        load_texture("bg", Ok(bytes.clone())),
        Err(TextureManagerError::ImageDecodeError(image::ImageError::Unsupported(_)))
    ));
    assert!(matches!(
        load_texture("bg.unknown", Ok(bytes)),
        Err(TextureManagerError::ImageDecodeError(image::ImageError::Unsupported(_)))
    ));
}

#[test]
fn decode_error_is_passed_on() {
    let error = image::ImageError::IoError(not_found());
    assert!(matches!(
        plan_upload(Err(error)),
        Err(TextureManagerError::ImageDecodeError(image::ImageError::IoError(_)))
    ));
}

#[test]
fn planned_upload_has_four_bytes_per_pixel_of_a_row() {
    let image = RgbaImage { width: 5, height: 3, pixels: vec![7; 60] };
    let upload = plan_upload(Ok(image)).unwrap();
    assert_eq!(upload.descriptor, image_descriptor(5, 3));
    assert_eq!(upload.bytes_per_row, 20);
    assert_eq!(upload.rows_per_image, 3);
    assert_eq!(upload.pixels, vec![7; 60]);
}

#[test]
fn image_without_a_side_cannot_be_uploaded() {
    for (width, height) in [(0, 0), (0, 4), (4, 0)] {
        let image = RgbaImage { width, height, pixels: vec![] };
        assert!(matches!(
            plan_upload(Ok(image)),
            Err(TextureManagerError::InvalidDimensions { width: w, height: h })
                if w == width && h == height
        ));
    }
}

#[test]
fn row_longer_than_a_stride_cannot_be_uploaded() {
    let image = RgbaImage { width: 0x4000_0000, height: 1, pixels: vec![] };
    assert!(matches!(
        plan_upload(Ok(image)),
        Err(TextureManagerError::InvalidDimensions { width: 0x4000_0000, height: 1 })
    ));
}

#[test]
fn pixel_data_of_another_size_cannot_be_uploaded() {
    for length in [0, 15, 17, 64] {
        let image = RgbaImage { width: 2, height: 2, pixels: vec![0; length] };
        assert!(matches!(
            plan_upload(Ok(image)),
            Err(TextureManagerError::InvalidDimensions { width: 2, height: 2 })
        ));
    }
    let exact = RgbaImage { width: 2, height: 2, pixels: vec![0; 16] };
    assert!(plan_upload(Ok(exact)).is_ok());
}

#[test]
fn outside_errors_convert_into_their_variants() {
    assert!(matches!(
        TextureManagerError::from(not_found()),
        TextureManagerError::FileReadError(e) if e.kind() == std::io::ErrorKind::NotFound
    ));
    let decode = image::ImageError::IoError(not_found());
    assert!(matches!(
        TextureManagerError::from(decode),
        TextureManagerError::ImageDecodeError(image::ImageError::IoError(_))
    ));
}
