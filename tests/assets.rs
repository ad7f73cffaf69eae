use airstrike::assets::{AssetDecodeError, AssetRegistry, FontHandle, ImageHandle};

fn png_bytes(width: u32, height: u32) -> Vec<u8> {
    let img = image::DynamicImage::ImageRgba8(image::RgbaImage::new(width, height));
    let mut out = std::io::Cursor::new(Vec::new());
    img.write_to(&mut out, image::ImageFormat::Png).unwrap();
    out.into_inner()
}

fn put_u16(v: &mut Vec<u8>, at: usize, x: u16) {
    v[at..at + 2].copy_from_slice(&x.to_be_bytes());
}

fn put_u32(v: &mut Vec<u8>, at: usize, x: u32) {
    v[at..at + 4].copy_from_slice(&x.to_be_bytes());
}

/// A TrueType file with just the head, hhea and maxp tables.
fn font_bytes() -> Vec<u8> {
    let mut v = vec![0u8; 156];
    put_u32(&mut v, 0, 0x0001_0000);
    put_u16(&mut v, 4, 3);
    let tables: [(&[u8; 4], u32, u32); 3] = [(b"head", 60, 54), (b"hhea", 114, 36), (b"maxp", 150, 6)];
    for (i, (tag, offset, length)) in tables.iter().enumerate() {
        let at = 12 + 16 * i;
        v[at..at + 4].copy_from_slice(*tag);
        put_u32(&mut v, at + 8, *offset);
        put_u32(&mut v, at + 12, *length);
    }
    put_u16(&mut v, 60 + 18, 1000);
    put_u32(&mut v, 150, 0x0000_5000);
    put_u16(&mut v, 154, 1);
    v
}

#[test]
fn registry_starts_empty() {
    let r = AssetRegistry::new(4);
    assert_eq!(r.id(), 4);
    assert_eq!(r.image_len(), 0);
    assert_eq!(r.font_len(), 0);
}

#[test]
fn add_image_decodes_png() {
    let mut r = AssetRegistry::new(1);
    let h = r.add_image(&png_bytes(3, 2)).unwrap();
    assert_eq!(h, ImageHandle { registry: 1, index: 0 });
    assert_eq!(r.image_len(), 1);
    assert_eq!(r.image(h).width(), 3);
    assert_eq!(r.image(h).height(), 2);
}

#[test]
fn earlier_images_stay_under_their_handles() {
    let mut r = AssetRegistry::new(1);
    let small = r.add_image(&png_bytes(1, 1)).unwrap();
    let wide = r.add_image(&png_bytes(5, 1)).unwrap();
    assert_eq!(r.add_image(&[]), Err(AssetDecodeError::Image));
    assert_eq!(r.image(small).width(), 1);
    assert_eq!(r.image(wide).width(), 5);
}

#[test]
fn same_image_twice_gives_two_handles() {
    let mut r = AssetRegistry::new(1);
    let bytes = png_bytes(2, 2);
    let h1 = r.add_image(&bytes).unwrap();
    let h2 = r.add_image(&bytes).unwrap();
    assert_ne!(h1, h2);
    assert_eq!(h2, ImageHandle { registry: 1, index: 1 });
    assert_eq!(r.image_len(), 2);
}

#[test]
fn empty_image_bytes_fail_and_leave_registry() {
    let mut r = AssetRegistry::new(1);
    r.add_image(&png_bytes(1, 1)).unwrap();
    assert_eq!(r.add_image(&[]), Err(AssetDecodeError::Image));
    assert_eq!(r.image_len(), 1);
    assert_eq!(r.font_len(), 0);
}

#[test]
fn garbage_image_bytes_fail() {
    let mut r = AssetRegistry::new(1);
    assert_eq!(r.add_image(b"not an image at all"), Err(AssetDecodeError::Image));
    let mut truncated = png_bytes(4, 4);
    truncated.truncate(20);
    assert_eq!(r.add_image(&truncated), Err(AssetDecodeError::Image));
    assert_eq!(r.image_len(), 0);
}

#[test]
fn add_font_keeps_bytes() {
    let mut r = AssetRegistry::new(9);
    let bytes = font_bytes();
    let h = r.add_font(&bytes).unwrap();
    assert_eq!(h, FontHandle { registry: 9, index: 0 });
    assert_eq!(r.font_len(), 1);
    assert_eq!(r.font_data(h), &bytes[..]);
}

#[test]
fn same_font_twice_gives_two_handles() {
    let mut r = AssetRegistry::new(9);
    let bytes = font_bytes();
    let h1 = r.add_font(&bytes).unwrap();
    let h2 = r.add_font(&bytes).unwrap();
    assert_ne!(h1, h2);
    assert_eq!(r.font_len(), 2);
    assert_eq!(r.font_data(h1), r.font_data(h2));
}

#[test]
fn bad_font_bytes_fail_and_leave_registry() {
    let mut r = AssetRegistry::new(9);
    assert_eq!(r.add_font(&[]), Err(AssetDecodeError::Font));
    assert_eq!(r.add_font(&png_bytes(1, 1)), Err(AssetDecodeError::Font));
    assert_eq!(r.font_len(), 0);
    assert_eq!(r.image_len(), 0);
}

#[test]
fn handles_keep_their_registry_id() {
    let mut a = AssetRegistry::new(1);
    let mut b = AssetRegistry::new(2);
    let bytes = png_bytes(1, 1);
    let ha = a.add_image(&bytes).unwrap();
    let hb = b.add_image(&bytes).unwrap();
    assert_eq!(ha.index, hb.index);
    assert_ne!(ha, hb);
}
