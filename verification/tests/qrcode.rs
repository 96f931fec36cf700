use walle_q::qrcode::{qrcode2str, render_qrcode, try_qrcode2str, LumaImage};

fn png(width: u32, height: u32, f: impl Fn(u32, u32) -> u8) -> Vec<u8> {
    let img = image::GrayImage::from_fn(width, height, |x, y| image::Luma([f(x, y)]));
    let mut out = std::io::Cursor::new(Vec::new());
    img.write_to(&mut out, image::ImageFormat::Png).unwrap();
    out.into_inner()
}

#[test]
fn black_image_is_all_full_blocks() {
    let data = png(132, 132, |_, _| 0);
    let s = qrcode2str(&data);
    let lines: Vec<&str> = s.split('\n').collect();
    assert_eq!(lines.len(), 23);
    assert_eq!(lines[0], "█".repeat(44));
    assert_eq!(lines[22], "");
}

#[test]
fn halves_follow_the_two_samples() {
    let img = LumaImage {
        width: 130,
        height: 130,
        pixels: (0..130u32 * 130).map(|i| if (i / 130) % 6 < 3 { 255 } else { 0 }).collect(),
    };
    let s = render_qrcode(&img);
    assert!(s.starts_with("▄▄"));
    let img = LumaImage { width: 130, height: 130, pixels: vec![255; 130 * 130] };
    assert!(render_qrcode(&img).starts_with("  "));
}

#[test]
fn small_or_broken_images_give_nothing() {
    assert!(try_qrcode2str(b"not a png").is_none());
    assert!(try_qrcode2str(&png(10, 10, |_, _| 0)).is_none());
    assert!(try_qrcode2str(&png(140, 140, |x, _| if x % 2 == 0 { 0 } else { 255 })).is_some());
}
