use wallpaper_engine::codec::{decode_image, encode_wallpaper, save_format, PixelBuffer, SaveFormat};
use wallpaper_engine::dispatch::{new_temp_wallpaper_path, DownloadFailure, push_decimal, temp_wallpaper_path, url_extension};
use wallpaper_engine::state::{BaseWallpaperSource, BaseWallpaperType, WallpaperState};

fn sample(width: u32, height: u32) -> PixelBuffer {
    let mut data = Vec::new();
    for i in 0..(width * height) {
        data.push((i * 7 % 256) as u8);
        data.push((i * 13 % 256) as u8);
        data.push((i * 29 % 256) as u8);
        data.push(255);
    }
    PixelBuffer::from_raw(width, height, data).unwrap()
}

#[test]
fn url_extensions() {
    assert_eq!(url_extension("http://x/y.png"), Some("png"));
    assert_eq!(url_extension("http://x/y.unknownext"), Some("unknownext"));
    assert_eq!(url_extension("http://x/y"), None);
    assert_eq!(url_extension("http://x/.hidden"), None);
    assert_eq!(url_extension("http://x/a.b.c"), Some("c"));
    assert_eq!(url_extension("http://x/.."), None);
    assert_eq!(url_extension("http://x/a.b/"), Some("b"));
    assert_eq!(url_extension("http://x/a.b//."), Some("b"));
    assert_eq!(url_extension("http://x/"), None);
}

#[test]
fn temp_path_defaults_to_jpg() {
    assert_eq!(temp_wallpaper_path(42, "http://x/y"), "/tmp/wallpaper.42.jpg");
}

#[test]
fn temp_path_keeps_url_extension() {
    assert_eq!(temp_wallpaper_path(0, "http://x/y.png"), "/tmp/wallpaper.0.png");
    assert_eq!(temp_wallpaper_path(7, "http://x/y.unknownext"), "/tmp/wallpaper.7.unknownext");
    assert_eq!(
        temp_wallpaper_path(u64::MAX, "http://x/y.jpeg"),
        "/tmp/wallpaper.18446744073709551615.jpeg"
    );
}

#[test]
fn fresh_temp_paths_have_the_convention() {
    let p = new_temp_wallpaper_path("http://x/y");
    assert!(p.starts_with("/tmp/wallpaper."));
    assert!(p.ends_with(".jpg"));
    let digits = &p["/tmp/wallpaper.".len()..p.len() - ".jpg".len()];
    assert!(digits.parse::<u64>().is_ok());
}

#[test]
fn decimal_digits() {
    let mut s = String::from("n=");
    push_decimal(&mut s, 1090);
    assert_eq!(s, "n=1090");
}

#[test]
fn save_formats_by_suffix() {
    assert_eq!(save_format("a.png"), Some(SaveFormat::Png));
    assert_eq!(save_format("a.jpg"), Some(SaveFormat::Jpeg));
    assert_eq!(save_format("a.jpeg"), Some(SaveFormat::Jpeg));
    assert_eq!(save_format("a.PNG"), None);
    assert_eq!(save_format("a.gif"), None);
}

#[test]
fn unsupported_extension_is_refused() {
    let e = encode_wallpaper(&sample(2, 2), "x.bmp").err().unwrap();
    assert_eq!(e, "Unsupported file extension: x.bmp");
}

#[test]
fn png_round_trip_is_exact() {
    let img = sample(5, 3);
    let bytes = encode_wallpaper(&img, "x.png").unwrap();
    assert_eq!(&bytes[..8], &[0x89, b'P', b'N', b'G', 0x0D, 0x0A, 0x1A, 0x0A]);
    let back = decode_image(&bytes).unwrap();
    assert_eq!(back.width(), 5);
    assert_eq!(back.height(), 3);
    assert_eq!(back.as_raw(), img.as_raw());
}

#[test]
fn jpeg_round_trip_keeps_size() {
    let img = sample(16, 9);
    let bytes = encode_wallpaper(&img, "x.jpg").unwrap();
    assert_eq!(&bytes[..2], &[0xFF, 0xD8]);
    let back = decode_image(&bytes).unwrap();
    assert_eq!(back.width(), 16);
    assert_eq!(back.height(), 9);
    let bytes = encode_wallpaper(&img, "x.jpeg").unwrap();
    assert_eq!(decode_image(&bytes).unwrap().width(), 16);
}

#[test]
fn decode_refuses_garbage() {
    assert!(decode_image(&[1, 2, 3, 4]).is_err());
}

#[test]
fn from_raw_checks_length() {
    assert!(PixelBuffer::from_raw(2, 2, vec![0; 16]).is_some());
    assert!(PixelBuffer::from_raw(2, 2, vec![0; 15]).is_none());
    let b = PixelBuffer::blank(3, 2);
    assert_eq!(b.as_raw().len(), 24);
    assert!(b.as_raw().iter().all(|&x| x == 0));
}

#[test]
fn start_up_state() {
    let s = WallpaperState::new();
    assert_eq!(s.base_wallpaper_path(), "");
    assert_eq!(s.base_wallpaper_url(), "");
    assert_eq!(s.base_wallpaper_type(), BaseWallpaperType::Path);
    let snap = s.read_snapshot();
    assert_eq!((snap.width(), snap.height()), (100, 100));
}

#[test]
fn source_kind_follows_last_setter() {
    let mut s = WallpaperState::new();
    let png = encode_wallpaper(&sample(2, 2), "a.png").unwrap();
    s.set_base_wallpaper_path("/img/a.png", Ok(png.clone())).unwrap();
    s.set_base_wallpaper_url("http://x/y.png", Ok(png.clone())).unwrap();
    assert!(matches!(s.base_source(), BaseWallpaperSource::Url(u) if u == "http://x/y.png"));
    assert_eq!(s.base_wallpaper_path(), "/img/a.png");
    s.set_base_wallpaper_path("/img/b.png", Ok(png)).unwrap();
    assert!(matches!(s.base_source(), BaseWallpaperSource::Path(p) if p == "/img/b.png"));
    assert_eq!(s.base_wallpaper_type(), BaseWallpaperType::Path);
}

#[test]
fn set_path_loads_decoded_image() {
    let mut s = WallpaperState::new();
    let png = encode_wallpaper(&sample(3, 5), "a.png").unwrap();
    assert!(s.set_base_wallpaper_path("/img/a.png", Ok(png)).is_ok());
    let snap = s.read_snapshot();
    assert_eq!((snap.width(), snap.height()), (3, 5));
    assert_eq!(snap.as_raw(), sample(3, 5).as_raw());
}

#[test]
fn set_path_errors_keep_buffer() {
    let mut s = WallpaperState::new();
    let before = s.read_snapshot();
    assert_eq!(
        s.set_base_wallpaper_path("/img/missing.png", Err("Failed to read /img/missing.png: gone".to_string())),
        Err("Failed to read /img/missing.png: gone".to_string())
    );
    assert!(s.set_base_wallpaper_path("/img/bad.png", Ok(vec![1, 2, 3])).is_err());
    assert_eq!(s.read_snapshot().as_raw(), before.as_raw());
    assert_eq!(s.base_wallpaper_path(), "/img/bad.png");
}

#[test]
fn set_url_loads_or_reports() {
    let mut s = WallpaperState::new();
    let e = s
        .set_base_wallpaper_url("http://x/y.png", Err(DownloadFailure::Request("timeout".to_string())))
        .err()
        .unwrap();
    assert_eq!(e, "Failed to download image: timeout");
    assert_eq!(s.read_snapshot().width(), 100);
    let jpg = encode_wallpaper(&sample(8, 4), "a.jpg").unwrap();
    s.set_base_wallpaper_url("http://x/y.jpg", Ok(jpg)).unwrap();
    assert_eq!((s.read_snapshot().width(), s.read_snapshot().height()), (8, 4));
    assert_eq!(s.base_wallpaper_type(), BaseWallpaperType::Url);
}

#[test]
fn failed_load_keeps_buffer() {
    let mut s = WallpaperState::new();
    s.replace(sample(4, 4));
    assert!(s.load_wallpaper(&[0, 1, 2]).is_err());
    assert_eq!(s.read_snapshot().as_raw(), sample(4, 4).as_raw());
}

#[test]
fn successful_load_replaces_buffer() {
    let mut s = WallpaperState::new();
    let bytes = encode_wallpaper(&sample(6, 2), "a.png").unwrap();
    s.load_wallpaper(&bytes).unwrap();
    let snap = s.read_snapshot();
    assert_eq!((snap.width(), snap.height()), (6, 2));
    assert_eq!(snap.as_raw(), sample(6, 2).as_raw());
}

fn paint(b: &PixelBuffer, index: usize, value: u8) -> PixelBuffer {
    let mut data = b.as_raw().clone();
    data[index] = value;
    PixelBuffer::from_raw(b.width(), b.height(), data).unwrap()
}

#[test]
fn two_edits_apply_in_sequence() {
    let mut s = WallpaperState::new();
    s.with_mutable(|b| paint(b, 0, 10));
    s.with_mutable(|b| paint(b, 4, 20));
    let snap = s.read_snapshot();
    assert_eq!(snap.as_raw()[0], 10);
    assert_eq!(snap.as_raw()[4], 20);
    assert_eq!(snap.as_raw().iter().filter(|&&x| x != 0).count(), 2);
}

#[test]
fn edit_then_encode_for_base_path() {
    let mut s = WallpaperState::new();
    let png = encode_wallpaper(&sample(4, 4), "a.png").unwrap();
    s.set_base_wallpaper_path("/img/a.png", Ok(png)).unwrap();
    let edited = paint(&s.read_snapshot(), 3, 255);
    let bytes = s.encode_edit(&edited).unwrap();
    assert_eq!(decode_image(&bytes).unwrap().as_raw(), edited.as_raw());
    s.commit_edit(edited, Ok(())).unwrap();
    assert_eq!(s.read_snapshot().as_raw()[3], 255);
}

#[test]
fn encode_edit_refuses_unsupported_extension() {
    let mut s = WallpaperState::new();
    let _ = s.set_base_wallpaper_path("/img/a.gif", Err("not read".to_string()));
    let edited = paint(&s.read_snapshot(), 0, 9);
    assert_eq!(s.encode_edit(&edited).err().unwrap(), "Unsupported file extension: /img/a.gif");
}

#[test]
fn failed_write_keeps_buffer() {
    let mut s = WallpaperState::new();
    let before = s.read_snapshot();
    let edited = paint(&before, 0, 9);
    assert_eq!(
        s.commit_edit(edited, Err("read-only file system".to_string())).err().unwrap(),
        "Failed to create file: read-only file system"
    );
    assert_eq!(s.read_snapshot().as_raw(), before.as_raw());
}

#[test]
fn empty_image_is_refused_by_encoders() {
    let empty = PixelBuffer::from_raw(0, 3, vec![]).unwrap();
    assert!(encode_wallpaper(&empty, "x.png").err().unwrap().starts_with("Failed to write PNG header: "));
    assert!(encode_wallpaper(&empty, "x.jpg").err().unwrap().starts_with("Failed to encode JPEG image: "));
}

#[test]
fn oversized_image_is_refused_for_jpeg() {
    let wide = PixelBuffer::blank(65536, 1);
    assert_eq!(
        encode_wallpaper(&wide, "x.jpeg").err().unwrap(),
        "Failed to encode JPEG image: dimensions exceed 65535"
    );
    assert!(encode_wallpaper(&wide, "x.png").is_ok());
}

#[test]
fn temp_path_for_directory_like_url() {
    assert_eq!(temp_wallpaper_path(3, "http://x/a.b/"), "/tmp/wallpaper.3.b");
}
