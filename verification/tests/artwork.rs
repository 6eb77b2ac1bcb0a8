use aurelia_tui::artwork::{cover_crop, cover_resize, cover_resize_checked, load_picture, poll, select, ImageKind, RgbaImage};
use aurelia_tui::aurelia::LibraryGameJson;
use aurelia_tui::game::Game;

fn img(w: u32, h: u32) -> RgbaImage {
    RgbaImage { buffer: image::ImageBuffer::from_pixel(w, h, image::Rgba([10, 20, 30, 255])) }
}

fn dims(i: &RgbaImage) -> (u32, u32) {
    (i.buffer.width(), i.buffer.height())
}

#[test]
fn cover_resize_fills_exact_target_dimensions() {
    let out = cover_resize(&img(200, 100), 20, 40);
    assert_eq!(dims(&out), (20, 40));
    let out = cover_resize(&img(100, 200), 40, 20);
    assert_eq!(dims(&out), (40, 20));
    let out = cover_resize(&img(80, 160), 10, 20);
    assert_eq!(dims(&out), (10, 20));
}

#[test]
fn cover_resize_returns_clone_on_degenerate_input() {
    let zero = RgbaImage { buffer: image::ImageBuffer::<image::Rgba<u8>, Vec<u8>>::new(0, 0) };
    let out = cover_resize(&zero, 10, 10);
    assert_eq!(dims(&out), (0, 0));
}

#[test]
fn cover_crop_centres_the_kept_part() {
    // A wide source keeps its height and crops its sides.
    assert_eq!(cover_crop(200, 100, 20, 40), (75, 0, 50, 100));
    // A tall source keeps its width and crops top and bottom.
    assert_eq!(cover_crop(100, 200, 40, 20), (0, 75, 100, 50));
    // Already the target's aspect: nothing is cropped.
    assert_eq!(cover_crop(80, 160, 10, 20), (0, 0, 80, 160));
    // The kept part never shrinks below one pixel.
    assert_eq!(cover_crop(1000, 1, 1, 1000), (499, 0, 1, 1));
}

#[test]
fn cover_resize_checked_scales_small_images() {
    let out = cover_resize_checked(&img(30, 10), 6, 6).expect("fits");
    assert_eq!(dims(&out), (6, 6));
}

#[test]
fn image_kinds_cache_under_their_own_names() {
    assert_eq!(ImageKind::Background.suffix(), "");
    assert_eq!(ImageKind::Cover.suffix(), "_cover");
    let mut g = Game::from_library(LibraryGameJson {
        app_id: 7,
        name: "Seven".to_string(),
        is_installed: false,
        install_path: None,
        update_available: false,
        is_owned: true,
        is_family_shared: false,
        platform: None,
        active_branch: None,
        assets: None,
        store_url: None,
    });
    g.icon_url = Some("https://example.invalid/bg.jpg".to_string());
    g.cover_url = None;
    assert_eq!(ImageKind::Background.url(&g), Some("https://example.invalid/bg.jpg".to_string()));
    assert_eq!(ImageKind::Cover.url(&g), None);
}

#[test]
fn a_late_picture_for_another_game_is_dropped() {
    let mut requested: Option<i32> = None;
    let mut shown: Option<u8> = Some(9);
    assert!(select(Some(1), &mut requested, &mut shown));
    assert_eq!(requested, Some(1));
    assert_eq!(shown, None);
    // Selecting the same game again does nothing.
    assert!(!select(Some(1), &mut requested, &mut shown));
    // A picture for game 2 arrives: not the one asked for.
    poll(requested, &mut shown, Some((2, 5u8)));
    assert_eq!(shown, None);
    // The picture for game 1 is adopted.
    poll(requested, &mut shown, Some((1, 7u8)));
    assert_eq!(shown, Some(7));
    // Deselecting clears the pane and needs no load.
    assert!(!select(None, &mut requested, &mut shown));
    assert_eq!(shown, None);
}

#[test]
fn pictures_decode_from_their_bytes() {
    let mut png = std::io::Cursor::new(Vec::new());
    img(3, 2).buffer.write_to(&mut png, image::ImageOutputFormat::Png).unwrap();
    let decoded = load_picture(png.get_ref()).expect("a png decodes");
    assert_eq!(dims(&decoded), (3, 2));
    assert_eq!(decoded.buffer.get_pixel(1, 1), &image::Rgba([10, 20, 30, 255]));
    assert!(load_picture(b"not a picture").is_none());
    assert!(load_picture(&[]).is_none());
}
