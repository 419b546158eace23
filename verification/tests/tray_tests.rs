use fade::tray::{generate_fallback_icon, load_icon, poll_tray_events, TrayAction, FALLBACK_ICON_SIZE};

#[test]
fn menu_events_map_to_actions() {
    assert_eq!(poll_tray_events(Some("settings"), None), TrayAction::ShowSettings);
    assert_eq!(poll_tray_events(Some("pause"), Some(true)), TrayAction::TogglePause);
    assert_eq!(poll_tray_events(Some("quit"), None), TrayAction::Quit);
    assert_eq!(poll_tray_events(Some("other"), Some(true)), TrayAction::NoAction);
}

#[test]
fn icon_events_map_to_actions() {
    assert_eq!(poll_tray_events(None, Some(true)), TrayAction::ShowSettings);
    assert_eq!(poll_tray_events(None, Some(false)), TrayAction::NoAction);
    assert_eq!(poll_tray_events(None, None), TrayAction::NoAction);
}

#[test]
fn fallback_icon_is_a_solid_square() {
    let (rgba, w, h) = generate_fallback_icon();
    assert_eq!((w, h), (FALLBACK_ICON_SIZE, FALLBACK_ICON_SIZE));
    assert_eq!(rgba.len(), 32 * 32 * 4);
    assert!(rgba.chunks(4).all(|p| p == [137, 180, 250, 255]));
}

#[test]
fn undecodable_icon_falls_back() {
    let (rgba, w, h) = load_icon(b"not a png");
    assert_eq!((w, h), (32, 32));
    assert_eq!(&rgba[..4], &[137, 180, 250, 255]);
}

#[test]
fn png_icon_is_decoded_to_rgba() {
    let img = image::RgbaImage::from_fn(3, 2, |x, y| image::Rgba([x as u8, y as u8, 7, 200]));
    let mut png: Vec<u8> = Vec::new();
    img.write_to(&mut std::io::Cursor::new(&mut png), image::ImageFormat::Png).unwrap();
    let (rgba, w, h) = load_icon(&png);
    assert_eq!((w, h), (3, 2));
    assert_eq!(rgba.len(), 3 * 2 * 4);
    assert_eq!(&rgba[..8], &[0, 0, 7, 200, 1, 0, 7, 200]);
    assert_eq!(&rgba[12..16], &[0, 1, 7, 200]);
}
