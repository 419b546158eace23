//! Tray decisions: which menu or icon event means what, and the tray icon's pixels.
use vstd::prelude::*;
use crate::text::str_eq;

verus! {

/// What a tray event asks the program to do.
#[derive(Clone, Copy, Debug, PartialEq, Eq, Structural)]
pub enum TrayAction {
    ShowSettings,
    TogglePause,
    Quit,
    NoAction,
}

/// Menu item id of "Settings...".
pub const MENU_SETTINGS: &'static str = "settings";

/// Menu item id of "Paused".
pub const MENU_PAUSE: &'static str = "pause";

/// Menu item id of "Quit Fade".
pub const MENU_QUIT: &'static str = "quit";

/// The action of a menu item id.
pub open spec fn spec_action_for_menu_id(id: Seq<char>) -> TrayAction {
    if id == "settings"@ {
        TrayAction::ShowSettings
    } else if id == "pause"@ {
        TrayAction::TogglePause
    } else if id == "quit"@ {
        TrayAction::Quit
    } else {
        TrayAction::NoAction
    }
}

/// The action of the pending tray events: a menu event (by its item id) wins over an
/// icon event; double-clicking the icon opens the settings; anything else does
/// nothing.
pub open spec fn spec_poll_tray_events(menu_id: Option<Seq<char>>, icon_double_click: Option<bool>) -> TrayAction {
    match menu_id {
        Some(id) => spec_action_for_menu_id(id),
        None => match icon_double_click {
            Some(true) => TrayAction::ShowSettings,
            _ => TrayAction::NoAction,
        },
    }
}

/// Decide what the pending tray events ask for. `menu_id` is the id of a pending menu
/// event, `icon_double_click` tells whether a pending icon event is a double click.
pub fn poll_tray_events(menu_id: Option<&str>, icon_double_click: Option<bool>) -> (r: TrayAction)
    ensures
        r == spec_poll_tray_events(
            match menu_id {
                Some(s) => Some(s@),
                None => None,
            },
            icon_double_click,
        ),
{
    match menu_id {
        Some(id) => {
            if str_eq(id, "settings") {
                TrayAction::ShowSettings
            } else if str_eq(id, "pause") {
                TrayAction::TogglePause
            } else if str_eq(id, "quit") {
                TrayAction::Quit
            } else {
                TrayAction::NoAction
            }
        },
        None => match icon_double_click {
            Some(true) => TrayAction::ShowSettings,
            _ => TrayAction::NoAction,
        },
    }
}

/// Side of the fallback icon, in pixels.
pub const FALLBACK_ICON_SIZE: u32 = 32;

/// The fallback icon: a square of solid #89b4fa, fully opaque, as RGBA bytes.
pub open spec fn is_fallback_icon(rgba: Seq<u8>, w: u32, h: u32) -> bool {
    &&& w == FALLBACK_ICON_SIZE
    &&& h == FALLBACK_ICON_SIZE
    &&& rgba.len() == 32 * 32 * 4
    &&& forall|i: int|
        0 <= i < 32 * 32 ==> #[trigger] rgba[i * 4] == 137 && rgba[i * 4 + 1] == 180 && rgba[i * 4 + 2]
            == 250 && rgba[i * 4 + 3] == 255
}

/// Simple solid color square as RGBA bytes, used when the icon image cannot be
/// decoded.
pub fn generate_fallback_icon() -> (r: (Vec<u8>, u32, u32))
    ensures
        is_fallback_icon(r.0@, r.1, r.2),
{
    let size: u32 = FALLBACK_ICON_SIZE;
    let mut rgba: Vec<u8> = Vec::new();
    let mut i: usize = 0;
    while i < 32 * 32
        invariant
            i <= 32 * 32,
            rgba@.len() == i * 4,
            forall|j: int|
                0 <= j < i ==> #[trigger] rgba@[j * 4] == 137 && rgba@[j * 4 + 1] == 180 && rgba@[j * 4
                    + 2] == 250 && rgba@[j * 4 + 3] == 255,
        decreases 32 * 32 - i,
    {
        let ghost before = rgba@;
        rgba.push(137);
        rgba.push(180);
        rgba.push(250);
        rgba.push(255);
        proof {
            assert forall|j: int| 0 <= j < i + 1 implies #[trigger] rgba@[j * 4] == 137 && rgba@[j * 4
                + 1] == 180 && rgba@[j * 4 + 2] == 250 && rgba@[j * 4 + 3] == 255 by {
                if j < i {
                    assert(rgba@[j * 4] == before[j * 4]);
                    assert(rgba@[j * 4 + 1] == before[j * 4 + 1]);
                    assert(rgba@[j * 4 + 2] == before[j * 4 + 2]);
                    assert(rgba@[j * 4 + 3] == before[j * 4 + 3]);
                }
            }
        }
        i = i + 1;
    }
    assert(rgba@.len() == 32 * 32 * 4);
    assert(is_fallback_icon(rgba@, size, size));
    (rgba, size, size)
}

/// The RGBA pixels, width and height of a PNG image, as decoded by the `image` crate
/// (`None` when the bytes are not a decodable PNG).
pub uninterp spec fn png_rgba(bytes: Seq<u8>) -> Option<(Seq<u8>, u32, u32)>;

#[verifier::external_type_specification]
#[verifier::external_body]
pub struct ExImageError(image::ImageError);

/// Calls `image::load_from_memory_with_format` with the PNG format, then
/// `DynamicImage::to_rgba8` and `ImageBuffer::into_raw`. The contract claims only
/// that the outcome is the decoding named `png_rgba`, a function of the bytes alone.
#[verifier::external_body]
fn decode_png_rgba(bytes: &[u8]) -> (r: Result<(Vec<u8>, u32, u32), image::ImageError>)
    ensures
        match r {
            Ok((v, w, h)) => png_rgba(bytes@) == Some((v@, w, h)),
            Err(_) => png_rgba(bytes@) is None,
        },
{
    match image::load_from_memory_with_format(bytes, image::ImageFormat::Png) {
        Ok(img) => {
            let rgba = img.to_rgba8();
            let w = rgba.width();
            let h = rgba.height();
            Ok((rgba.into_raw(), w, h))
        },
        Err(e) => Err(e),
    }
}

/// The tray icon from PNG bytes as RGBA bytes with width and height, or the fallback
/// square when the bytes cannot be decoded.
pub fn load_icon(png: &[u8]) -> (r: (Vec<u8>, u32, u32))
    ensures
        match png_rgba(png@) {
            Some((v, w, h)) => r.0@ == v && r.1 == w && r.2 == h,
            None => is_fallback_icon(r.0@, r.1, r.2),
        },
{
    match decode_png_rgba(png) {
        Ok(t) => t,
        Err(_) => generate_fallback_icon(),
    }
}

} // verus!
