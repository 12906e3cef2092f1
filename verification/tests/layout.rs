use badapple_demo::display::{color_code, message_anchor, message_style, raw_image_height, rgb565, Color, SPLASH_WIDTH};
use badapple_demo::geometry::{centered_top_left, full_screen_rect, Dimensions, Point};

#[test]
fn mascot_centered_on_lcd() {
    let screen = Dimensions { width: 160, height: 80 };
    let mascot = Dimensions { width: 86, height: 64 };
    let p = centered_top_left(screen, mascot);
    assert_eq!(p, Point { x: 37, y: 8 });
}

#[test]
fn centering_a_full_screen_image_lands_at_origin() {
    let screen = Dimensions { width: 160, height: 80 };
    let p = centered_top_left(screen, screen);
    assert_eq!(p, Point { x: 0, y: 0 });
}

#[test]
fn oversized_image_centers_off_screen() {
    let screen = Dimensions { width: 160, height: 80 };
    let image = Dimensions { width: 200, height: 100 };
    let p = centered_top_left(screen, image);
    assert_eq!(p, Point { x: -20, y: -10 });
}

#[test]
fn clear_rectangle_covers_the_screen() {
    let screen = Dimensions { width: 160, height: 80 };
    let r = full_screen_rect(screen);
    assert_eq!(r.top_left, Point { x: 0, y: 0 });
    assert_eq!(r.size, screen);
}

#[test]
fn color_codes() {
    assert_eq!(color_code(Color::Black), 0x0000);
    assert_eq!(color_code(Color::Green), 0x07E0);
}

#[test]
fn rgb565_packs_channels() {
    assert_eq!(rgb565(31, 63, 31), 0xFFFF);
    assert_eq!(rgb565(31, 0, 0), 0xF800);
    assert_eq!(rgb565(0, 0, 31), 0x001F);
    assert_eq!(rgb565(1, 1, 1), 0x0821);
}

#[test]
fn message_look() {
    let s = message_style();
    assert_eq!(s.glyph_width, 8);
    assert_eq!(s.glyph_height, 13);
    assert_eq!(s.text_color, Color::Black);
    assert_eq!(s.background, Color::Green);
    assert_eq!(message_anchor(), Point { x: 40, y: 35 });
}

#[test]
fn mascot_rows_from_byte_count() {
    assert_eq!(raw_image_height(11008, SPLASH_WIDTH as usize), 64);
}

#[test]
fn raw_image_height_drops_a_partial_row() {
    assert_eq!(raw_image_height(25600, 160), 80);
    assert_eq!(raw_image_height(25601, 160), 80);
    assert_eq!(raw_image_height(319, 160), 0);
}
