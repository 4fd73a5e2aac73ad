use emoji_palette::canvas::Canvas;
use emoji_palette::drawing::{
    blend, blend2, draw_palette, palette_circle_positions, CircleLocation, Color, EmojiColor,
};

fn rgb(red: u8, green: u8, blue: u8) -> Color {
    Color { red, green, blue }
}

fn emoji_color(c: Color) -> EmojiColor {
    EmojiColor { image: image::DynamicImage::new_rgb8(1, 1), color: c }
}

fn pixels_equal(a: &Canvas, b: &Canvas) -> bool {
    if a.size() != b.size() {
        return false;
    }
    for y in 0..a.size() {
        for x in 0..a.size() {
            if a.get_pixel(x, y) != b.get_pixel(x, y) {
                return false;
            }
        }
    }
    true
}

#[test]
fn draw_palette_is_deterministic() {
    let c1 = emoji_color(rgb(200, 10, 40));
    let c2 = emoji_color(rgb(0, 255, 17));
    let c3 = emoji_color(rgb(90, 90, 200));
    let first = draw_palette(100, &c1, &c2, &c3);
    let second = draw_palette(100, &c1, &c2, &c3);
    assert!(pixels_equal(&first, &second));
}

#[test]
fn blend_is_commutative() {
    let pairs = [
        (rgb(0, 0, 0), rgb(255, 255, 255)),
        (rgb(1, 2, 3), rgb(10, 21, 32)),
        (rgb(255, 0, 128), rgb(0, 255, 127)),
        (rgb(7, 7, 7), rgb(8, 8, 8)),
    ];
    for (a, b) in pairs {
        assert_eq!(blend(&a, &b), blend(&b, &a));
    }
}

#[test]
fn blend_truncates_odd_sums() {
    // 1 + 2 == 3, and 3 / 2 truncates to 1.
    assert_eq!(blend(&rgb(1, 0, 255), &rgb(2, 0, 254)), rgb(1, 0, 254));
    assert_eq!(blend(&rgb(255, 255, 255), &rgb(0, 0, 0)), rgb(127, 127, 127));
}

#[test]
fn triple_blend_is_nested_and_order_sensitive() {
    let red = rgb(255, 0, 0);
    let green = rgb(0, 255, 0);
    let blue = rgb(0, 0, 255);
    // The triple blend averages the first two colors, then averages with the
    // third.
    assert_eq!(blend2(&red, &green, &blue), blend(&blend(&red, &green), &blue));
    assert_eq!(blend2(&red, &green, &blue), rgb(63, 63, 127));
    // Swapping the third color into the first pair changes the result.
    assert_ne!(blend2(&red, &green, &blue), blend2(&red, &blue, &green));
}

#[test]
fn containment_is_an_open_disc() {
    let circle = CircleLocation { x: 50, y: 50, radius: 10 };
    // Exactly at distance == radius: outside.
    assert!(!circle.contains(60, 50));
    assert!(!circle.contains(50, 40));
    // One pixel closer: inside.
    assert!(circle.contains(59, 50));
    assert!(circle.contains(50, 41));
    // The boundary pixel lies on the border ring instead.
    assert!(circle.on_border(60, 50));
    assert!(!circle.on_border(59, 50));
}

#[test]
fn geometry_scales_with_size() {
    // radius == size * 0.3, rounded to the nearest pixel.
    let (a, b, c) = palette_circle_positions(1000);
    assert_eq!(a.radius, 300);
    assert_eq!(b.radius, 300);
    assert_eq!(c.radius, 300);
    assert_eq!((a.x, a.y), (300, 300));
    assert_eq!((b.x, b.y), (700, 300));
    assert_eq!((c.x, c.y), (500, 700));

    let (a, b, c) = palette_circle_positions(10);
    assert_eq!(a.radius, 3);
    // All centers lie within the canvas at the minimal size.
    for center in [(a.x, a.y), (b.x, b.y), (c.x, c.y)] {
        assert!(0 <= center.0 && center.0 < 10);
        assert!(0 <= center.1 && center.1 < 10);
    }

    // Rounding goes to the nearest pixel: 5 * 0.3 == 1.5 rounds up.
    let (a, _, _) = palette_circle_positions(5);
    assert_eq!(a.radius, 2);
}

#[test]
fn centroid_takes_the_triple_blend() {
    let red = rgb(255, 0, 0);
    let green = rgb(0, 255, 0);
    let blue = rgb(0, 0, 255);
    let canvas = draw_palette(100, &emoji_color(red), &emoji_color(green), &emoji_color(blue));
    let centroid = canvas.get_pixel(50, 50);
    assert_eq!(centroid, blend2(&red, &green, &blue));
    assert_ne!(centroid, blend(&red, &green));
    assert_ne!(centroid, blend(&red, &blue));
    assert_ne!(centroid, blend(&green, &blue));
}

#[test]
fn minimal_canvas_has_white_corner() {
    let canvas = draw_palette(
        10,
        &emoji_color(rgb(1, 2, 3)),
        &emoji_color(rgb(4, 5, 6)),
        &emoji_color(rgb(7, 8, 9)),
    );
    assert_eq!(canvas.size(), 10);
    // The bottom right corner lies outside all discs and rings, so the white
    // background shows through.
    assert_eq!(canvas.get_pixel(9, 9), rgb(255, 255, 255));
}
