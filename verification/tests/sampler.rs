use emoji_palette::drawing::{blend, blend2, draw_palette, Color, EmojiColor};
use image::{DynamicImage, Rgb, RgbImage};

fn solid_image(width: u32, height: u32, red: u8, green: u8, blue: u8) -> DynamicImage {
    DynamicImage::ImageRgb8(RgbImage::from_pixel(width, height, Rgb([red, green, blue])))
}

#[test]
fn solid_image_reduces_to_its_color() {
    let sampled = EmojiColor::from(solid_image(10, 10, 10, 20, 30));
    assert_eq!(sampled.color, Color { red: 10, green: 20, blue: 30 });
}

#[test]
fn end_to_end_palette_from_solid_sources() {
    let red = EmojiColor::from(solid_image(50, 50, 255, 0, 0));
    let green = EmojiColor::from(solid_image(50, 50, 0, 255, 0));
    let blue = EmojiColor::from(solid_image(50, 50, 0, 0, 255));
    assert_eq!(red.color, Color { red: 255, green: 0, blue: 0 });
    assert_eq!(green.color, Color { red: 0, green: 255, blue: 0 });
    assert_eq!(blue.color, Color { red: 0, green: 0, blue: 255 });

    let canvas = draw_palette(300, &red, &green, &blue);
    assert_eq!(canvas.size(), 300);

    // With size 300 the radius is 90; the centers are (90, 90), (210, 90)
    // and (150, 210). Each circle's own center shows that circle's pure
    // color.
    assert_eq!(canvas.get_pixel(90, 90), red.color);
    assert_eq!(canvas.get_pixel(210, 90), green.color);
    assert_eq!(canvas.get_pixel(150, 210), blue.color);

    // Pixels at exactly the radius from a center lie on the black border
    // ring, which is drawn over everything.
    let black = Color { red: 0, green: 0, blue: 0 };
    assert_eq!(canvas.get_pixel(90, 0), black);
    assert_eq!(canvas.get_pixel(0, 90), black);
    assert_eq!(canvas.get_pixel(210, 0), black);
    assert_eq!(canvas.get_pixel(150, 120), black);

    // The midpoint between the two upper centers takes their pairwise blend.
    assert_eq!(canvas.get_pixel(150, 90), blend(&red.color, &green.color));

    // The canvas centroid lies in all three discs and takes the triple
    // blend.
    assert_eq!(canvas.get_pixel(150, 150), blend2(&red.color, &green.color, &blue.color));
}
