use vstd::prelude::*;
use crate::canvas::Canvas;
use crate::canvas::lemma_row_major_index_in_range;

verus! {

/// One opaque three-channel color, eight bits per channel, no alpha.
#[derive(Clone, Copy, Debug, PartialEq, Eq, Structural)]
pub struct Color {
    pub red: u8,
    pub green: u8,
    pub blue: u8,
}

/// The channel-wise integer average of two colors; odd sums truncate toward
/// zero.
pub open spec fn blend_spec(c1: Color, c2: Color) -> Color {
    Color {
        red: ((c1.red + c2.red) / 2) as u8,
        green: ((c1.green + c2.green) / 2) as u8,
        blue: ((c1.blue + c2.blue) / 2) as u8,
    }
}

/// The triple blend: the average of the first two colors, averaged with the
/// third. This nesting is deliberate; it is not the three-way mean, and it
/// weights the first pair against the third color.
pub open spec fn blend2_spec(c1: Color, c2: Color, c3: Color) -> Color {
    blend_spec(blend_spec(c1, c2), c3)
}

/// Blends two colors by averaging each channel independently.
pub fn blend(c1: &Color, c2: &Color) -> (r: Color)
    ensures
        r == blend_spec(*c1, *c2),
{
    let red = ((c1.red as u16 + c2.red as u16) / 2) as u8;
    let green = ((c1.green as u16 + c2.green as u16) / 2) as u8;
    let blue = ((c1.blue as u16 + c2.blue as u16) / 2) as u8;
    Color { red, green, blue }
}

/// Blends three colors: the first two are averaged, and that result is
/// averaged with the third.
pub fn blend2(c1: &Color, c2: &Color, c3: &Color) -> (r: Color)
    ensures
        r == blend2_spec(*c1, *c2, *c3),
        r == blend_spec(blend_spec(*c1, *c2), *c3),
{
    let c1_2 = blend(c1, c2);
    blend(&c1_2, c3)
}

/// The pairwise blend is commutative: averaging each channel does not depend
/// on the order of the two colors.
pub proof fn lemma_blend_commutative(c1: Color, c2: Color)
    ensures
        blend_spec(c1, c2) == blend_spec(c2, c1),
{
}

/// Where one circle stands on the canvas: its center and its radius, in
/// pixels.
pub struct CircleLocation {
    pub x: i32,
    pub y: i32,
    pub radius: i32,
}

/// Open-disc containment: the point lies strictly closer to the center than
/// the radius. A point exactly at distance `radius` is outside.
pub open spec fn in_disc(c: CircleLocation, x: int, y: int) -> bool {
    let dx = x - c.x;
    let dy = y - c.y;
    dx * dx + dy * dy < c.radius * c.radius
}

/// The one-pixel-wide ring drawn as the circle's border: points whose
/// distance from the center is at least the radius but less than one more.
pub open spec fn on_ring(c: CircleLocation, x: int, y: int) -> bool {
    let dx = x - c.x;
    let dy = y - c.y;
    c.radius * c.radius <= dx * dx + dy * dy < (c.radius + 1) * (c.radius + 1)
}

impl CircleLocation {
    /// Decides open-disc containment of a pixel by comparing squared
    /// distances, so no square root is needed.
    pub fn contains(&self, x: u32, y: u32) -> (r: bool)
        ensures
            r == in_disc(*self, x as int, y as int),
    {
        let dx: i64 = x as i64 - self.x as i64;
        let dy: i64 = y as i64 - self.y as i64;
        proof {
            lemma_square_bound(dx as int);
            lemma_square_bound(dy as int);
            lemma_square_bound(self.radius as int);
        }
        let d2: i128 = (dx as i128) * (dx as i128) + (dy as i128) * (dy as i128);
        d2 < (self.radius as i128) * (self.radius as i128)
    }

    /// Decides whether a pixel lies on the circle's one-pixel border ring.
    pub fn on_border(&self, x: u32, y: u32) -> (r: bool)
        ensures
            r == on_ring(*self, x as int, y as int),
    {
        let dx: i64 = x as i64 - self.x as i64;
        let dy: i64 = y as i64 - self.y as i64;
        proof {
            lemma_square_bound(dx as int);
            lemma_square_bound(dy as int);
            lemma_square_bound(self.radius as int);
            lemma_square_bound(self.radius as int + 1);
        }
        let d2: i128 = (dx as i128) * (dx as i128) + (dy as i128) * (dy as i128);
        let r2: i128 = (self.radius as i128) * (self.radius as i128);
        let next: i128 = self.radius as i128 + 1;
        r2 <= d2 && d2 < next * next
    }
}

/// The square of a number of bounded magnitude is itself bounded.
proof fn lemma_square_bound(v: int) by (nonlinear_arith)
    requires
        -0x1_0000_0000_0000 <= v <= 0x1_0000_0000_0000,
    ensures
        0 <= v * v <= 0x1_0000_0000_0000_0000_0000_0000,
{
}

/// The shared radius of the three circles: three tenths of the canvas side,
/// rounded to the nearest pixel, with halves rounding up.
pub open spec fn radius_for(height: int) -> int {
    (3 * height + 5) / 10
}

/// The first circle sits in the top left corner, touching both edges.
pub open spec fn circle_a(height: int) -> CircleLocation {
    CircleLocation {
        x: radius_for(height) as i32,
        y: radius_for(height) as i32,
        radius: radius_for(height) as i32,
    }
}

/// The second circle sits in the top right corner.
pub open spec fn circle_b(height: int) -> CircleLocation {
    CircleLocation {
        x: (height - radius_for(height)) as i32,
        y: radius_for(height) as i32,
        radius: radius_for(height) as i32,
    }
}

/// The third circle sits at the bottom, centered horizontally.
pub open spec fn circle_c(height: int) -> CircleLocation {
    CircleLocation {
        x: (height / 2) as i32,
        y: (height - radius_for(height)) as i32,
        radius: radius_for(height) as i32,
    }
}

/// Places the three circles on a square canvas of the given side length.
/// The radius is proportional to the side, so the circles overlap by the same
/// fraction of their diameter at every size; the amount is an aesthetic
/// choice, nothing formal.
pub fn palette_circle_positions(height: i32) -> (r: (CircleLocation, CircleLocation, CircleLocation))
    requires
        height >= 1,
    ensures
        r.0 == circle_a(height as int),
        r.1 == circle_b(height as int),
        r.2 == circle_c(height as int),
        r.0.radius == radius_for(height as int),
{
    proof {
        lemma_radius_for_bounds(height as int);
        vstd::arithmetic::div_mod::lemma_fundamental_div_mod(height as int, 2);
        vstd::arithmetic::div_mod::lemma_mod_bound(height as int, 2);
    }
    let radius: i32 = ((3 * height as u64 + 5) / 10) as i32;
    (
        CircleLocation { x: radius, y: radius, radius },
        CircleLocation { x: height - radius, y: radius, radius },
        CircleLocation { x: height / 2, y: height - radius, radius },
    )
}

/// Bounds on the proportional radius: it never reaches the far edge of the
/// canvas, and from a side of two pixels on it is at least one pixel.
pub proof fn lemma_radius_for_bounds(height: int)
    requires
        height >= 1,
    ensures
        0 <= radius_for(height) <= height - 1,
        height >= 2 ==> 1 <= radius_for(height),
{
    vstd::arithmetic::div_mod::lemma_fundamental_div_mod(3 * height + 5, 10);
    vstd::arithmetic::div_mod::lemma_mod_bound(3 * height + 5, 10);
}

/// For any canvas side of at least ten pixels, all three circle centers lie
/// strictly within the canvas bounds.
pub proof fn lemma_circle_centers_in_bounds(height: i32)
    requires
        height >= 10,
    ensures
        0 <= circle_a(height as int).x < height,
        0 <= circle_a(height as int).y < height,
        0 <= circle_b(height as int).x < height,
        0 <= circle_b(height as int).y < height,
        0 <= circle_c(height as int).x < height,
        0 <= circle_c(height as int).y < height,
{
    lemma_radius_for_bounds(height as int);
    vstd::arithmetic::div_mod::lemma_fundamental_div_mod(height as int, 2);
    vstd::arithmetic::div_mod::lemma_mod_bound(height as int, 2);
}

#[verifier::external_type_specification]
#[verifier::external_body]
pub struct ExDynamicImage(image::DynamicImage);

/// What a source image holds: the red, green, blue and alpha channels of each
/// of its pixels, keyed by column and row.
pub uninterp spec fn image_pixels(img: image::DynamicImage) -> Map<(int, int), (u8, u8, u8, u8)>;

/// The dominant color of an image with the given pixels: the channels read
/// from the single pixel that remains after Catmull-Rom downsampling. It is a
/// function of the pixels alone.
pub uninterp spec fn dominant_of(pixels: Map<(int, int), (u8, u8, u8, u8)>) -> (u8, u8, u8);

/// Relies on `image::DynamicImage::resize` with the Catmull-Rom filter, on
/// `DynamicImage::to_rgb8`, and on `ImageBuffer::get_pixel`: resizing an image
/// to a single pixel and reading that pixel's red, green and blue channels
/// yields a value that depends on the image's pixel contents alone. `resize`
/// returns an image of at least one pixel even for an empty input, so reading
/// pixel (0, 0) cannot fail.
#[verifier::external_body]
fn dominant_pixel(img: &image::DynamicImage) -> (rgb: (u8, u8, u8))
    ensures
        rgb == dominant_of(image_pixels(*img)),
{
    let resized = img.resize(1, 1, image::imageops::FilterType::CatmullRom);
    let pixel = resized.to_rgb8().get_pixel(0, 0).to_owned();
    (pixel.0[0], pixel.0[1], pixel.0[2])
}

/// The color built from a triple of red, green and blue channel values.
pub open spec fn color_of_channels(rgb: (u8, u8, u8)) -> Color {
    Color { red: rgb.0, green: rgb.1, blue: rgb.2 }
}

/// A source image paired with the dominant color derived from it. The image
/// is kept only for potential later reuse; the compositor consumes the color.
#[derive(Debug)]
pub struct EmojiColor {
    pub image: image::DynamicImage,
    pub color: Color,
}

impl From<image::DynamicImage> for EmojiColor {
    /// Samples the image down to its dominant color and pairs the two. Any
    /// alpha channel of the source is discarded during sampling.
    fn from(emoji_image: image::DynamicImage) -> (r: EmojiColor) {
        let (red, green, blue) = dominant_pixel(&emoji_image);
        EmojiColor { image: emoji_image, color: Color { red, green, blue } }
    }
}

impl vstd::std_specs::convert::FromSpecImpl<image::DynamicImage> for EmojiColor {
    open spec fn obeys_from_spec() -> bool {
        true
    }

    open spec fn from_spec(t: image::DynamicImage) -> EmojiColor {
        EmojiColor { image: t, color: color_of_channels(dominant_of(image_pixels(t))) }
    }
}

/// The color of one pixel after composition over three placed circles, as an
/// ordered rule list, first match wins: the black border rings are drawn on
/// top of everything; a pixel strictly inside all three discs takes the
/// triple blend; one strictly inside exactly two discs takes their pairwise
/// blend; one strictly inside a single disc takes that circle's color, where
/// a later circle would have overwritten an earlier one; all other pixels
/// keep the white background.
pub open spec fn resolved_pixel(
    ca: CircleLocation,
    cb: CircleLocation,
    cc: CircleLocation,
    c1: Color,
    c2: Color,
    c3: Color,
    x: int,
    y: int,
) -> Color {
    if on_ring(ca, x, y) || on_ring(cb, x, y) || on_ring(cc, x, y) {
        Color { red: 0, green: 0, blue: 0 }
    } else if in_disc(ca, x, y) && in_disc(cb, x, y) && in_disc(cc, x, y) {
        blend2_spec(c1, c2, c3)
    } else if in_disc(ca, x, y) && in_disc(cb, x, y) {
        blend_spec(c1, c2)
    } else if in_disc(ca, x, y) && in_disc(cc, x, y) {
        blend_spec(c1, c3)
    } else if in_disc(cb, x, y) && in_disc(cc, x, y) {
        blend_spec(c2, c3)
    } else if in_disc(cc, x, y) {
        c3
    } else if in_disc(cb, x, y) {
        c2
    } else if in_disc(ca, x, y) {
        c1
    } else {
        Color { red: 255, green: 255, blue: 255 }
    }
}

/// The color of one canvas pixel of the finished palette image.
pub open spec fn palette_pixel(height: int, c1: Color, c2: Color, c3: Color, x: int, y: int) -> Color {
    resolved_pixel(circle_a(height), circle_b(height), circle_c(height), c1, c2, c3, x, y)
}

/// The full palette image as a row-major pixel sequence.
pub open spec fn palette_view(height: int, c1: Color, c2: Color, c3: Color) -> Seq<Color> {
    Seq::new(
        (height * height) as nat,
        |i: int| palette_pixel(height, c1, c2, c3, i % height, i / height),
    )
}

/// Resolves one pixel against the three placed circles by the ordered rule
/// list.
fn resolve_pixel(
    ca: &CircleLocation,
    cb: &CircleLocation,
    cc: &CircleLocation,
    c1: &Color,
    c2: &Color,
    c3: &Color,
    x: u32,
    y: u32,
) -> (r: Color)
    ensures
        r == resolved_pixel(*ca, *cb, *cc, *c1, *c2, *c3, x as int, y as int),
{
    if ca.on_border(x, y) || cb.on_border(x, y) || cc.on_border(x, y) {
        Color { red: 0, green: 0, blue: 0 }
    } else {
        let in_a = ca.contains(x, y);
        let in_b = cb.contains(x, y);
        let in_c = cc.contains(x, y);
        if in_a && in_b && in_c {
            blend2(c1, c2, c3)
        } else if in_a && in_b {
            blend(c1, c2)
        } else if in_a && in_c {
            blend(c1, c3)
        } else if in_b && in_c {
            blend(c2, c3)
        } else if in_c {
            *c3
        } else if in_b {
            *c2
        } else if in_a {
            *c1
        } else {
            Color { red: 255, green: 255, blue: 255 }
        }
    }
}

/// Composes the palette image: a white square canvas of the given side, three
/// equal circles filled with the three dominant colors, pairwise and triple
/// blends in the overlap regions, and a black border ring over each circle.
/// The result is determined pixel for pixel by the side length and the three
/// colors.
pub fn draw_palette(
    height: u32,
    color_1: &EmojiColor,
    color_2: &EmojiColor,
    color_3: &EmojiColor,
) -> (canvas: Canvas)
    requires
        1 <= height <= i32::MAX,
        height as int * height as int <= usize::MAX as int,
    ensures
        canvas.wf(),
        canvas.spec_size() == height,
        canvas@ == palette_view(
            height as int,
            color_1.color,
            color_2.color,
            color_3.color,
        ),
        forall|x: int, y: int|
            0 <= x < height && 0 <= y < height ==> canvas.pixel(x, y) == palette_pixel(
                height as int,
                color_1.color,
                color_2.color,
                color_3.color,
                x,
                y,
            ),
{
    let ghost target = palette_view(
        height as int,
        color_1.color,
        color_2.color,
        color_3.color,
    );
    let (ca, cb, cc) = palette_circle_positions(height as i32);
    let c1 = color_1.color;
    let c2 = color_2.color;
    let c3 = color_3.color;
    let mut pixels: Vec<Color> = Vec::new();
    let mut y: u32 = 0;
    while y < height
        invariant
            y <= height,
            height >= 1,
            height as int * height as int <= usize::MAX as int,
            ca == circle_a(height as int),
            cb == circle_b(height as int),
            cc == circle_c(height as int),
            c1 == color_1.color,
            c2 == color_2.color,
            c3 == color_3.color,
            target == palette_view(height as int, c1, c2, c3),
            pixels@.len() == y * height,
            forall|j: int| 0 <= j < pixels@.len() ==> pixels@[j] == target[j],
        decreases height - y,
    {
        let mut x: u32 = 0;
        while x < height
            invariant
                y < height,
                x <= height,
                height as int * height as int <= usize::MAX as int,
                ca == circle_a(height as int),
                cb == circle_b(height as int),
                cc == circle_c(height as int),
                target == palette_view(height as int, c1, c2, c3),
                pixels@.len() == y * height + x,
                forall|j: int| 0 <= j < pixels@.len() ==> pixels@[j] == target[j],
            decreases height - x,
        {
            proof {
                lemma_row_major_index_in_range(height as int, x as int, y as int);
                vstd::arithmetic::div_mod::lemma_fundamental_div_mod_converse(
                    y as int * height as int + x as int,
                    height as int,
                    y as int,
                    x as int,
                );
            }
            let pixel = resolve_pixel(&ca, &cb, &cc, &c1, &c2, &c3, x, y);
            pixels.push(pixel);
            x = x + 1;
        }
        proof {
            vstd::arithmetic::mul::lemma_mul_is_distributive_add_other_way(
                height as int,
                y as int,
                1,
            );
        }
        y = y + 1;
    }
    proof {
        assert(pixels@ =~= target);
    }
    let canvas = Canvas::from_pixels(height, pixels);
    proof {
        assert forall|x: int, y: int| 0 <= x < height && 0 <= y < height implies canvas.pixel(
            x,
            y,
        ) == palette_pixel(height as int, c1, c2, c3, x, y) by {
            lemma_row_major_index_in_range(height as int, x, y);
            vstd::arithmetic::div_mod::lemma_fundamental_div_mod_converse(
                y * height as int + x,
                height as int,
                y,
                x,
            );
        }
    }
    canvas
}

/// Composition is deterministic: any two canvases that meet the contract of
/// `draw_palette` for the same side length and the same three colors hold
/// identical pixel content.
pub proof fn lemma_draw_palette_deterministic(
    height: u32,
    c1: Color,
    c2: Color,
    c3: Color,
    first: Canvas,
    second: Canvas,
)
    requires
        first@ == palette_view(height as int, c1, c2, c3),
        second@ == palette_view(height as int, c1, c2, c3),
    ensures
        first@ == second@,
{
}

} // verus!
