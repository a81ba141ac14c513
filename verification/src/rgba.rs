//! RGBA pictures: construction, overlaying, texture readback and PNG encoding.
use image::ImageEncoder;
use vstd::arithmetic::div_mod::*;
use vstd::arithmetic::mul::*;
use vstd::prelude::*;

verus! {

/// One pixel, with straight alpha.
#[derive(Clone, Copy, Debug, PartialEq, Eq, Structural)]
pub struct Rgba {
    pub r: u8,
    pub g: u8,
    pub b: u8,
    pub a: u8,
}

impl Rgba {
    /// Red, green, blue and alpha.
    pub open spec fn channels(self) -> (u8, u8, u8, u8) {
        (self.r, self.g, self.b, self.a)
    }
}

/// A picture of eight bits per channel: rows from top to bottom, pixels from left to right, the
/// four channels of a pixel in the order red, green, blue, alpha.
#[derive(Debug, PartialEq, Eq)]
pub struct RgbaFrame {
    pub width: u32,
    pub height: u32,
    pub data: Vec<u8>,
}

/// What a frame shows: its pixels in reading order.
#[verifier::ext_equal]
pub struct Picture {
    pub width: nat,
    pub height: nat,
    pub pixels: Seq<Rgba>,
}

/// The number of bytes that the pixels of a frame of this size take.
pub open spec fn frame_bytes(width: nat, height: nat) -> nat {
    4 * width * height
}

/// So many bytes are enough for the pixels of a frame of this size, and its rows can be addressed.
pub open spec fn fits(width: u32, height: u32, len: nat) -> bool {
    4 * width <= usize::MAX && frame_bytes(width as nat, height as nat) <= len
}

/// The pixel number `i` of four bytes each.
pub open spec fn pixel_of(data: Seq<u8>, i: int) -> Rgba {
    Rgba { r: data[4 * i], g: data[4 * i + 1], b: data[4 * i + 2], a: data[4 * i + 3] }
}

/// The picture that bytes show, four to a pixel.
pub open spec fn raw_picture(width: u32, height: u32, data: Seq<u8>) -> Picture {
    Picture {
        width: width as nat,
        height: height as nat,
        pixels: Seq::new((width as nat) * (height as nat), |i: int| pixel_of(data, i)),
    }
}

/// The bytes of a picture, four to a pixel.
pub open spec fn picture_bytes(picture: Picture) -> Seq<u8> {
    Seq::new(
        4 * picture.pixels.len(),
        |i: int|
            {
                let (r, g, b, a) = picture.pixels[i / 4].channels();
                if i % 4 == 0 {
                    r
                } else if i % 4 == 1 {
                    g
                } else if i % 4 == 2 {
                    b
                } else {
                    a
                }
            },
    )
}

/// A frame without bytes to spare holds the bytes of what it shows.
pub proof fn tight_frames_hold_their_picture(frame: RgbaFrame)
    requires
        frame.data@.len() == frame_bytes(frame.width as nat, frame.height as nat),
    ensures
        frame.data@ == picture_bytes(frame@),
{
    let n = (frame.width as nat) * (frame.height as nat);
    assert(4 * (frame.width as nat) * (frame.height as nat) == 4 * n) by (nonlinear_arith)
        requires
            n == (frame.width as nat) * (frame.height as nat),
    ;
    assert forall|i: int| 0 <= i < frame.data@.len() implies frame.data@[i] == picture_bytes(
        frame@,
    )[i] by {
        assert(0 <= i / 4 < n);
        assert(i == 4 * (i / 4) + i % 4);
    }
    assert(frame.data@ =~= picture_bytes(frame@));
}

impl RgbaFrame {
    /// The bytes of all pixels are there.
    pub open spec fn wf(self) -> bool {
        fits(self.width, self.height, self.data@.len())
    }
}

impl View for RgbaFrame {
    type V = Picture;

    open spec fn view(&self) -> Picture {
        raw_picture(self.width, self.height, self.data@)
    }
}

/// What alpha compositing makes of a half-transparent pixel over another one, each given as its
/// red, green, blue and alpha.
pub uninterp spec fn blended(bottom: (u8, u8, u8, u8), top: (u8, u8, u8, u8)) -> (u8, u8, u8, u8);

/// One pixel over another: a transparent one leaves what is below it, an opaque one replaces it.
pub open spec fn over(bottom: Rgba, top: Rgba) -> Rgba {
    if top.a == 0 {
        bottom
    } else if top.a == 255 {
        top
    } else {
        let res = blended(bottom.channels(), top.channels());
        Rgba { r: res.0, g: res.1, b: res.2, a: res.3 }
    }
}

/// The pixel of `top`, placed with its left upper corner at (`x`, `y`), that lies on pixel
/// number `i` of a picture that is `width` wide.
pub open spec fn pixel_above(width: nat, top: Picture, x: int, y: int, i: int) -> Option<Rgba> {
    let dx = i % (width as int) - x;
    let dy = i / (width as int) - y;
    if 0 <= dx < top.width && 0 <= dy < top.height {
        Some(top.pixels[dy * top.width + dx])
    } else {
        None
    }
}

/// `top` laid over `bottom` at (`x`, `y`). What sticks out is cut off.
pub open spec fn overlaid(bottom: Picture, top: Picture, x: int, y: int) -> Picture {
    Picture {
        pixels: Seq::new(
            bottom.pixels.len(),
            |i: int|
                match pixel_above(bottom.width, top, x, y, i) {
                    Some(pixel) => over(bottom.pixels[i], pixel),
                    None => bottom.pixels[i],
                },
        ),
        ..bottom
    }
}

/// A picture of one color.
pub open spec fn filled(width: nat, height: nat, pixel: Rgba) -> Picture {
    Picture { width, height, pixels: Seq::new(width * height, |i: int| pixel) }
}

/// What `image` makes of a PNG encoding: the file's bytes, or the text of its error.
pub uninterp spec fn png_encoded(width: u32, height: u32, data: Seq<u8>) -> Result<
    Seq<u8>,
    Seq<char>,
>;

/// Calls `image::RgbaImage::from_raw`: a frame comes back if and only if there are at least as
/// many bytes as its pixels take, and it holds these bytes.
#[verifier::external_body]
pub(crate) fn frame_from_raw(width: u32, height: u32, data: Vec<u8>) -> (res: Option<RgbaFrame>)
    ensures
        res is Some <==> fits(width, height, data@.len()),
        res matches Some(frame) ==> frame.width == width && frame.height == height && frame.data@
            == data@,
{
    let image = image::RgbaImage::from_raw(width, height, data)?;
    let (width, height) = image.dimensions();
    Some(RgbaFrame { width, height, data: image.into_raw() })
}

/// Calls `image::RgbaImage::from_pixel`: a frame of the given size, each pixel of the given
/// color, without any byte more. It panics where the bytes exceed what a vector can hold.
#[verifier::external_body]
pub(crate) fn frame_of_color(width: u32, height: u32, pixel: Rgba) -> (res: RgbaFrame)
    requires
        fits(width, height, isize::MAX as nat),
    ensures
        res.width == width,
        res.height == height,
        res.data@.len() == frame_bytes(width as nat, height as nat),
        res@ == filled(width as nat, height as nat, pixel),
{
    let color = image::Rgba([pixel.r, pixel.g, pixel.b, pixel.a]);
    let image = image::RgbaImage::from_pixel(width, height, color);
    RgbaFrame { width, height, data: image.into_raw() }
}

/// Calls `image::imageops::overlay`: each pixel of `bottom` that a pixel of `top` lies on is
/// combined with it, and nothing else changes. How a half-transparent pixel mixes with the one
/// below it is named `blended` and left unsaid.
#[verifier::external_body]
pub(crate) fn overlay(bottom: RgbaFrame, top: &RgbaFrame, x: i64, y: i64) -> (res: RgbaFrame)
    requires
        bottom.wf(),
        top.wf(),
    ensures
        res.width == bottom.width,
        res.height == bottom.height,
        res.data@.len() == bottom.data@.len(),
        res@ == overlaid(bottom@, top@, x as int, y as int),
        forall|i: int|
            #![trigger res@.pixels[i]]
            0 <= i < res@.pixels.len() ==> match pixel_above(
                bottom@.width,
                top@,
                x as int,
                y as int,
                i,
            ) {
                Some(above) => 0 < above.a < 255 ==> res@.pixels[i].channels() == blended(
                    bottom@.pixels[i].channels(),
                    above.channels(),
                ),
                None => true,
            },
{
    let (width, height) = (bottom.width, bottom.height);
    let mut image = image::RgbaImage::from_raw(width, height, bottom.data).expect("fits");
    let above: image::ImageBuffer<image::Rgba<u8>, &[u8]> =
        image::ImageBuffer::from_raw(top.width, top.height, &top.data[..]).expect("fits");
    image::imageops::overlay(&mut image, &above, x, y);
    RgbaFrame { width, height, data: image.into_raw() }
}

/// Calls `image::codecs::png::PngEncoder::write_image` for eight-bit RGBA into a vector. It
/// panics where the number of bytes is not that of the pixels. What the file holds, and on which
/// sizes the encoder fails, is named `png_encoded` and left unsaid.
#[verifier::external_body]
pub(crate) fn encode_png(width: u32, height: u32, data: &Vec<u8>) -> (res: Result<Vec<u8>, String>)
    requires
        data@.len() == frame_bytes(width as nat, height as nat),
    ensures
        match res {
            Ok(bytes) => png_encoded(width, height, data@) == Ok::<Seq<u8>, Seq<char>>(bytes@),
            Err(text) => png_encoded(width, height, data@) == Err::<Seq<u8>, Seq<char>>(text@),
        },
{
    let mut bytes: Vec<u8> = Vec::new();
    let encoder = image::codecs::png::PngEncoder::new(&mut bytes);
    match encoder.write_image(data, width, height, image::ExtendedColorType::Rgba8) {
        Ok(()) => Ok(bytes),
        Err(err) => Err(format!("{err}")),
    }
}

/// Pictures with their places, laid over `base` one after the other.
pub open spec fn composited(base: Picture, layers: Seq<(Picture, int, int)>) -> Picture
    decreases layers.len(),
{
    if layers.len() == 0 {
        base
    } else {
        let (top, x, y) = layers.last();
        overlaid(composited(base, layers.drop_last()), top, x, y)
    }
}

/// Compositing keeps the size of what is composited on.
pub proof fn compositing_keeps_the_size(base: Picture, layers: Seq<(Picture, int, int)>)
    ensures
        composited(base, layers).width == base.width,
        composited(base, layers).height == base.height,
        composited(base, layers).pixels.len() == base.pixels.len(),
    decreases layers.len(),
{
    if layers.len() > 0 {
        compositing_keeps_the_size(base, layers.drop_last());
    }
}

/// A pixel that no layer lies on shows what is composited on.
pub proof fn uncovered_pixels_stay(base: Picture, layers: Seq<(Picture, int, int)>, i: int)
    requires
        0 <= i < base.pixels.len(),
        forall|k: int|
            #![trigger layers[k]]
            0 <= k < layers.len() ==> pixel_above(
                base.width,
                layers[k].0,
                layers[k].1,
                layers[k].2,
                i,
            ) is None,
    ensures
        composited(base, layers).pixels[i] == base.pixels[i],
    decreases layers.len(),
{
    if layers.len() > 0 {
        let rest = layers.drop_last();
        compositing_keeps_the_size(base, rest);
        assert forall|k: int| #![trigger rest[k]] 0 <= k < rest.len() implies pixel_above(
            base.width,
            rest[k].0,
            rest[k].1,
            rest[k].2,
            i,
        ) is None by {
            assert(rest[k] == layers[k]);
        }
        uncovered_pixels_stay(base, rest, i);
        assert(layers.last() == layers[layers.len() - 1]);
    }
}

/// An opaque pixel of a layer shows, unless a later layer lies on it.
pub proof fn the_last_opaque_pixel_shows(
    base: Picture,
    layers: Seq<(Picture, int, int)>,
    k: int,
    i: int,
    pixel: Rgba,
)
    requires
        0 <= i < base.pixels.len(),
        0 <= k < layers.len(),
        pixel.a == 255,
        pixel_above(base.width, layers[k].0, layers[k].1, layers[k].2, i) == Some(pixel),
        forall|j: int|
            #![trigger layers[j]]
            k < j < layers.len() ==> pixel_above(
                base.width,
                layers[j].0,
                layers[j].1,
                layers[j].2,
                i,
            ) is None,
    ensures
        composited(base, layers).pixels[i] == pixel,
    decreases layers.len(),
{
    let rest = layers.drop_last();
    compositing_keeps_the_size(base, rest);
    if k < layers.len() - 1 {
        assert(rest[k] == layers[k]);
        assert forall|j: int| #![trigger rest[j]] k < j < rest.len() implies pixel_above(
            base.width,
            rest[j].0,
            rest[j].1,
            rest[j].2,
            i,
        ) is None by {
            assert(rest[j] == layers[j]);
        }
        the_last_opaque_pixel_shows(base, rest, k, i, pixel);
        assert(layers.last() == layers[layers.len() - 1]);
    }
}

/// The format of a texture, as far as reading it back cares.
#[derive(Clone, Copy, Debug, PartialEq, Eq, Structural)]
pub enum TextureFormat {
    Bgra8Unorm,
    Bgra8UnormSrgb,
    Other,
}

impl TextureFormat {
    /// Blue comes first and red third.
    pub open spec fn swaps_red_and_blue(self) -> bool {
        self == TextureFormat::Bgra8Unorm || self == TextureFormat::Bgra8UnormSrgb
    }
}

/// `bytes` rounded up to a multiple of `align`.
pub open spec fn rounded_up(bytes: int, align: int) -> int {
    (bytes + align - 1) / align * align
}

/// Reads the constant `wgpu::COPY_BYTES_PER_ROW_ALIGNMENT`: 256 bytes.
#[verifier::external_body]
fn row_alignment() -> (res: u32)
    ensures
        res == 256,
{
    wgpu::COPY_BYTES_PER_ROW_ALIGNMENT
}

/// The bytes of a row of `width` pixels in a copy of a texture.
pub open spec fn padded_row(width: u32) -> int {
    rounded_up(4 * width, 256)
}

/// A row of `width` pixels rounded up to the alignment that copies from a texture need.
pub fn padded_bytes_per_row(width: u32) -> (res: usize)
    requires
        4 * width + 256 <= usize::MAX,
    ensures
        res == padded_row(width),
{
    let bytes: usize = width as usize * 4;
    let align: usize = row_alignment() as usize;
    proof {
        rounding_up_is_least(bytes as int, align as int);
    }
    (bytes + align - 1) / align * align
}

/// Rounding up gives the least multiple of the alignment that is not below the bytes.
pub proof fn rounding_up_is_least(bytes: int, align: int)
    requires
        align > 0,
        bytes >= 0,
    ensures
        rounded_up(bytes, align) % align == 0,
        bytes <= rounded_up(bytes, align) <= bytes + align - 1,
        forall|m: int| #![trigger m % align] m >= bytes && m % align == 0 ==> m >= rounded_up(bytes, align),
{
    let n = bytes + align - 1;
    lemma_fundamental_div_mod(n, align);
    lemma_mul_is_commutative(align, n / align);
    lemma_mod_multiples_basic(n / align, align);
    assert(rounded_up(bytes, align) == n - n % align);
    lemma_mod_bound(n, align);
    assert forall|m: int| #![trigger m % align] m >= bytes && m % align == 0 implies m
        >= rounded_up(bytes, align) by {
        if m < rounded_up(bytes, align) {
            lemma_fundamental_div_mod(m, align);
            let q = m / align;
            let p = n / align;
            lemma_mul_is_commutative(align, q);
            assert(m == q * align);
            assert(q < p) by (nonlinear_arith)
                requires
                    q * align < p * align,
                    align > 0,
            ;
            assert((q + 1) * align <= p * align) by (nonlinear_arith)
                requires
                    q + 1 <= p,
                    align > 0,
            ;
            assert((q + 1) * align == q * align + align) by (nonlinear_arith);
        }
    }
}

/// The first `tight` bytes of each whole row of `padded` bytes.
pub open spec fn tight_rows(data: Seq<u8>, padded: int, tight: int) -> Seq<u8> {
    Seq::new(
        (data.len() as int / padded * tight) as nat,
        |i: int| data[i / tight * padded + i % tight],
    )
}

fn drop_row_padding(data: &Vec<u8>, padded: usize, tight: usize) -> (res: Vec<u8>)
    requires
        padded > 0,
        tight <= padded,
    ensures
        res@ == tight_rows(data@, padded as int, tight as int),
{
    let mut res: Vec<u8> = Vec::new();
    let rows: usize = data.len() / padded;
    assert(rows * padded <= data@.len()) by {
        lemma_fundamental_div_mod(data@.len() as int, padded as int);
        lemma_mul_is_commutative(padded as int, rows as int);
        lemma_mod_bound(data@.len() as int, padded as int);
    }
    let mut row: usize = 0;
    let mut start: usize = 0;
    while row < rows
        invariant
            padded > 0,
            tight <= padded,
            row <= rows,
            rows == data@.len() / padded as nat,
            rows * padded <= data.len(),
            start == row * padded,
            res@.len() == row * tight,
            forall|i: int|
                0 <= i < res@.len() ==> res@[i] == data@[i / (tight as int) * padded + i
                    % (tight as int)],
        decreases rows - row,
    {
        assert((row + 1) * padded == row * padded + padded && (row + 1) * padded <= rows * padded
            && (row + 1) * tight == row * tight + tight) by (nonlinear_arith)
            requires
                row + 1 <= rows,
                padded > 0,
        ;
        let mut col: usize = 0;
        while col < tight
            invariant
                padded > 0,
                tight <= padded,
                col <= tight,
                start == row * padded,
                start + padded <= data.len(),
                res@.len() == row * tight + col,
                forall|i: int|
                    0 <= i < res@.len() ==> res@[i] == data@[i / (tight as int) * padded + i
                        % (tight as int)],
            decreases tight - col,
        {
            proof {
                lemma_fundamental_div_mod_converse(
                    row * tight + col,
                    tight as int,
                    row as int,
                    col as int,
                );
            }
            res.push(data[start + col]);
            col = col + 1;
        }
        row = row + 1;
        start = start + padded;
    }
    assert(res@ =~= tight_rows(data@, padded as int, tight as int));
    res
}

/// A pixel with red and blue exchanged.
pub open spec fn red_blue_swapped(pixel: Rgba) -> Rgba {
    Rgba { r: pixel.b, b: pixel.r, ..pixel }
}

/// Exchanges red and blue of each pixel.
pub fn swap_red_and_blue(frame: &mut RgbaFrame)
    requires
        old(frame).wf(),
    ensures
        final(frame).wf(),
        final(frame).width == old(frame).width,
        final(frame).height == old(frame).height,
        final(frame).data@.len() == old(frame).data@.len(),
        final(frame)@.pixels == old(frame)@.pixels.map_values(|p: Rgba| red_blue_swapped(p)),
        final(frame).data@.skip(frame_bytes(old(frame).width as nat, old(frame).height as nat) as int)
            == old(frame).data@.skip(
            frame_bytes(old(frame).width as nat, old(frame).height as nat) as int,
        ),
{
    let ghost before = frame.data@;
    let ghost w = frame.width as nat;
    let ghost h = frame.height as nat;
    let len: usize = frame.data.len();
    assert(w * h <= frame_bytes(w, h) && frame_bytes(w, h) == 4 * (w * h)) by (nonlinear_arith)
        requires
            frame_bytes(w, h) == 4 * w * h,
    ;
    let count: usize = frame.width as usize * frame.height as usize;
    let mut i: usize = 0;
    while i < count
        invariant
            count == w * h,
            4 * count <= len,
            i <= count,
            w == frame.width,
            h == frame.height,
            len == before.len(),
            frame.data@.len() == len,
            forall|k: int| 0 <= k < i ==> pixel_of(frame.data@, k) == red_blue_swapped(pixel_of(before, k)),
            forall|j: int| 4 * i <= j < len ==> frame.data@[j] == before[j],
        decreases count - i,
    {
        let ghost current = frame.data@;
        let at: usize = 4 * i;
        let red = frame.data[at];
        let blue = frame.data[at + 2];
        frame.data.set(at, blue);
        frame.data.set(at + 2, red);
        assert forall|k: int| 0 <= k < i + 1 implies pixel_of(frame.data@, k) == red_blue_swapped(
            pixel_of(before, k),
        ) by {
            if k < i {
                assert(pixel_of(frame.data@, k) == pixel_of(current, k));
            }
        }
        i = i + 1;
    }
    assert(frame@.pixels =~= old(frame)@.pixels.map_values(|p: Rgba| red_blue_swapped(p)));
    assert(frame.data@.skip(4 * count) =~= before.skip(4 * count));
}

/// What a texture's bytes show: `width` times `height` pixels in rows of `padded` bytes.
pub open spec fn texture_picture(
    width: u32,
    height: u32,
    format: TextureFormat,
    padded: int,
    mapped: Seq<u8>,
) -> Picture {
    let tight = tight_rows(mapped, padded, 4 * width as int);
    Picture {
        width: width as nat,
        height: height as nat,
        pixels: Seq::new(
            (width as nat) * (height as nat),
            |i: int|
                if format.swaps_red_and_blue() {
                    red_blue_swapped(pixel_of(tight, i))
                } else {
                    pixel_of(tight, i)
                },
        ),
    }
}

/// The bytes that were read back are too few for the texture's pixels.
#[derive(Clone, Copy, Debug, PartialEq, Eq, Structural)]
pub struct TextureTooShort;

impl TextureTooShort {
    /// What is told to the user.
    pub fn message(&self) -> (res: String)
        ensures
            res@ == "Failed to convert offscreen texture to RGBA image"@,
    {
        "Failed to convert offscreen texture to RGBA image".to_owned()
    }
}

/// Turns the bytes of a texture, copied with padded rows, into a picture.
pub fn read_texture_to_image(
    width: u32,
    height: u32,
    format: TextureFormat,
    mapped: &Vec<u8>,
) -> (res: Result<RgbaFrame, TextureTooShort>)
    requires
        width > 0,
        4 * width + 256 <= usize::MAX,
    ensures
        res is Ok <==> height <= mapped@.len() as int / padded_row(width),
        res matches Ok(frame) ==> frame.wf() && frame@ == texture_picture(
            width,
            height,
            format,
            padded_row(width),
            mapped@,
        ),
        // Rows behind the picture stay as they are.
        res matches Ok(frame) ==> ({
            let rows = tight_rows(mapped@, padded_row(width), 4 * width);
            let shown = frame_bytes(width as nat, height as nat) as int;
            frame.data@.len() == rows.len() && frame.data@.skip(shown) == rows.skip(shown)
        }),
        res matches Ok(frame) ==> (mapped@.len() == padded_row(width) * height ==> frame.data@
            == picture_bytes(frame@)),
{
    let padded: usize = padded_bytes_per_row(width);
    proof {
        rounding_up_is_least(4 * width, 256);
    }
    let tight: usize = width as usize * 4;
    let data = drop_row_padding(mapped, padded, tight);
    let ghost rows = mapped@.len() as int / padded as int;
    proof {
        lemma_div_pos_is_pos(mapped@.len() as int, padded as int);
        lemma_mul_nonnegative(rows, tight as int);
        assert(frame_bytes(width as nat, height as nat) <= rows * tight <==> height <= rows)
            by (nonlinear_arith)
            requires
                width > 0,
                tight == width * 4,
                frame_bytes(width as nat, height as nat) == 4 * width * height,
        ;
    }
    match frame_from_raw(width, height, data) {
        Some(frame) => {
            let mut frame = frame;
            if matches!(format, TextureFormat::Bgra8Unorm)
                || matches!(format, TextureFormat::Bgra8UnormSrgb) {
                swap_red_and_blue(&mut frame);
            }
            assert(frame@.pixels =~= texture_picture(
                width,
                height,
                format,
                padded as int,
                mapped@,
            ).pixels);
            proof {
                if mapped@.len() == padded as int * height {
                    lemma_fundamental_div_mod_converse(
                        mapped@.len() as int,
                        padded as int,
                        height as int,
                        0,
                    );
                    assert(rows * tight == 4 * width * height) by (nonlinear_arith)
                        requires
                            rows == height,
                            tight == width * 4,
                    ;
                    tight_frames_hold_their_picture(frame);
                }
            }
            Ok(frame)
        },
        None => Err(TextureTooShort),
    }
}

/// The pixel in column `x` of row `y` comes from the four bytes at `4 * x` of the padded row `y`.
pub proof fn texture_pixels_come_from_their_row(
    width: u32,
    height: u32,
    format: TextureFormat,
    padded: int,
    mapped: Seq<u8>,
    x: int,
    y: int,
)
    requires
        0 <= x < width,
        0 <= y < height,
        4 * width <= padded,
        height <= mapped.len() as int / padded,
    ensures
        ({
            let stored = Rgba {
                r: mapped[y * padded + 4 * x],
                g: mapped[y * padded + 4 * x + 1],
                b: mapped[y * padded + 4 * x + 2],
                a: mapped[y * padded + 4 * x + 3],
            };
            texture_picture(width, height, format, padded, mapped).pixels[y * width + x] == (
            if format.swaps_red_and_blue() {
                red_blue_swapped(stored)
            } else {
                stored
            })
        }),
{
    let tight = 4 * width as int;
    let rows = mapped.len() as int / padded;
    let i = y * width + x;
    assert(0 <= i < (width as nat) * (height as nat)) by (nonlinear_arith)
        requires
            i == y * width + x,
            0 <= x < width,
            0 <= y < height,
    ;
    assert(4 * i == y * tight + 4 * x) by (nonlinear_arith)
        requires
            i == y * width + x,
            tight == 4 * width as int,
    ;
    assert((y + 1) * tight <= rows * tight && (y + 1) * tight == y * tight + tight)
        by (nonlinear_arith)
        requires
            y + 1 <= rows,
            tight >= 0,
    ;
    lemma_mul_nonnegative(y, tight);
    lemma_fundamental_div_mod_converse(4 * i, tight, y, 4 * x);
    lemma_fundamental_div_mod_converse(4 * i + 1, tight, y, 4 * x + 1);
    lemma_fundamental_div_mod_converse(4 * i + 2, tight, y, 4 * x + 2);
    lemma_fundamental_div_mod_converse(4 * i + 3, tight, y, 4 * x + 3);
    let t = tight_rows(mapped, padded, tight);
    assert(t[4 * i] == mapped[y * padded + 4 * x]);
    assert(t[4 * i + 1] == mapped[y * padded + 4 * x + 1]);
    assert(t[4 * i + 2] == mapped[y * padded + 4 * x + 2]);
    assert(t[4 * i + 3] == mapped[y * padded + 4 * x + 3]);
}

/// Exchanging red and blue twice changes nothing.
pub proof fn swapping_red_and_blue_twice_is_nothing(pixel: Rgba)
    ensures
        red_blue_swapped(red_blue_swapped(pixel)) == pixel,
{
}

/// A transparent pixel leaves what is below it, and an opaque one hides it.
pub proof fn opaque_pixels_hide_what_is_below(bottom: Rgba, top: Rgba)
    ensures
        top.a == 0 ==> over(bottom, top) == bottom,
        top.a == 255 ==> over(bottom, top) == top,
{
}

/// The pixel in column `column` of row `row` is covered by the pixel of `top` that lies there, counted
/// from the place of `top`, and by none if `top` does not reach there.
pub proof fn pixels_lie_where_they_are_put(
    width: nat,
    top: Picture,
    x: int,
    y: int,
    column: int,
    row: int,
)
    requires
        0 <= column < width,
    ensures
        pixel_above(width, top, x, y, row * width + column) == if x <= column < x + top.width && y
            <= row < y + top.height {
            Some(top.pixels[(row - y) * top.width + (column - x)])
        } else {
            None
        },
{
    lemma_fundamental_div_mod_converse(row * width + column, width as int, row, column);
}

/// A picture can be read back from its bytes.
pub proof fn pictures_are_read_back(width: u32, height: u32, picture: Picture)
    requires
        picture.width == width,
        picture.height == height,
        picture.pixels.len() == (width as nat) * (height as nat),
    ensures
        raw_picture(width, height, picture_bytes(picture)) == picture,
{
    let bytes = picture_bytes(picture);
    let read = raw_picture(width, height, bytes);
    assert forall|i: int| 0 <= i < picture.pixels.len() implies read.pixels[i]
        == picture.pixels[i] by {
        assert((4 * i) / 4 == i && (4 * i) % 4 == 0);
        assert((4 * i + 1) / 4 == i && (4 * i + 1) % 4 == 1);
        assert((4 * i + 2) / 4 == i && (4 * i + 2) % 4 == 2);
        assert((4 * i + 3) / 4 == i && (4 * i + 3) % 4 == 3);
    }
    assert(read.pixels =~= picture.pixels);
}

/// Red and blue change places, and green and alpha do not. That is done for textures that hold blue
/// first.
pub proof fn red_and_blue_change_places(pixel: Rgba, format: TextureFormat)
    ensures
        red_blue_swapped(pixel).r == pixel.b,
        red_blue_swapped(pixel).b == pixel.r,
        red_blue_swapped(pixel).g == pixel.g,
        red_blue_swapped(pixel).a == pixel.a,
        format.swaps_red_and_blue() <==> format is Bgra8Unorm || format is Bgra8UnormSrgb,
{
}

/// The rows of a copied texture hold their pixels, start at multiples of 256 bytes, and take no more
/// room than that needs.
pub proof fn texture_rows_are_aligned(width: u32)
    ensures
        padded_row(width) % 256 == 0,
        4 * width <= padded_row(width) < 4 * width + 256,
{
    rounding_up_is_least(4 * width, 256);
}

/// So many bytes are enough for the pixels of a frame if and only if there are four for each pixel; more
/// are as good.
pub proof fn four_bytes_are_enough_for_a_pixel(width: u32, height: u32, len: nat)
    requires
        4 * width <= usize::MAX,
    ensures
        fits(width, height, len) <==> 4 * (width * height) <= len,
        fits(width, height, len) ==> fits(width, height, len + 1),
{
    assert(4 * (width * height) == 4 * width * height) by (nonlinear_arith);
}

/// A pixel that is neither opaque nor transparent is blended with what is below it.
pub proof fn half_transparent_pixels_are_blended(bottom: Rgba, top: Rgba)
    requires
        0 < top.a < 255,
    ensures
        over(bottom, top).channels() == blended(bottom.channels(), top.channels()),
{
}

} // verus!
