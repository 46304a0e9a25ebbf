use vstd::prelude::*;
use crate::handles::{RTextureId, TextError};
use crate::texture::{RTextureFormat, RTextureWrite, TextureWriteView, RGBA_BYTES};

verus! {

/// How many character gaps a blank character advances the pen.
pub const BLANK_GAPS: u32 = 3;

/// Coverage below this value is drawn as a fully transparent pixel.
pub const ALPHA_FLOOR: u8 = 10;

/// A rasterized glyph as plain values: the character it draws, the size of
/// its bitmap, how far the bitmap's top lies above the baseline, and the
/// coverage of each pixel, row by row from the top.
pub struct GlyphView {
    pub ch: char,
    pub width: u32,
    pub height: u32,
    pub v_offset: u32,
    pub alpha: Seq<u8>,
}

impl GlyphView {
    /// The bitmap has one coverage value for each pixel, and its rows fit a
    /// 32-bit row pitch once every pixel takes four bytes.
    pub open spec fn wf(self) -> bool {
        &&& self.alpha.len() == self.width * self.height
        &&& RGBA_BYTES * self.width <= u32::MAX
    }
}

/// A rasterized glyph of a font at one size.
#[derive(Debug)]
pub struct GlyphMask {
    ch: char,
    width: u32,
    height: u32,
    v_offset: u32,
    alpha: Vec<u8>,
}

impl View for GlyphMask {
    type V = GlyphView;

    closed spec fn view(&self) -> GlyphView {
        GlyphView {
            ch: self.ch,
            width: self.width,
            height: self.height,
            v_offset: self.v_offset,
            alpha: self.alpha@,
        }
    }
}

/// The views of a list of glyphs.
pub open spec fn glyphs_view(glyphs: Seq<GlyphMask>) -> Seq<GlyphView> {
    Seq::new(glyphs.len(), |i: int| glyphs[i]@)
}

/// Whether `width * height` equals `len`.
fn is_area(width: u32, height: u32, len: usize) -> (b: bool)
    ensures
        b == (len == width * height),
{
    let w: u128 = width as u128;
    let h: u128 = height as u128;
    assert(w * h <= 0xFFFF_FFFF * 0xFFFF_FFFF) by (nonlinear_arith)
        requires
            0 <= w <= 0xFFFF_FFFF,
            0 <= h <= 0xFFFF_FFFF,
    ;
    len as u128 == w * h
}

impl GlyphMask {
    #[verifier::type_invariant]
    spec fn inv(self) -> bool {
        self@.wf()
    }

    /// A glyph from its bitmap. A bitmap that does not hold one coverage
    /// value for each pixel, or whose rows are too wide to be copied as
    /// RGBA8, is no glyph.
    pub fn new(ch: char, width: u32, height: u32, v_offset: u32, alpha: Vec<u8>) -> (r: Option<
        GlyphMask,
    >)
        ensures
            match r {
                Some(g) => g@ == (GlyphView { ch, width, height, v_offset, alpha: alpha@ })
                    && g@.wf(),
                None => !(GlyphView { ch, width, height, v_offset, alpha: alpha@ }).wf(),
            },
    {
        if width > u32::MAX / RGBA_BYTES {
            return None;
        }
        if !is_area(width, height, alpha.len()) {
            return None;
        }
        Some(GlyphMask { ch, width, height, v_offset, alpha })
    }

    /// The character that the glyph draws.
    pub fn ch(&self) -> (c: char)
        ensures
            c == self@.ch,
    {
        self.ch
    }

    /// Width of the bitmap in pixels.
    pub fn width(&self) -> (w: u32)
        ensures
            w == self@.width,
    {
        self.width
    }

    /// Height of the bitmap in pixels.
    pub fn height(&self) -> (h: u32)
        ensures
            h == self@.height,
    {
        self.height
    }

    /// Rows between the top of the bitmap and the baseline.
    pub fn v_offset(&self) -> (v: u32)
        ensures
            v == self@.v_offset,
    {
        self.v_offset
    }
}

/// A glyph in colour as plain values: an RGBA8 bitmap.
pub struct GlyphImageView {
    pub width: u32,
    pub height: u32,
    pub pixels: Seq<u8>,
}

impl GlyphImageView {
    /// The bitmap holds four bytes for each pixel, and its rows fit a
    /// 32-bit row pitch.
    pub open spec fn wf(self) -> bool {
        &&& self.pixels.len() == RGBA_BYTES * (self.width * self.height)
        &&& RGBA_BYTES * self.width <= u32::MAX
    }
}

/// A glyph in colour, ready to be copied into a texture.
#[derive(Debug)]
pub struct GlyphImage {
    width: u32,
    height: u32,
    pixels: Vec<u8>,
}

impl View for GlyphImage {
    type V = GlyphImageView;

    closed spec fn view(&self) -> GlyphImageView {
        GlyphImageView { width: self.width, height: self.height, pixels: self.pixels@ }
    }
}

impl GlyphImage {
    #[verifier::type_invariant]
    spec fn inv(self) -> bool {
        self@.wf()
    }

    /// Width of the bitmap in pixels.
    pub fn width(&self) -> (w: u32)
        ensures
            w == self@.width,
    {
        self.width
    }

    /// Height of the bitmap in pixels.
    pub fn height(&self) -> (h: u32)
        ensures
            h == self@.height,
    {
        self.height
    }

    /// The pixels, four bytes each, row by row from the top.
    pub fn pixels(&self) -> (p: &Vec<u8>)
        ensures
            p@ == self@.pixels,
    {
        &self.pixels
    }
}

/// Characters that draw nothing and only move the pen.
pub open spec fn spec_is_blank(c: char) -> bool {
    c == ' ' || c == '\n' || c == '\t'
}

/// Whether a character draws nothing and only moves the pen.
#[verifier::when_used_as_spec(spec_is_blank)]
pub fn is_blank(c: char) -> (b: bool)
    ensures
        b == spec_is_blank(c),
{
    c == ' ' || c == '\n' || c == '\t'
}

/// The colour as the texture stores it: red and blue change places where
/// the texture's format keeps blue first.
pub open spec fn spec_text_color(format: RTextureFormat, color: Seq<u8>) -> Seq<u8> {
    if format.blue_first() {
        seq![color[2], color[1], color[0]]
    } else {
        color
    }
}

/// The colour in the channel order of the texture's format.
pub fn text_color(format: RTextureFormat, color: [u8; 3]) -> (out: [u8; 3])
    ensures
        out@ == spec_text_color(format, color@),
{
    if format.is_bgra() {
        let out = [color[2], color[1], color[0]];
        assert(out@ =~= seq![color@[2], color@[1], color@[0]]);
        out
    } else {
        color
    }
}

/// One channel of a glyph pixel: the colour with the coverage as alpha,
/// or nothing at all where the coverage is below the floor.
pub open spec fn pixel_channel(color: Seq<u8>, coverage: u8, channel: int) -> u8 {
    if coverage < ALPHA_FLOOR {
        0
    } else if channel == 3 {
        coverage
    } else {
        color[channel]
    }
}

/// The RGBA8 pixels of a coverage bitmap drawn in one colour.
pub open spec fn colorized(alpha: Seq<u8>, color: Seq<u8>) -> Seq<u8> {
    Seq::new(
        RGBA_BYTES as nat * alpha.len(),
        |i: int| pixel_channel(color, alpha[i / 4], i % 4),
    )
}

/// The glyph drawn in one colour.
pub open spec fn glyph_image(glyph: GlyphView, color: Seq<u8>) -> GlyphImageView {
    GlyphImageView {
        width: glyph.width,
        height: glyph.height,
        pixels: colorized(glyph.alpha, color),
    }
}

/// Position of the first glyph for a character at or after `from`.
pub open spec fn find_glyph(glyphs: Seq<GlyphView>, c: char, from: int) -> Option<int>
    decreases glyphs.len() - from,
{
    if from < 0 || from >= glyphs.len() {
        None
    } else if glyphs[from].ch == c {
        Some(from)
    } else {
        find_glyph(glyphs, c, from + 1)
    }
}

/// The first glyph of the list that draws the character, if there is one.
pub fn lookup_glyph(glyphs: &Vec<GlyphMask>, c: char) -> (r: Option<usize>)
    ensures
        match r {
            Some(k) => find_glyph(glyphs_view(glyphs@), c, 0) == Some(k as int) && k
                < glyphs@.len(),
            None => find_glyph(glyphs_view(glyphs@), c, 0) is None,
        },
{
    let mut i: usize = 0;
    while i < glyphs.len()
        invariant
            i <= glyphs@.len(),
            find_glyph(glyphs_view(glyphs@), c, 0) == find_glyph(glyphs_view(glyphs@), c, i as int),
        decreases glyphs@.len() - i,
    {
        if glyphs[i].ch() == c {
            return Some(i);
        }
        i = i + 1;
    }
    None
}

/// Draws a coverage bitmap in one colour.
fn colorize(alpha: &Vec<u8>, color: [u8; 3]) -> (pixels: Vec<u8>)
    ensures
        pixels@ == colorized(alpha@, color@),
{
    let mut pixels: Vec<u8> = Vec::new();
    let mut i: usize = 0;
    while i < alpha.len()
        invariant
            i <= alpha@.len(),
            pixels@.len() == 4 * i,
            forall|j: int|
                0 <= j < 4 * i ==> #[trigger] pixels@[j] == pixel_channel(
                    color@,
                    alpha@[j / 4],
                    j % 4,
                ),
        decreases alpha@.len() - i,
    {
        let a = alpha[i];
        if a < ALPHA_FLOOR {
            pixels.push(0);
            pixels.push(0);
            pixels.push(0);
            pixels.push(0);
        } else {
            pixels.push(color[0]);
            pixels.push(color[1]);
            pixels.push(color[2]);
            pixels.push(a);
        }
        i = i + 1;
    }
    assert(pixels@ =~= colorized(alpha@, color@));
    pixels
}

/// Looks a character up among the rasterized glyphs and draws its glyph in
/// the given colour. Returns the glyph's image and the distance of its top
/// from the baseline. A character without a glyph is not replaced by
/// another.
pub fn load_cached_glyph(glyphs: &Vec<GlyphMask>, c: char, color: [u8; 3]) -> (r: Result<
    (GlyphImage, u32),
    TextError,
>)
    ensures
        match r {
            Ok((image, v_offset)) => find_glyph(glyphs_view(glyphs@), c, 0) matches Some(k)
                && image@ == glyph_image(glyphs_view(glyphs@)[k], color@) && v_offset
                == glyphs_view(glyphs@)[k].v_offset && image@.wf(),
            Err(e) => e == TextError::GlyphOutlineError && find_glyph(glyphs_view(glyphs@), c, 0)
                is None,
        },
{
    match lookup_glyph(glyphs, c) {
        None => Err(TextError::GlyphOutlineError),
        Some(k) => {
            let glyph = &glyphs[k];
            proof {
                use_type_invariant(glyph);
            }
            let pixels = colorize(&glyph.alpha, color);
            Ok((GlyphImage { width: glyph.width, height: glyph.height, pixels }, glyph.v_offset))
        },
    }
}

/// The copy of a glyph image to a position of a texture.
pub open spec fn glyph_write(texture: RTextureId, image: GlyphImageView, x: int, y: int) -> TextureWriteView {
    TextureWriteView {
        texture,
        x: x as u32,
        y: y as u32,
        width: image.width,
        height: image.height,
        bytes_per_row: (RGBA_BYTES * image.width) as u32,
        rows_per_image: image.height,
        data: image.pixels,
    }
}

/// The glyph's rectangle, put at a position, lies inside the container.
pub open spec fn glyph_fits(
    width: u32,
    height: u32,
    x: int,
    y: int,
    container_w: u32,
    container_h: u32,
) -> bool {
    x + width <= container_w && y + height <= container_h
}

/// The copy of a glyph image to a position of a texture. A glyph that
/// would reach beyond the texture is not copied, not even in part.
pub fn draw_glyph_on_texture(
    texture: RTextureId,
    container_w: u32,
    container_h: u32,
    glyph: GlyphImage,
    position: [u32; 2],
) -> (r: Result<RTextureWrite, TextError>)
    ensures
        match r {
            Ok(w) => glyph_fits(
                glyph@.width,
                glyph@.height,
                position@[0] as int,
                position@[1] as int,
                container_w,
                container_h,
            ) && w@ == glyph_write(texture, glyph@, position@[0] as int, position@[1] as int)
                && w@.inside(container_w, container_h) && w@.packed(),
            Err(e) => e == TextError::ExceedsBounds && !glyph_fits(
                glyph@.width,
                glyph@.height,
                position@[0] as int,
                position@[1] as int,
                container_w,
                container_h,
            ),
        },
{
    proof {
        use_type_invariant(&glyph);
    }
    if position[0] as u64 + glyph.width as u64 > container_w as u64 {
        return Err(TextError::ExceedsBounds);
    }
    if position[1] as u64 + glyph.height as u64 > container_h as u64 {
        return Err(TextError::ExceedsBounds);
    }
    assert(RGBA_BYTES * glyph@.width * glyph@.height == RGBA_BYTES * (glyph@.width
        * glyph@.height)) by (nonlinear_arith);
    Ok(
        RTextureWrite {
            texture,
            x: position[0],
            y: position[1],
            width: glyph.width,
            height: glyph.height,
            bytes_per_row: RGBA_BYTES * glyph.width,
            rows_per_image: glyph.height,
            data: glyph.pixels,
        },
    )
}

/// Everything that laying out a string on a texture needs: the texture
/// with its size and format, the rasterized glyphs of the font at the
/// wanted size, the string, its colour as red, green and blue, the point
/// where the baseline starts, and the gap between two characters.
#[derive(Clone, Copy, Debug)]
pub struct RStringInputs<'a> {
    pub texture: RTextureId,
    pub texture_width: u32,
    pub texture_height: u32,
    pub texture_format: RTextureFormat,
    pub glyphs: &'a Vec<GlyphMask>,
    pub string: &'a str,
    pub color: [u8; 3],
    pub base_point: [u32; 2],
    pub char_gap: u32,
}

/// Where one glyph of a string goes: which glyph, and the position of the
/// top left corner of its bitmap.
pub struct Placement {
    pub glyph: int,
    pub x: int,
    pub y: int,
}

/// A string laid out so far: how far the pen has moved from the base
/// point, and the glyphs placed, in the order of the string.
pub struct Layout {
    pub pen: int,
    pub placed: Seq<Placement>,
}

/// The layout of the first `n` characters of a string. A blank moves the
/// pen by three gaps. Any other character needs a glyph; the glyph is
/// placed at the pen, with its top as far above the baseline as the glyph
/// says, and moves the pen by its width and one gap. A glyph that would
/// start above the texture's first row exceeds the bounds.
pub open spec fn layout(
    text: Seq<char>,
    glyphs: Seq<GlyphView>,
    base_x: int,
    base_y: int,
    gap: int,
    n: int,
) -> Result<Layout, TextError>
    decreases n,
{
    if n <= 0 {
        Ok(Layout { pen: 0, placed: Seq::empty() })
    } else {
        match layout(text, glyphs, base_x, base_y, gap, n - 1) {
            Err(e) => Err(e),
            Ok(before) => {
                if spec_is_blank(text[n - 1]) {
                    Ok(Layout { pen: before.pen + BLANK_GAPS * gap, placed: before.placed })
                } else {
                    match find_glyph(glyphs, text[n - 1], 0) {
                        None => Err(TextError::GlyphOutlineError),
                        Some(k) => {
                            if glyphs[k].v_offset > base_y {
                                Err(TextError::ExceedsBounds)
                            } else {
                                Ok(
                                    Layout {
                                        pen: before.pen + glyphs[k].width + gap,
                                        placed: before.placed.push(
                                            Placement {
                                                glyph: k,
                                                x: base_x + before.pen,
                                                y: base_y - glyphs[k].v_offset,
                                            },
                                        ),
                                    },
                                )
                            }
                        },
                    }
                }
            },
        }
    }
}

/// The first `n` placed glyphs lie inside the container.
pub open spec fn all_fit(
    placed: Seq<Placement>,
    glyphs: Seq<GlyphView>,
    container_w: u32,
    container_h: u32,
    n: int,
) -> bool {
    forall|i: int|
        0 <= i < n ==> glyph_fits(
            glyphs[(#[trigger] placed[i]).glyph].width,
            glyphs[placed[i].glyph].height,
            placed[i].x,
            placed[i].y,
            container_w,
            container_h,
        )
}

/// The copies that draw a string, one for each character that is not
/// blank, in the order of the string; or why the string is not drawn. A
/// string is drawn as a whole or not at all: where any of its glyphs fails
/// or does not fit, there is no copy.
pub open spec fn text_writes(
    texture: RTextureId,
    container_w: u32,
    container_h: u32,
    text: Seq<char>,
    glyphs: Seq<GlyphView>,
    color: Seq<u8>,
    base_x: int,
    base_y: int,
    gap: int,
) -> Result<Seq<TextureWriteView>, TextError> {
    match layout(text, glyphs, base_x, base_y, gap, text.len() as int) {
        Err(e) => Err(e),
        Ok(done) => {
            if all_fit(done.placed, glyphs, container_w, container_h, done.placed.len() as int) {
                Ok(
                    Seq::new(
                        done.placed.len(),
                        |i: int|
                            glyph_write(
                                texture,
                                glyph_image(glyphs[done.placed[i].glyph], color),
                                done.placed[i].x,
                                done.placed[i].y,
                            ),
                    ),
                )
            } else {
                Err(TextError::ExceedsBounds)
            }
        },
    }
}

/// What `draw_str` returns for its inputs.
pub open spec fn drawn_string(input: RStringInputs) -> Result<Seq<TextureWriteView>, TextError> {
    text_writes(
        input.texture,
        input.texture_width,
        input.texture_height,
        input.string@,
        glyphs_view(input.glyphs@),
        spec_text_color(input.texture_format, input.color@),
        input.base_point@[0] as int,
        input.base_point@[1] as int,
        input.char_gap as int,
    )
}

/// The views of a list of texture writes.
pub open spec fn texture_writes_view(writes: Seq<RTextureWrite>) -> Seq<TextureWriteView> {
    Seq::new(writes.len(), |i: int| writes[i]@)
}

/// The view of the outcome of drawing a string.
pub open spec fn drawn_view(r: Result<Vec<RTextureWrite>, TextError>) -> Result<
    Seq<TextureWriteView>,
    TextError,
> {
    match r {
        Ok(writes) => Ok(texture_writes_view(writes@)),
        Err(e) => Err(e),
    }
}

/// Once a prefix of a string fails, every longer prefix fails in the same
/// way.
pub proof fn lemma_layout_error_stays(
    text: Seq<char>,
    glyphs: Seq<GlyphView>,
    base_x: int,
    base_y: int,
    gap: int,
    n: int,
    m: int,
)
    requires
        0 <= n <= m,
        layout(text, glyphs, base_x, base_y, gap, n) is Err,
    ensures
        layout(text, glyphs, base_x, base_y, gap, m) == layout(text, glyphs, base_x, base_y, gap, n),
    decreases m - n,
{
    if n < m {
        lemma_layout_error_stays(text, glyphs, base_x, base_y, gap, n, m - 1);
    }
}

/// A glyph in colour with the position that the layout gave it.
struct PlacedGlyph {
    x: u128,
    y: u32,
    image: GlyphImage,
}

/// The placed glyphs are those of the layout, each drawn in the colour.
spec fn placed_as(
    exec: Seq<PlacedGlyph>,
    placed: Seq<Placement>,
    glyphs: Seq<GlyphView>,
    color: Seq<u8>,
) -> bool {
    &&& exec.len() == placed.len()
    &&& forall|i: int|
        0 <= i < exec.len() ==> {
            &&& (#[trigger] exec[i]).x == placed[i].x
            &&& exec[i].y == placed[i].y
            &&& 0 <= placed[i].glyph < glyphs.len()
            &&& exec[i].image@ == glyph_image(glyphs[placed[i].glyph], color)
        }
}

/// Lays the string out: finds each character's glyph, draws it in the
/// colour and gives it its place.
fn place_glyphs(input: &RStringInputs, color: [u8; 3]) -> (r: Result<Vec<PlacedGlyph>, TextError>)
    ensures
        match r {
            Ok(placed) => layout(
                input.string@,
                glyphs_view(input.glyphs@),
                input.base_point@[0] as int,
                input.base_point@[1] as int,
                input.char_gap as int,
                input.string@.len() as int,
            ) matches Ok(done) && placed_as(
                placed@,
                done.placed,
                glyphs_view(input.glyphs@),
                color@,
            ),
            Err(e) => layout(
                input.string@,
                glyphs_view(input.glyphs@),
                input.base_point@[0] as int,
                input.base_point@[1] as int,
                input.char_gap as int,
                input.string@.len() as int,
            ) == Err::<Layout, TextError>(e),
        },
{
    let ghost text = input.string@;
    let ghost glyphs = glyphs_view(input.glyphs@);
    let ghost base_x = input.base_point@[0] as int;
    let ghost base_y = input.base_point@[1] as int;
    let ghost gap = input.char_gap as int;
    let total = input.string.unicode_len();
    let base = input.base_point[0] as u128;
    let baseline = input.base_point[1];
    let mut pen: u128 = 0;
    let mut placed: Vec<PlacedGlyph> = Vec::new();
    for c in it: input.string.chars()
        invariant
            it.seq() == text,
            text == input.string@,
            glyphs == glyphs_view(input.glyphs@),
            base_x == input.base_point@[0] as int,
            base_y == input.base_point@[1] as int,
            gap == input.char_gap as int,
            base == base_x,
            baseline == base_y,
            total == text.len(),
            pen <= 0x4_0000_0000 * it.index(),
            layout(text, glyphs, base_x, base_y, gap, it.index() as int) matches Ok(done)
                && done.pen == pen && placed_as(placed@, done.placed, glyphs, color@),
    {
        let ghost n = it.index() as int;
        assert(text[n] == c);
        assert(n < total);
        assert(pen + 0x4_0000_0000 <= 0x4_0000_0000 * (n + 1)) by (nonlinear_arith)
            requires
                pen <= 0x4_0000_0000 * n,
        ;
        assert(0x4_0000_0000 * (n + 1) <= 0x4_0000_0000 * 0xFFFF_FFFF_FFFF_FFFF) by (nonlinear_arith)
            requires
                n + 1 <= 0xFFFF_FFFF_FFFF_FFFF,
        ;
        if is_blank(c) {
            pen = pen + (BLANK_GAPS as u128) * (input.char_gap as u128);
        } else {
            match load_cached_glyph(input.glyphs, c, color) {
                Err(e) => {
                    proof {
                        lemma_layout_error_stays(text, glyphs, base_x, base_y, gap, n + 1, total as int);
                    }
                    return Err(e);
                },
                Ok((image, v_offset)) => {
                    if v_offset > baseline {
                        proof {
                            lemma_layout_error_stays(
                                text,
                                glyphs,
                                base_x,
                                base_y,
                                gap,
                                n + 1,
                                total as int,
                            );
                        }
                        return Err(TextError::ExceedsBounds);
                    }
                    proof {
                        lemma_find_glyph_in_range(glyphs, c, 0);
                    }
                    let x = base + pen;
                    let y = baseline - v_offset;
                    pen = pen + image.width() as u128 + input.char_gap as u128;
                    placed.push(PlacedGlyph { x, y, image });
                },
            }
        }
    }
    Ok(placed)
}

/// A glyph that is found lies in the list.
pub proof fn lemma_find_glyph_in_range(glyphs: Seq<GlyphView>, c: char, from: int)
    requires
        0 <= from,
    ensures
        find_glyph(glyphs, c, from) matches Some(k) ==> from <= k < glyphs.len() && glyphs[k].ch
            == c,
    decreases glyphs.len() - from,
{
    if from < glyphs.len() && glyphs[from].ch != c {
        lemma_find_glyph_in_range(glyphs, c, from + 1);
    }
}

/// Turns placed glyphs into copies, provided that all of them fit.
fn write_glyphs(
    texture: RTextureId,
    container_w: u32,
    container_h: u32,
    placed: Vec<PlacedGlyph>,
    Ghost(layout): Ghost<Seq<Placement>>,
    Ghost(glyphs): Ghost<Seq<GlyphView>>,
    Ghost(color): Ghost<Seq<u8>>,
) -> (r: Result<Vec<RTextureWrite>, TextError>)
    requires
        placed_as(placed@, layout, glyphs, color),
    ensures
        match r {
            Ok(writes) => all_fit(layout, glyphs, container_w, container_h, layout.len() as int)
                && texture_writes_view(writes@) == Seq::new(
                layout.len(),
                |i: int|
                    glyph_write(
                        texture,
                        glyph_image(glyphs[layout[i].glyph], color),
                        layout[i].x,
                        layout[i].y,
                    ),
            ),
            Err(e) => e == TextError::ExceedsBounds && !all_fit(
                layout,
                glyphs,
                container_w,
                container_h,
                layout.len() as int,
            ),
        },
{
    let mut writes: Vec<RTextureWrite> = Vec::new();
    for glyph in it: placed
        invariant
            it.seq() == placed@,
            placed_as(placed@, layout, glyphs, color),
            writes@.len() == it.index(),
            all_fit(layout, glyphs, container_w, container_h, it.index() as int),
            forall|i: int|
                0 <= i < it.index() ==> (#[trigger] writes@[i])@ == glyph_write(
                    texture,
                    glyph_image(glyphs[layout[i].glyph], color),
                    layout[i].x,
                    layout[i].y,
                ),
    {
        let ghost n = it.index() as int;
        assert(glyph == placed@[n]);
        let PlacedGlyph { x, y, image } = glyph;
        if x > u32::MAX as u128 {
            assert(!glyph_fits(
                glyphs[layout[n].glyph].width,
                glyphs[layout[n].glyph].height,
                layout[n].x,
                layout[n].y,
                container_w,
                container_h,
            ));
            return Err(TextError::ExceedsBounds);
        }
        match draw_glyph_on_texture(texture, container_w, container_h, image, [x as u32, y]) {
            Ok(w) => {
                writes.push(w);
            },
            Err(e) => {
                assert(!glyph_fits(
                    glyphs[layout[n].glyph].width,
                    glyphs[layout[n].glyph].height,
                    layout[n].x,
                    layout[n].y,
                    container_w,
                    container_h,
                ));
                return Err(e);
            },
        }
    }
    assert(texture_writes_view(writes@) =~= Seq::new(
        layout.len(),
        |i: int|
            glyph_write(
                texture,
                glyph_image(glyphs[layout[i].glyph], color),
                layout[i].x,
                layout[i].y,
            ),
    ));
    Ok(writes)
}

/// Lays a string out on a texture. Returns the copies that draw it, one
/// for each character that is not blank, in the order of the string. The
/// string is drawn as a whole or not at all: a character without a glyph
/// gives `GlyphOutlineError`, a glyph that would lie outside the texture
/// gives `ExceedsBounds`, and in both cases nothing is copied.
pub fn draw_str(input: RStringInputs) -> (r: Result<Vec<RTextureWrite>, TextError>)
    ensures
        drawn_view(r) == drawn_string(input),
{
    let color = text_color(input.texture_format, input.color);
    let placed = match place_glyphs(&input, color) {
        Ok(placed) => placed,
        Err(e) => {
            return Err(e);
        },
    };
    let ghost done = layout(
        input.string@,
        glyphs_view(input.glyphs@),
        input.base_point@[0] as int,
        input.base_point@[1] as int,
        input.char_gap as int,
        input.string@.len() as int,
    )->Ok_0;
    write_glyphs(
        input.texture,
        input.texture_width,
        input.texture_height,
        placed,
        Ghost(done.placed),
        Ghost(glyphs_view(input.glyphs@)),
        Ghost(color@),
    )
}

} // verus!
