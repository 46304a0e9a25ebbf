use wgpu_renderer::text::{is_blank, lookup_glyph, text_color};
use wgpu_renderer::{
    draw_glyph_on_texture, draw_str, load_cached_glyph, GlyphMask, RStringInputs, RTextureFormat,
    RTextureId, Renderer, RendererError, TextError,
};

/// A font of three glyphs: a tall `b`, a small `o` and a `y` that hangs
/// below the baseline.
fn glyphs() -> Vec<GlyphMask> {
    vec![
        GlyphMask::new('b', 2, 4, 4, vec![255, 9, 255, 10, 255, 255, 255, 255]).unwrap(),
        GlyphMask::new('o', 3, 2, 2, vec![1, 200, 1, 200, 1, 200]).unwrap(),
        GlyphMask::new('y', 2, 5, 2, vec![50; 10]).unwrap(),
    ]
}

fn inputs<'a>(glyphs: &'a Vec<GlyphMask>, string: &'a str, base_point: [u32; 2]) -> RStringInputs<'a> {
    RStringInputs {
        texture: RTextureId(3),
        texture_width: 100,
        texture_height: 100,
        texture_format: RTextureFormat::Rgba8Unorm,
        glyphs,
        string,
        color: [10, 20, 30],
        base_point,
        char_gap: 1,
    }
}

#[test]
fn glyph_needs_one_value_for_each_pixel() {
    assert!(GlyphMask::new('a', 2, 2, 0, vec![0; 3]).is_none());
    assert!(GlyphMask::new('a', 2, 2, 0, vec![0; 5]).is_none());
    assert!(GlyphMask::new('a', 1 << 30, 0, 0, vec![]).is_none());
    let g = GlyphMask::new('a', 0, 7, 3, vec![]).unwrap();
    assert_eq!((g.ch(), g.width(), g.height(), g.v_offset()), ('a', 0, 7, 3));
}

#[test]
fn blanks_are_space_newline_and_tab() {
    assert!(is_blank(' '));
    assert!(is_blank('\n'));
    assert!(is_blank('\t'));
    assert!(!is_blank('a'));
    assert!(!is_blank('\r'));
}

#[test]
fn colour_follows_the_channel_order_of_the_texture() {
    assert_eq!(text_color(RTextureFormat::Rgba8Unorm, [1, 2, 3]), [1, 2, 3]);
    assert_eq!(text_color(RTextureFormat::Rgba8UnormSrgb, [1, 2, 3]), [1, 2, 3]);
    assert_eq!(text_color(RTextureFormat::Bgra8Unorm, [1, 2, 3]), [3, 2, 1]);
    assert_eq!(text_color(RTextureFormat::Bgra8UnormSrgb, [1, 2, 3]), [3, 2, 1]);
}

#[test]
fn cached_glyph_is_drawn_in_colour() {
    let glyphs = glyphs();
    assert_eq!(lookup_glyph(&glyphs, 'o'), Some(1));
    assert_eq!(lookup_glyph(&glyphs, 'x'), None);
    let (image, v_offset) = load_cached_glyph(&glyphs, 'b', [10, 20, 30]).unwrap();
    assert_eq!((image.width(), image.height(), v_offset), (2, 4, 4));
    let px = image.pixels();
    assert_eq!(px.len(), 32);
    assert_eq!(px[0..4], [10, 20, 30, 255]);
    // coverage below the floor leaves no trace
    assert_eq!(px[4..8], [0, 0, 0, 0]);
    assert_eq!(px[12..16], [10, 20, 30, 10]);
    assert!(matches!(
        load_cached_glyph(&glyphs, 'q', [1, 2, 3]),
        Err(TextError::GlyphOutlineError)
    ));
}

#[test]
fn glyph_copy_must_fit() {
    let glyphs = glyphs();
    let image = || load_cached_glyph(&glyphs, 'b', [1, 2, 3]).unwrap().0;
    let w = draw_glyph_on_texture(RTextureId(1), 10, 10, image(), [8, 6]).unwrap();
    assert_eq!((w.texture, w.x, w.y, w.width, w.height), (RTextureId(1), 8, 6, 2, 4));
    assert_eq!((w.bytes_per_row, w.rows_per_image), (8, 4));
    assert_eq!(w.data.len(), 32);
    assert!(matches!(
        draw_glyph_on_texture(RTextureId(1), 10, 10, image(), [9, 6]),
        Err(TextError::ExceedsBounds)
    ));
    assert!(matches!(
        draw_glyph_on_texture(RTextureId(1), 10, 10, image(), [8, 7]),
        Err(TextError::ExceedsBounds)
    ));
    assert!(matches!(
        draw_glyph_on_texture(RTextureId(1), 10, 10, image(), [u32::MAX, u32::MAX]),
        Err(TextError::ExceedsBounds)
    ));
}

#[test]
fn string_is_laid_out_on_its_baseline() {
    let glyphs = glyphs();
    let writes = draw_str(inputs(&glyphs, "bo y\tb", [5, 20])).unwrap();
    let placed: Vec<(u32, u32, u32, u32)> =
        writes.iter().map(|w| (w.x, w.y, w.width, w.height)).collect();
    // b at the pen; o after b's width and a gap; the blank moves three gaps;
    // y after o's width and a gap and the blank; the tab again three gaps
    assert_eq!(
        placed,
        vec![(5, 16, 2, 4), (8, 18, 3, 2), (15, 18, 2, 5), (21, 16, 2, 4)]
    );
    for w in &writes {
        assert_eq!(w.texture, RTextureId(3));
        assert_eq!(w.bytes_per_row, 4 * w.width);
        assert_eq!(w.rows_per_image, w.height);
        assert_eq!(w.data.len() as u32, 4 * w.width * w.height);
    }
    assert_eq!(writes[1].data[4..8], [10, 20, 30, 200]);
    assert!(draw_str(inputs(&glyphs, "", [0, 0])).unwrap().is_empty());
    assert!(draw_str(inputs(&glyphs, " \n\t", [99, 0])).unwrap().is_empty());
}

#[test]
fn blue_first_textures_get_their_colour_swapped() {
    let glyphs = glyphs();
    let mut input = inputs(&glyphs, "o", [0, 10]);
    input.texture_format = RTextureFormat::Bgra8UnormSrgb;
    let writes = draw_str(input).unwrap();
    assert_eq!(writes[0].data[4..8], [30, 20, 10, 200]);
}

#[test]
fn string_beyond_the_texture_is_not_drawn_at_all() {
    let glyphs = glyphs();
    // the last glyph would end at column 101
    let wide = draw_str(inputs(&glyphs, "bbb", [93, 50]));
    assert_eq!(wide.unwrap_err(), TextError::ExceedsBounds);
    assert!(draw_str(inputs(&glyphs, "bbb", [92, 50])).is_ok());
    // y hangs three rows below the baseline
    assert_eq!(draw_str(inputs(&glyphs, "y", [0, 98])).unwrap_err(), TextError::ExceedsBounds);
    assert!(draw_str(inputs(&glyphs, "y", [0, 97])).is_ok());
    // b would start above the first row
    assert_eq!(draw_str(inputs(&glyphs, "ob", [0, 3])).unwrap_err(), TextError::ExceedsBounds);
    // far beyond 32 bits
    let mut far = inputs(&glyphs, "   b", [u32::MAX, 50]);
    far.char_gap = u32::MAX;
    assert_eq!(draw_str(far).unwrap_err(), TextError::ExceedsBounds);
}

#[test]
fn missing_glyph_is_not_replaced() {
    let glyphs = glyphs();
    assert_eq!(draw_str(inputs(&glyphs, "box", [0, 50])).unwrap_err(), TextError::GlyphOutlineError);
    // a missing glyph is found before any glyph is held against the texture
    assert_eq!(
        draw_str(inputs(&glyphs, "bbbbbbbbx", [90, 50])).unwrap_err(),
        TextError::GlyphOutlineError
    );
    // but what fails first in the string is what is reported
    assert_eq!(draw_str(inputs(&glyphs, "bx", [0, 3])).unwrap_err(), TextError::ExceedsBounds);
}

#[test]
fn text_on_a_small_texture_exceeds_its_bounds() {
    let mut r = Renderer::new(640, 480, RTextureFormat::Bgra8Unorm, 256).unwrap();
    let t = r.add_texture(100, 100, None, false).id;
    let glyphs = vec![GlyphMask::new('M', 120, 90, 90, vec![255; 120 * 90]).unwrap()];
    let drawn = r.render_str_on_texture(t, &glyphs, "M", [255, 0, 0], [0, 95], 10);
    assert_eq!(drawn.unwrap_err(), RendererError::Text(TextError::ExceedsBounds));
    let glyphs = vec![GlyphMask::new('M', 20, 90, 90, vec![255; 20 * 90]).unwrap()];
    let drawn = r.render_str_on_texture(t, &glyphs, "M M", [255, 0, 0], [0, 95], 10).unwrap();
    assert_eq!(drawn.len(), 2);
    assert_eq!((drawn[1].x, drawn[1].y), (60, 5));
    assert_eq!(drawn[0].data[0..4], [255, 0, 0, 255]);
    assert_eq!(
        r.render_str_on_texture(RTextureId(1), &glyphs, "M", [0, 0, 0], [0, 95], 1).unwrap_err(),
        RendererError::UnknownTexture
    );
    // on a texture that will be shown on this surface, blue comes first
    let shown = r.add_texture(100, 100, None, true).id;
    let drawn = r.render_str_on_texture(shown, &glyphs, "M", [255, 0, 0], [0, 95], 10).unwrap();
    assert_eq!(drawn[0].data[0..4], [0, 0, 255, 255]);
}
