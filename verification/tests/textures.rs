use std::io::Cursor;
use wgpu_renderer::{
    choose_surface_format, DecodedImage, RBoundTexture, RImageFile, RPipelineId, RPipelineSetup,
    RTextureDesc, RTextureFormat, RTextureId, RTextureUsage, Renderer, RendererError,
};

fn renderer() -> Renderer {
    Renderer::new(640, 480, RTextureFormat::Bgra8UnormSrgb, 256).unwrap()
}

fn pixels(width: u32, height: u32) -> Vec<u8> {
    (0..width * height * 4).map(|i| (i * 7 % 251) as u8).collect()
}

fn png(width: u32, height: u32) -> Vec<u8> {
    let img = image::RgbaImage::from_raw(width, height, pixels(width, height)).unwrap();
    let mut bytes = Vec::new();
    img.write_to(&mut Cursor::new(&mut bytes), image::ImageFormat::Png).unwrap();
    bytes
}

#[test]
fn surface_format_prefers_srgb() {
    let (plain, linear) = (RTextureFormat::Rgba8Unorm, RTextureFormat::Bgra8Unorm);
    let (srgb, blue_srgb) = (RTextureFormat::Rgba8UnormSrgb, RTextureFormat::Bgra8UnormSrgb);
    assert_eq!(choose_surface_format(&vec![]), None);
    assert_eq!(choose_surface_format(&vec![linear]), Some(linear));
    assert_eq!(
        choose_surface_format(&vec![RTextureFormat::Rgba16Float, linear, srgb, blue_srgb]),
        Some(srgb)
    );
    assert_eq!(choose_surface_format(&vec![plain, linear]), Some(plain));
}

#[test]
fn canvas_targets_follow_the_canvas() {
    let mut r = renderer();
    let only_attachment =
        RTextureUsage { render_attachment: true, texture_binding: false, copy_dst: false };
    assert_eq!(
        r.color_target(),
        RTextureDesc {
            width: 640,
            height: 480,
            format: RTextureFormat::Bgra8UnormSrgb,
            sample_count: 4,
            usage: only_attachment,
        }
    );
    assert!(r.resize_canvas(800, 600));
    assert_eq!(
        r.depth_target(),
        RTextureDesc {
            width: 800,
            height: 600,
            format: RTextureFormat::Depth24Plus,
            sample_count: 4,
            usage: only_attachment,
        }
    );
    assert!(r.resize_canvas(801, 601));
    assert_eq!(r.half_extents(), (400, 300));
    assert!(r.resize_canvas(800, 600));
    assert!(!r.resize_canvas(0, 600));
    assert!(!r.resize_canvas(700, 0));
    assert_eq!((r.width(), r.height()), (800, 600));
}

#[test]
fn blank_texture_has_the_requested_size() {
    let mut r = renderer();
    let a = r.add_texture(100, 50, None, false);
    assert_eq!(a.id, RTextureId(0));
    assert!(a.upload.is_none());
    let b = r.add_texture(7, 9, None, true);
    assert_eq!(b.id, RTextureId(1));
    let t = r.textures();
    assert_eq!((t[0].width, t[0].height, t[0].format), (100, 50, RTextureFormat::Rgba8Unorm));
    assert_eq!((t[1].width, t[1].height, t[1].format), (7, 9, RTextureFormat::Bgra8UnormSrgb));
    let desc = t[0].desc();
    assert_eq!(desc.sample_count, 1);
    assert_eq!(
        desc.usage,
        RTextureUsage { render_attachment: true, texture_binding: true, copy_dst: true }
    );
}

#[test]
fn image_file_sizes_the_texture() {
    let mut r = renderer();
    let bytes = png(3, 2);
    let alloc = r.add_texture(100, 100, Some(RImageFile { path: "assets/map.png", bytes: &bytes }), false);
    let t = r.textures()[alloc.id.0];
    assert_eq!((t.width, t.height), (3, 2));
    let upload = alloc.upload.unwrap();
    assert_eq!(upload.texture, alloc.id);
    assert_eq!((upload.x, upload.y, upload.width, upload.height), (0, 0, 3, 2));
    assert_eq!(upload.bytes_per_row, 12);
    assert_eq!(upload.rows_per_image, 2);
    assert_eq!(upload.data, pixels(3, 2));
    assert_ne!(upload.data, bytes);
}

#[test]
fn undecodable_file_gives_a_blank_texture() {
    let mut r = renderer();
    let bytes = png(3, 2);
    // not an image at all
    let a = r.add_texture(10, 20, Some(RImageFile { path: "a.png", bytes: b"no image" }), false);
    // an image under a name that tells no format
    let b = r.add_texture(11, 21, Some(RImageFile { path: "noextension", bytes: &bytes }), false);
    // an image under the name of another format
    let c = r.add_texture(12, 22, Some(RImageFile { path: "a.jpg", bytes: &bytes }), false);
    for (alloc, size) in [(a, (10, 20)), (b, (11, 21)), (c, (12, 22))] {
        assert!(alloc.upload.is_none());
        let t = r.textures()[alloc.id.0];
        assert_eq!((t.width, t.height), size);
    }
}

#[test]
fn decoded_image_must_hold_its_pixels() {
    let mut r = renderer();
    let short = DecodedImage { width: 2, height: 2, pixels: vec![0; 15] };
    assert!(!short.is_usable());
    let alloc = r.add_decoded_texture(5, 6, Some(short), false);
    assert!(alloc.upload.is_none());
    assert_eq!(r.textures()[0].width, 5);
    let exact = DecodedImage { width: 2, height: 2, pixels: vec![9; 16] };
    assert!(exact.is_usable());
    let alloc = r.add_decoded_texture(5, 6, Some(exact), false);
    assert_eq!(alloc.upload.unwrap().data, vec![9; 16]);
    assert_eq!((r.textures()[1].width, r.textures()[1].height), (2, 2));
}

#[test]
fn update_texture_writes_in_place() {
    let mut r = renderer();
    let id = r.add_texture(4, 4, None, false).id;
    let fits = png(4, 3);
    let w = r.update_texture(id, RImageFile { path: "x.PNG", bytes: &fits }).unwrap();
    assert_eq!((w.texture, w.x, w.y, w.width, w.height), (id, 0, 0, 4, 3));
    assert_eq!(w.bytes_per_row, 16);
    assert_eq!(w.data, pixels(4, 3));
    let wide = png(5, 1);
    assert_eq!(
        r.update_texture(id, RImageFile { path: "x.png", bytes: &wide }).unwrap_err(),
        RendererError::ImageTooLarge
    );
    assert_eq!(
        r.update_texture(id, RImageFile { path: "x.png", bytes: &[1, 2, 3] }).unwrap_err(),
        RendererError::ImageDecode
    );
    assert_eq!(
        r.update_texture(RTextureId(1), RImageFile { path: "x.png", bytes: &fits }).unwrap_err(),
        RendererError::UnknownTexture
    );
    let t = r.textures()[0];
    assert_eq!((t.width, t.height, t.stamp), (4, 4, 0));
}

#[test]
fn resized_texture_is_bound_anew() {
    let mut r = renderer();
    let shown = r.add_texture(640, 480, None, true).id;
    let other = r.add_texture(16, 16, None, false).id;
    let p = r
        .add_pipeline(RPipelineSetup {
            texture1_id: Some(other),
            texture2_id: Some(shown),
            ..Default::default()
        })
        .unwrap();
    let q = r.add_pipeline(RPipelineSetup { texture1_id: Some(shown), ..Default::default() }).unwrap();
    assert!(r.is_bind_group_current(p));
    assert!(r.is_bind_group_current(q));
    r.update_texture_size(shown, Some(p), 800, 600).unwrap();
    let t = r.textures()[shown.0];
    assert_eq!((t.width, t.height, t.format, t.stamp), (800, 600, RTextureFormat::Bgra8UnormSrgb, 1));
    // the named pipeline samples the new allocation, in the slots it had
    assert!(r.is_bind_group_current(p));
    let pipe = &r.pipelines()[p.0];
    assert_eq!(pipe.texture1, Some(RBoundTexture { id: other, stamp: 0 }));
    assert_eq!(pipe.texture2, Some(RBoundTexture { id: shown, stamp: 1 }));
    let group = r.bind_group0(p).unwrap();
    assert_eq!(
        group.bindings[3].resource,
        wgpu_renderer::RBindingResource::Texture {
            texture: Some(RBoundTexture { id: shown, stamp: t.stamp })
        }
    );
    // the pipeline that was not named still refers to what is gone
    assert!(!r.is_bind_group_current(q));
    r.update_texture_size(other, Some(q), 1, 1).unwrap();
    assert!(r.is_bind_group_current(q));
    assert!(!r.is_bind_group_current(p));
    assert!(!r.is_bind_group_current(RPipelineId(9)));
}

#[test]
fn resize_failures_change_nothing() {
    let mut r = renderer();
    let t = r.add_texture(8, 8, None, false).id;
    assert_eq!(
        r.update_texture_size(RTextureId(3), None, 1, 1).unwrap_err(),
        RendererError::UnknownTexture
    );
    assert_eq!(
        r.update_texture_size(t, Some(RPipelineId(0)), 1, 1).unwrap_err(),
        RendererError::UnknownPipeline
    );
    assert_eq!(r.textures()[0].width, 8);
    assert_eq!(r.textures()[0].stamp, 0);
    r.update_texture_size(t, None, 2, 3).unwrap();
    assert_eq!((r.textures()[0].width, r.textures()[0].height, r.textures()[0].stamp), (2, 3, 1));
}
