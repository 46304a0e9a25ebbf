use wgpu_renderer::bind_group::{vertex_layout, vertex_size};
use wgpu_renderer::texture::fallback_texture;
use wgpu_renderer::{
    RBindGroupKind, RBinding, RBindingResource, RBoundTexture, RCullMode, RDraw, RFrameRecovery,
    RObjectId, RObjectSetup, RPipelineId, RPipelineSetup, RResource, RTextureFormat, RTextureId,
    RUniformSetup, RUniformVisibility, RVertexAttribute, RVertexFormat, RVertexType, Renderer,
    RendererError, SurfaceError,
};

fn renderer() -> Renderer {
    Renderer::new(640, 480, RTextureFormat::Rgba8UnormSrgb, 256).unwrap()
}

fn block() -> Vec<u8> {
    vec![0; 192]
}

#[test]
fn default_setups() {
    let p = RPipelineSetup::default();
    assert_eq!(p.max_obj_count, 10);
    assert_eq!(p.texture1_id, None);
    assert_eq!(p.texture2_id, None);
    assert_eq!(p.cull_mode, RCullMode::Off);
    assert!(p.uniforms.is_empty());
    assert_eq!(p.vertex_type, RVertexType::Static);
    assert_eq!(p.max_joints_count, 0);
    let o = RObjectSetup::default();
    assert_eq!(o.pipeline_id, RPipelineId(0));
    assert_eq!(o.vertex_type, RVertexType::Static);
    assert_eq!((o.vertex_count, o.index_count, o.instances), (0, 0, 1));
}

#[test]
fn static_pipeline_bind_group() {
    let mut r = renderer();
    let t = r.add_texture(4, 4, None, false).id;
    let p = r
        .add_pipeline(RPipelineSetup {
            max_obj_count: 1000,
            texture1_id: Some(t),
            cull_mode: RCullMode::Back,
            ..Default::default()
        })
        .unwrap();
    assert_eq!(p, RPipelineId(0));
    assert_eq!(r.pipelines()[0].cull_mode, RCullMode::Back);
    let group = r.bind_group0(p).unwrap();
    assert_eq!(group.entries, vec![256 * 1000]);
    assert_eq!(
        group.bindings,
        vec![
            RBinding {
                slot: 0,
                visibility: RUniformVisibility::Vertex,
                resource: RBindingResource::Buffer { entry: 0, dynamic: true, size: Some(192) },
            },
            RBinding {
                slot: 1,
                visibility: RUniformVisibility::Fragment,
                resource: RBindingResource::Sampler,
            },
            RBinding {
                slot: 2,
                visibility: RUniformVisibility::Fragment,
                resource: RBindingResource::Texture {
                    texture: Some(RBoundTexture { id: t, stamp: 0 })
                },
            },
            RBinding {
                slot: 3,
                visibility: RUniformVisibility::Fragment,
                resource: RBindingResource::Texture { texture: None },
            },
        ]
    );
    assert!(r.bind_group1(p).is_none());
    assert!(r.bind_group0(RPipelineId(1)).is_none());
}

#[test]
fn animated_pipeline_has_a_joint_buffer() {
    let mut r = renderer();
    let p = r
        .add_pipeline(RPipelineSetup {
            vertex_type: RVertexType::Animated,
            max_joints_count: 3,
            ..Default::default()
        })
        .unwrap();
    let group = r.bind_group0(p).unwrap();
    assert_eq!(group.entries, vec![2560, 3 * 64]);
    assert_eq!(group.bindings.len(), 5);
    assert_eq!(
        group.bindings[4],
        RBinding {
            slot: 4,
            visibility: RUniformVisibility::Vertex,
            resource: RBindingResource::Buffer { entry: 1, dynamic: false, size: None },
        }
    );
}

#[test]
fn custom_uniforms_make_a_second_bind_group() {
    let mut r = renderer();
    let p = r
        .add_pipeline(RPipelineSetup {
            max_obj_count: 3,
            uniforms: vec![
                RUniformSetup {
                    bind_slot: 0,
                    visibility: RUniformVisibility::Fragment,
                    size_in_bytes: 8,
                },
                RUniformSetup { bind_slot: 5, visibility: RUniformVisibility::Both, size_in_bytes: 0 },
            ],
            ..Default::default()
        })
        .unwrap();
    let group = r.bind_group1(p).unwrap();
    assert_eq!(group.entries, vec![768, 768]);
    assert_eq!(
        group.bindings,
        vec![
            RBinding {
                slot: 0,
                visibility: RUniformVisibility::Fragment,
                resource: RBindingResource::Buffer { entry: 0, dynamic: true, size: Some(8) },
            },
            RBinding {
                slot: 5,
                visibility: RUniformVisibility::Both,
                resource: RBindingResource::Buffer { entry: 1, dynamic: true, size: None },
            },
        ]
    );
    r.add_object(RObjectSetup { pipeline_id: p, vertex_count: 3, ..Default::default() }, block())
        .unwrap();
    assert!(r.draws(&[p]).unwrap()[0].custom_uniforms);
}

#[test]
fn add_pipeline_failures() {
    let mut r = Renderer::new(1, 1, RTextureFormat::Rgba8Unorm, 1 << 20).unwrap();
    assert_eq!(
        r.add_pipeline(RPipelineSetup { texture1_id: Some(RTextureId(0)), ..Default::default() })
            .unwrap_err(),
        RendererError::UnknownTexture
    );
    let t = r.add_texture(1, 1, None, false).id;
    assert_eq!(
        r.add_pipeline(RPipelineSetup {
            texture1_id: Some(t),
            texture2_id: Some(RTextureId(1)),
            ..Default::default()
        })
        .unwrap_err(),
        RendererError::UnknownTexture
    );
    // 4096 slots of one MiB need offsets of 33 bits
    assert_eq!(
        r.add_pipeline(RPipelineSetup { max_obj_count: 4096, ..Default::default() }).unwrap_err(),
        RendererError::CapacityTooLarge
    );
    assert!(r.add_pipeline(RPipelineSetup { max_obj_count: 4095, ..Default::default() }).is_ok());
    assert_eq!(r.pipelines().len(), 1);
}

#[test]
fn vertex_layouts_are_packed() {
    let fixed = vertex_layout(RVertexType::Static);
    assert_eq!(fixed.array_stride, 32);
    assert_eq!(vertex_size(RVertexType::Static), 32);
    assert_eq!(
        fixed.attributes,
        vec![
            RVertexAttribute { location: 0, offset: 0, format: RVertexFormat::Float32x3 },
            RVertexAttribute { location: 1, offset: 12, format: RVertexFormat::Float32x2 },
            RVertexAttribute { location: 2, offset: 20, format: RVertexFormat::Float32x3 },
        ]
    );
    let anim = vertex_layout(RVertexType::Animated);
    assert_eq!(anim.array_stride, 64);
    assert_eq!(vertex_size(RVertexType::Animated), 64);
    assert_eq!(anim.attributes[..3], fixed.attributes[..]);
    assert_eq!(
        anim.attributes[3..],
        [
            RVertexAttribute { location: 3, offset: 32, format: RVertexFormat::Uint32x4 },
            RVertexAttribute { location: 4, offset: 48, format: RVertexFormat::Float32x4 },
        ]
    );
}

#[test]
fn fallback_texture_is_tiny() {
    let f = fallback_texture();
    assert_eq!((f.width, f.height, f.format, f.sample_count), (10, 10, RTextureFormat::Rgba8Unorm, 1));
    assert!(f.usage.render_attachment && f.usage.texture_binding && !f.usage.copy_dst);
}

#[test]
fn render_texture_needs_its_target() {
    let mut r = renderer();
    let p = r.add_pipeline(RPipelineSetup::default()).unwrap();
    r.add_object(RObjectSetup { pipeline_id: p, vertex_count: 3, ..Default::default() }, block())
        .unwrap();
    assert_eq!(r.render_texture(&[p], RTextureId(0)).unwrap_err(), RendererError::UnknownTexture);
    let t = r.add_texture(640, 480, None, true).id;
    let draws = r.render_texture(&[p], t).unwrap();
    assert_eq!(draws.len(), 1);
    assert_eq!(draws[0].draw, RDraw::Vertices { vertex_count: 3 });
    // a pass over no pipeline only clears its target
    assert!(r.render_texture(&[], t).unwrap().is_empty());
}

#[test]
fn failed_frame_draws_nothing() {
    let mut r = renderer();
    let p = r.add_pipeline(RPipelineSetup::default()).unwrap();
    r.add_object(RObjectSetup { pipeline_id: p, vertex_count: 3, ..Default::default() }, block())
        .unwrap();
    for e in [SurfaceError::Lost, SurfaceError::OutOfMemory, SurfaceError::Timeout, SurfaceError::Outdated] {
        assert_eq!(r.render(&vec![p], Err(e)).unwrap_err(), RendererError::Surface(e));
    }
    assert_eq!(r.render(&vec![p], Ok(())).unwrap().len(), 1);
    assert_eq!(
        r.frame_recovery(SurfaceError::Lost),
        RFrameRecovery::Reconfigure { width: 640, height: 480 }
    );
    assert_eq!(r.frame_recovery(SurfaceError::OutOfMemory), RFrameRecovery::Shutdown);
    assert_eq!(r.frame_recovery(SurfaceError::Timeout), RFrameRecovery::Skip);
    assert_eq!(r.frame_recovery(SurfaceError::Outdated), RFrameRecovery::Skip);
}

#[test]
fn overlay_is_a_textured_rectangle() {
    let mut r = renderer();
    r.add_texture(1, 1, None, false);
    let (texture, pipeline, alloc) = r.add_overlay_pipeline(block()).unwrap();
    assert_eq!(texture, RTextureId(1));
    assert_eq!(pipeline, RPipelineId(0));
    assert_eq!(alloc.id, RObjectId(0, 0));
    assert_eq!(alloc.vertex_buffer_size, 4 * 32);
    assert_eq!(alloc.index_buffer_size, Some(24));
    let t = r.textures()[1];
    assert_eq!((t.width, t.height, t.format), (640, 480, RTextureFormat::Rgba8UnormSrgb));
    let pipe = &r.pipelines()[0];
    assert_eq!(pipe.max_obj_count, 10);
    assert_eq!(pipe.texture1, Some(RBoundTexture { id: texture, stamp: 0 }));
    assert_eq!(pipe.texture2, None);
    assert_eq!(r.draws(&[pipeline]).unwrap()[0].draw, RDraw::Indexed { index_count: 6 });
    assert_eq!(r.add_overlay_pipeline(vec![0; 3]).unwrap_err(), RendererError::TransformSize);
    assert_eq!(r.textures().len(), 2);
}

#[test]
fn teardown_goes_in_dependency_order() {
    let mut r = renderer();
    let t = r.add_texture(1, 1, None, false).id;
    let p = r
        .add_pipeline(RPipelineSetup {
            vertex_type: RVertexType::Animated,
            uniforms: vec![RUniformSetup {
                bind_slot: 0,
                visibility: RUniformVisibility::Vertex,
                size_in_bytes: 4,
            }],
            ..Default::default()
        })
        .unwrap();
    let q = r.add_pipeline(RPipelineSetup::default()).unwrap();
    r.add_object(RObjectSetup { pipeline_id: p, vertex_count: 3, ..Default::default() }, block())
        .unwrap();
    r.add_object(
        RObjectSetup { pipeline_id: p, vertex_count: 4, index_count: 6, ..Default::default() },
        block(),
    )
    .unwrap();
    let uniform = |pipeline, group, entry| RResource::UniformBuffer { pipeline, group, entry };
    let mut expected = vec![
        RResource::Texture(t),
        RResource::VertexBuffer(RObjectId(0, 0)),
        RResource::VertexBuffer(RObjectId(0, 1)),
        RResource::IndexBuffer(RObjectId(0, 1)),
        uniform(p, RBindGroupKind::Primary, 0),
        uniform(p, RBindGroupKind::Primary, 1),
        uniform(p, RBindGroupKind::Secondary, 0),
        uniform(q, RBindGroupKind::Primary, 0),
        RResource::Pipeline(p),
        RResource::Pipeline(q),
    ];
    let mut copy = Renderer::new(640, 480, RTextureFormat::Rgba8UnormSrgb, 256).unwrap();
    copy.add_texture(1, 1, None, false);
    assert_eq!(copy.destroy(false), vec![RResource::Texture(t)]);
    let plan = r.destroy(true);
    expected.extend([RResource::ColorTarget, RResource::DepthTarget, RResource::Device]);
    assert_eq!(plan, expected);
    assert!(r.textures().is_empty());
    assert!(r.pipelines().is_empty());
    assert_eq!(r.destroy(false), vec![]);
}
