use wgpu_renderer::{
    RBindGroupKind, RDraw, RObjectId, RObjectSetup, RObjectUpdate, RPipelineId, RPipelineSetup,
    RTextureFormat, RUniformSetup, RUniformVisibility, RVertexType, Renderer, RendererError,
};

const STRIDE: u32 = 256;

fn renderer() -> Renderer {
    Renderer::new(800, 600, RTextureFormat::Bgra8UnormSrgb, STRIDE).unwrap()
}

fn block(fill: u8) -> Vec<u8> {
    vec![fill; 192]
}

fn rect(pipeline_id: RPipelineId) -> RObjectSetup {
    RObjectSetup { pipeline_id, vertex_count: 6, ..Default::default() }
}

/// The bytes of a transform block whose model matrix translates by the
/// given amounts; view and projection are the identity.
fn translation_block(x: f32, y: f32, z: f32) -> Vec<u8> {
    let identity: [f32; 16] =
        [1.0, 0.0, 0.0, 0.0, 0.0, 1.0, 0.0, 0.0, 0.0, 0.0, 1.0, 0.0, 0.0, 0.0, 0.0, 1.0];
    let mut model = identity;
    model[12] = x;
    model[13] = y;
    model[14] = z;
    let mut bytes = Vec::new();
    for m in [model, identity, identity] {
        for f in m {
            bytes.extend_from_slice(&f.to_le_bytes());
        }
    }
    bytes
}

fn model_translation(block: &[u8]) -> (f32, f32, f32) {
    let at = |i: usize| f32::from_le_bytes([block[i], block[i + 1], block[i + 2], block[i + 3]]);
    (at(48), at(52), at(56))
}

#[test]
fn stride_below_a_transform_block_is_refused() {
    assert!(matches!(
        Renderer::new(10, 10, RTextureFormat::Rgba8Unorm, 191),
        Err(RendererError::StrideTooSmall)
    ));
    assert!(Renderer::new(10, 10, RTextureFormat::Rgba8Unorm, 192).is_ok());
}

#[test]
fn full_pipeline_gives_each_object_its_own_offset() {
    let mut r = renderer();
    let n = 5;
    let p = r.add_pipeline(RPipelineSetup { max_obj_count: n, ..Default::default() }).unwrap();
    let mut offsets = Vec::new();
    for slot in 0..n {
        let alloc = r.add_object(rect(p), block(0)).unwrap();
        assert_eq!(alloc.id, RObjectId(p.0, slot));
        assert_eq!(alloc.write.offset, slot as u64 * STRIDE as u64);
        offsets.push(alloc.write.offset);
    }
    for i in 0..n {
        for j in 0..n {
            if i != j {
                assert_ne!(offsets[i], offsets[j]);
            }
        }
    }
    // the offsets are those of the draws, and they did not move
    let draws = r.draws(&[p]).unwrap();
    assert_eq!(draws.len(), n);
    for (slot, d) in draws.iter().enumerate() {
        assert_eq!(d.uniform_offset as u64, offsets[slot]);
        assert_eq!(r.pipelines()[p.0].objects[slot].pipe_index, slot);
    }
}

#[test]
fn object_beyond_the_capacity_is_rejected() {
    let mut r = renderer();
    let p = r.add_pipeline(RPipelineSetup { max_obj_count: 2, ..Default::default() }).unwrap();
    assert!(r.add_object(rect(p), block(0)).is_ok());
    assert!(r.add_object(rect(p), block(0)).is_ok());
    assert_eq!(r.add_object(rect(p), block(0)).unwrap_err(), RendererError::CapacityExceeded);
    assert_eq!(r.pipelines()[p.0].objects.len(), 2);
}

#[test]
fn pipeline_without_capacity_takes_no_object() {
    let mut r = renderer();
    let p = r.add_pipeline(RPipelineSetup { max_obj_count: 0, ..Default::default() }).unwrap();
    assert_eq!(r.add_object(rect(p), block(0)).unwrap_err(), RendererError::CapacityExceeded);
}

#[test]
fn add_object_reports_what_to_allocate() {
    let mut r = renderer();
    let p = r.add_pipeline(RPipelineSetup::default()).unwrap();
    let plain = r.add_object(rect(p), block(1)).unwrap();
    assert_eq!(plain.vertex_buffer_size, 6 * 32);
    assert_eq!(plain.index_buffer_size, None);
    assert_eq!(plain.write.group, RBindGroupKind::Primary);
    assert_eq!(plain.write.entry, 0);
    assert_eq!(plain.write.data, block(1));
    let indexed = r
        .add_object(
            RObjectSetup {
                pipeline_id: p,
                vertex_type: RVertexType::Animated,
                vertex_count: 4,
                index_count: 6,
                instances: 3,
            },
            block(2),
        )
        .unwrap();
    assert_eq!(indexed.vertex_buffer_size, 4 * 64);
    assert_eq!(indexed.index_buffer_size, Some(24));
    let obj = r.pipelines()[p.0].objects[1];
    assert!(obj.visible);
    assert_eq!(obj.v_count, 4);
    assert_eq!(obj.index_count, 6);
    assert_eq!(obj.instances, 3);
}

#[test]
fn add_object_failures() {
    let mut r = renderer();
    assert_eq!(
        r.add_object(rect(RPipelineId(0)), block(0)).unwrap_err(),
        RendererError::UnknownPipeline
    );
    let p = r.add_pipeline(RPipelineSetup::default()).unwrap();
    assert_eq!(r.add_object(rect(p), vec![0; 191]).unwrap_err(), RendererError::TransformSize);
    if usize::BITS > 32 {
        let too_many = RObjectSetup { pipeline_id: p, vertex_count: 1 << 32, ..Default::default() };
        assert_eq!(r.add_object(too_many, block(0)).unwrap_err(), RendererError::GeometryTooLarge);
    }
    assert!(r.pipelines()[p.0].objects.is_empty());
}

#[test]
fn update_object_twice_writes_the_same_bytes() {
    let mut r = renderer();
    let p = r
        .add_pipeline(RPipelineSetup {
            uniforms: vec![RUniformSetup {
                bind_slot: 0,
                visibility: RUniformVisibility::Fragment,
                size_in_bytes: 8,
            }],
            ..Default::default()
        })
        .unwrap();
    r.add_object(rect(p), block(0)).unwrap();
    let id = r.add_object(rect(p), block(0)).unwrap().id;
    let update = || RObjectUpdate::new(id, block(9)).with_uniforms(vec![vec![1, 2, 3, 4, 5, 6, 7, 8]]);
    let first = r.update_object(update()).unwrap();
    let state = r.pipelines()[p.0].objects.clone();
    let second = r.update_object(update()).unwrap();
    assert_eq!(first.len(), 2);
    assert_eq!(first.len(), second.len());
    for (a, b) in first.iter().zip(second.iter()) {
        assert_eq!(a.pipeline, b.pipeline);
        assert_eq!(a.group, b.group);
        assert_eq!(a.entry, b.entry);
        assert_eq!(a.offset, b.offset);
        assert_eq!(a.data, b.data);
    }
    assert_eq!(r.pipelines()[p.0].objects, state);
    // applied to a buffer, the second pass changes nothing
    let mut buffer = vec![0u8; 10 * STRIDE as usize];
    let apply = |buffer: &mut Vec<u8>, offset: u64, data: &[u8]| {
        buffer[offset as usize..offset as usize + data.len()].copy_from_slice(data);
    };
    apply(&mut buffer, first[0].offset, &first[0].data);
    let once = buffer.clone();
    apply(&mut buffer, second[0].offset, &second[0].data);
    assert_eq!(buffer, once);
    assert_eq!(first[0].offset, 256);
    assert_eq!(first[1].group, RBindGroupKind::Secondary);
    assert_eq!(first[1].offset, 256);
    assert_eq!(first[1].data, vec![1, 2, 3, 4, 5, 6, 7, 8]);
}

#[test]
fn translating_one_object_leaves_the_other_alone() {
    let mut r = renderer();
    let p = r.add_pipeline(RPipelineSetup { max_obj_count: 2, ..Default::default() }).unwrap();
    let mut buffer = vec![0u8; 2 * STRIDE as usize];
    let mut apply = |offset: u64, data: &[u8]| {
        buffer[offset as usize..offset as usize + data.len()].copy_from_slice(data);
    };
    let first = r.add_object(rect(p), translation_block(0.0, 0.0, 0.0)).unwrap();
    apply(first.write.offset, &first.write.data);
    let second = r.add_object(rect(p), translation_block(0.0, 0.0, 0.0)).unwrap();
    apply(second.write.offset, &second.write.data);
    let writes = r
        .update_object(RObjectUpdate::new(first.id, translation_block(10.0, 0.0, 0.0)))
        .unwrap();
    assert_eq!(writes.len(), 1);
    for w in &writes {
        apply(w.offset, &w.data);
    }
    let draws = r.render(&vec![p], Ok(())).unwrap();
    assert_eq!(draws.len(), 2);
    assert_eq!(draws[0].draw, RDraw::Vertices { vertex_count: 6 });
    let at = |slot: usize| {
        let from = draws[slot].uniform_offset as usize;
        model_translation(&buffer[from..from + 192])
    };
    assert_eq!(at(0), (10.0, 0.0, 0.0));
    assert_eq!(at(1), (0.0, 0.0, 0.0));
}

#[test]
fn update_object_failures_leave_the_object_as_it_was() {
    let mut r = renderer();
    let p = r
        .add_pipeline(RPipelineSetup {
            vertex_type: RVertexType::Animated,
            max_joints_count: 2,
            uniforms: vec![RUniformSetup {
                bind_slot: 0,
                visibility: RUniformVisibility::Both,
                size_in_bytes: 16,
            }],
            ..Default::default()
        })
        .unwrap();
    let id = r.add_object(rect(p), block(0)).unwrap().id;
    let hide = |u: RObjectUpdate| RObjectUpdate { visible: false, ..u };
    assert_eq!(
        r.update_object(RObjectUpdate::new(RObjectId(7, 0), block(0))).unwrap_err(),
        RendererError::UnknownPipeline
    );
    assert_eq!(
        r.update_object(RObjectUpdate::new(RObjectId(p.0, 1), block(0))).unwrap_err(),
        RendererError::UnknownObject
    );
    assert_eq!(
        r.update_object(hide(RObjectUpdate::new(id, vec![0; 200]))).unwrap_err(),
        RendererError::TransformSize
    );
    assert_eq!(
        r.update_object(hide(RObjectUpdate::new(id, block(0)).with_anim(vec![0; 127]))).unwrap_err(),
        RendererError::MissingJoints
    );
    assert_eq!(
        r.update_object(hide(
            RObjectUpdate::new(id, block(0)).with_uniforms(vec![vec![0; 4], vec![0; 4]])
        ))
        .unwrap_err(),
        RendererError::UnknownUniform
    );
    assert_eq!(
        r.update_object(hide(RObjectUpdate::new(id, block(0)).with_uniforms(vec![vec![0; 257]])))
            .unwrap_err(),
        RendererError::UniformTooLarge
    );
    assert!(r.pipelines()[p.0].objects[0].visible);
}

#[test]
fn joints_overwrite_the_shared_buffer() {
    let mut r = renderer();
    let p = r
        .add_pipeline(RPipelineSetup {
            vertex_type: RVertexType::Animated,
            max_joints_count: 2,
            ..Default::default()
        })
        .unwrap();
    let id = r.add_object(rect(p), block(0)).unwrap().id;
    let joints: Vec<u8> = (0..200u8).collect();
    let writes = r.update_object(RObjectUpdate::new(id, block(0)).with_anim(joints.clone())).unwrap();
    assert_eq!(writes.len(), 2);
    assert_eq!(writes[1].group, RBindGroupKind::Primary);
    assert_eq!(writes[1].entry, 1);
    assert_eq!(writes[1].offset, 0);
    assert_eq!(writes[1].data, joints[..128].to_vec());
    // a static pipeline has no joint buffer to write
    let q = r.add_pipeline(RPipelineSetup { max_joints_count: 2, ..Default::default() }).unwrap();
    let other = r.add_object(rect(q), block(0)).unwrap().id;
    let writes = r.update_object(RObjectUpdate::new(other, block(0)).with_anim(joints)).unwrap();
    assert_eq!(writes.len(), 1);
}

#[test]
fn uniforms_are_ignored_where_none_are_declared() {
    let mut r = renderer();
    let p = r.add_pipeline(RPipelineSetup::default()).unwrap();
    let id = r.add_object(rect(p), block(0)).unwrap().id;
    let writes =
        r.update_object(RObjectUpdate::new(id, block(0)).with_uniforms(vec![vec![0; 999]])).unwrap();
    assert_eq!(writes.len(), 1);
}

#[test]
fn hidden_objects_are_not_drawn() {
    let mut r = renderer();
    let p = r.add_pipeline(RPipelineSetup::default()).unwrap();
    let q = r.add_pipeline(RPipelineSetup::default()).unwrap();
    let a = r.add_object(rect(p), block(0)).unwrap().id;
    let b = r
        .add_object(RObjectSetup { pipeline_id: p, vertex_count: 4, index_count: 6, ..Default::default() }, block(0))
        .unwrap()
        .id;
    r.add_object(rect(q), block(0)).unwrap();
    r.update_object(RObjectUpdate { visible: false, ..RObjectUpdate::new(a, block(0)) }).unwrap();
    let draws = r.draws(&[p]).unwrap();
    assert_eq!(draws.len(), 1);
    assert_eq!(draws[0].pipeline, p);
    assert_eq!(draws[0].object, b.1);
    assert_eq!(draws[0].uniform_offset, STRIDE);
    assert_eq!(draws[0].draw, RDraw::Indexed { index_count: 6 });
    assert_eq!(draws[0].instances, 1);
    assert!(!draws[0].custom_uniforms);
    // a pipeline can be named twice, and the order of the names is kept
    let draws = r.draws(&[q, p, q]).unwrap();
    let order: Vec<usize> = draws.iter().map(|d| d.pipeline.0).collect();
    assert_eq!(order, vec![q.0, p.0, q.0]);
    assert_eq!(r.draws(&[]).unwrap(), vec![]);
    assert_eq!(r.draws(&[p, RPipelineId(2)]).unwrap_err(), RendererError::UnknownPipeline);
}
