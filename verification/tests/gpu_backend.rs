use piet::kurbo::Point;
use piet_backends::batch::{
    BatchKind, BatchList, CopySizes, MeshRequest, MeshSize, PreparedBatch, WgpuBrush, INDEX_SIZE,
    MAX_INDEX_BUFFER_SIZE, MAX_PRIM_BUFFER_SIZE, MAX_VERTEX_BUFFER_SIZE, PRIMITIVE_SIZE,
    VERTEX_SIZE,
};
use piet_backends::float_bits::same_number;
use piet_backends::gradient::{GradientHandle, GradientStop, GradientStore, LinearGradient, TextureSlot};
use piet_backends::render::{WgpuRenderContext, WHITE};

fn stop(pos: f32, rgba: u32) -> GradientStop {
    GradientStop { pos: pos.to_bits(), rgba }
}

fn handle(stops: &[(f32, u32)]) -> GradientHandle {
    GradientHandle::new(stops.iter().map(|s| stop(s.0, s.1)).collect())
}

fn gradient(stops: &[(f32, u32)]) -> WgpuBrush {
    WgpuBrush::LinearGradient(LinearGradient {
        handle: handle(stops),
        start: Point::new(0.0, 0.0),
        end: Point::new(10.0, 5.0),
    })
}

fn projection(width: u32, height: u32) -> [u32; 16] {
    let m: [f32; 16] = [
        2.0 / width as f32, 0.0, 0.0, 0.0,
        0.0, 2.0 / height as f32, 0.0, 0.0,
        0.0, 0.0, 1.0, 0.0,
        -1.0, -1.0, 0.0, 1.0,
    ];
    m.map(f32::to_bits)
}

fn plan(ctx: &mut WgpuRenderContext, p: [u32; 16], width: u32, height: u32) -> (bool, bool) {
    let plan = ctx.render(p, width, height, &[]);
    assert!(plan.batches.is_empty());
    (plan.upload_transform, plan.resize_target)
}

fn sizes(vertices: u64, indices: u64, primitives: u64) -> CopySizes {
    CopySizes { vertices, indices, primitives }
}

#[test]
fn same_number_is_float_equality() {
    let samples: [f32; 12] = [
        0.0, -0.0, 1.0, -1.0, 0.5, f32::MIN_POSITIVE, f32::MAX, f32::INFINITY, f32::NEG_INFINITY,
        f32::NAN, -f32::NAN, 1.0e-40,
    ];
    for a in samples {
        for b in samples {
            assert_eq!(same_number(a.to_bits(), b.to_bits()), a == b, "{} {}", a, b);
        }
    }
    assert!(!same_number(0x7fc0_0001, 0x7fc0_0001));
    assert!(!same_number(0x7f80_0001, 0));
    assert!(same_number(0x7f80_0000, 0x7f80_0000));
    assert!(same_number(0x8000_0000, 0));
}

#[test]
fn handles_compare_stop_by_stop() {
    let a = handle(&[(0.0, 1), (1.0, 2)]);
    assert!(a.eq(&handle(&[(0.0, 1), (1.0, 2)])));
    assert!(a.eq(&handle(&[(-0.0, 1), (1.0, 2)])));
    assert!(!a.eq(&handle(&[(0.0, 1)])));
    assert!(!a.eq(&handle(&[(0.0, 1), (1.0, 3)])));
    assert!(!a.eq(&handle(&[(0.0, 1), (0.5, 2)])));
    assert!(!a.eq(&handle(&[(1.0, 2), (0.0, 1)])));
    assert!(handle(&[]).eq(&handle(&[])));
    let nan = handle(&[(f32::NAN, 1)]);
    assert!(!nan.eq(&nan));
    assert_eq!(a.stops().len(), 2);
    assert_eq!(a.stops()[1].rgba, 2);
    assert!(a.clone().eq(&a));
}

#[test]
fn store_keeps_one_texture_per_gradient() {
    let mut store = GradientStore::new();
    let a = handle(&[(0.0, 1), (1.0, 2)]);
    let b = handle(&[(0.0, 1), (1.0, 3)]);
    assert_eq!(store.get_texture(&a), TextureSlot { index: 0, created: true });
    assert_eq!(store.get_texture(&a), TextureSlot { index: 0, created: false });
    assert_eq!(store.get_texture(&b), TextureSlot { index: 1, created: true });
    assert_eq!(store.get_texture(&a), TextureSlot { index: 0, created: false });
    assert_eq!(store.get_texture(&b), TextureSlot { index: 1, created: false });
    assert_eq!(store.len(), 2);
}

#[test]
fn store_never_finds_a_gradient_with_a_nan() {
    let mut store = GradientStore::new();
    let nan = handle(&[(f32::NAN, 1)]);
    assert_eq!(store.get_texture(&nan), TextureSlot { index: 0, created: true });
    assert_eq!(store.get_texture(&nan), TextureSlot { index: 1, created: true });
    assert_eq!(store.len(), 2);
}

#[test]
fn brushes_know_their_kind() {
    assert!(WgpuBrush::Solid(7).is_solid());
    assert!(!WgpuBrush::Solid(7).is_linear_gradient());
    assert!(gradient(&[(0.0, 1)]).is_linear_gradient());
    assert!(!gradient(&[(0.0, 1)]).is_solid());
}

#[test]
fn solid_drawings_share_a_batch() {
    let mut list = BatchList::new();
    assert_eq!(list.request_mesh(&WgpuBrush::Solid(1)), MeshRequest { batch: 0, created: true, prim_id: 0 });
    assert_eq!(list.request_mesh(&WgpuBrush::Solid(2)), MeshRequest { batch: 0, created: false, prim_id: 1 });
    assert_eq!(list.request_mesh(&WgpuBrush::Solid(1)), MeshRequest { batch: 0, created: false, prim_id: 2 });
    assert_eq!(list.len(), 1);
    match list.batch(0).kind() {
        BatchKind::Solid(batch) => {
            let colors: Vec<u32> = batch.primitives().iter().map(|p| p.color).collect();
            assert_eq!(colors, vec![1, 2, 1]);
        }
        _ => panic!("a solid batch was expected"),
    }
}

#[test]
fn a_change_of_brush_opens_a_batch() {
    let mut list = BatchList::new();
    let g = gradient(&[(0.0, 1), (1.0, 2)]);
    let h = gradient(&[(0.0, 1), (1.0, 9)]);
    assert_eq!(list.request_mesh(&WgpuBrush::Solid(1)), MeshRequest { batch: 0, created: true, prim_id: 0 });
    assert_eq!(list.request_mesh(&g), MeshRequest { batch: 1, created: true, prim_id: 0 });
    assert_eq!(list.request_mesh(&g.clone()), MeshRequest { batch: 1, created: false, prim_id: 1 });
    assert_eq!(list.request_mesh(&h), MeshRequest { batch: 2, created: true, prim_id: 0 });
    assert_eq!(list.request_mesh(&g), MeshRequest { batch: 3, created: true, prim_id: 0 });
    assert_eq!(list.request_mesh(&WgpuBrush::Solid(1)), MeshRequest { batch: 4, created: true, prim_id: 0 });
    assert_eq!(list.len(), 5);
    assert!(list.batch(0).kind().is_compatible_with_brush(&WgpuBrush::Solid(5)));
    assert!(!list.batch(0).kind().is_compatible_with_brush(&g));
    assert!(list.batch(1).kind().is_compatible_with_brush(&g));
    assert!(!list.batch(1).kind().is_compatible_with_brush(&h));
    assert!(!list.batch(1).kind().is_compatible_with_brush(&WgpuBrush::Solid(1)));
    match list.batch(1).kind() {
        BatchKind::LinearGradient(batch) => {
            assert_eq!(batch.primitives().len(), 2);
            assert_eq!(batch.primitives()[0].start, Point::new(0.0, 0.0));
            assert_eq!(batch.primitives()[1].end, Point::new(10.0, 5.0));
            assert_eq!(batch.gradient_handle().stops().len(), 2);
        }
        _ => panic!("a gradient batch was expected"),
    }
}

#[test]
fn a_gradient_with_a_nan_never_shares() {
    let mut list = BatchList::new();
    let g = gradient(&[(f32::NAN, 1)]);
    assert_eq!(list.request_mesh(&g), MeshRequest { batch: 0, created: true, prim_id: 0 });
    assert_eq!(list.request_mesh(&g), MeshRequest { batch: 1, created: true, prim_id: 0 });
}

#[test]
fn copy_sizes_count_bytes() {
    assert_eq!((VERTEX_SIZE, INDEX_SIZE, PRIMITIVE_SIZE), (12, 4, 16));
    assert_eq!((MAX_VERTEX_BUFFER_SIZE, MAX_INDEX_BUFFER_SIZE, MAX_PRIM_BUFFER_SIZE), (35000, 92000, 92000));
    let mut list = BatchList::new();
    list.request_mesh(&WgpuBrush::Solid(1));
    list.request_mesh(&WgpuBrush::Solid(2));
    list.request_mesh(&gradient(&[(0.0, 1)]));
    let mut store = GradientStore::new();
    assert_eq!(
        list.batch(0).prepare_for_render(4, 6, &mut store),
        PreparedBatch { sizes: sizes(48, 24, 32), texture: None }
    );
    assert_eq!(store.len(), 0);
    assert_eq!(
        list.batch(1).prepare_for_render(34999, 91999, &mut store),
        PreparedBatch {
            sizes: sizes(419988, 367996, 16),
            texture: Some(TextureSlot { index: 0, created: true }),
        }
    );
    assert_eq!(store.len(), 1);
    assert_eq!(
        list.batch(0).prepare_for_render(0, 0, &mut store),
        PreparedBatch { sizes: sizes(0, 0, 32), texture: None }
    );
    match (list.batch(0).kind(), list.batch(1).kind()) {
        (BatchKind::Solid(solid), BatchKind::LinearGradient(linear)) => {
            assert_eq!(solid.prepare_for_render(1, 2), sizes(12, 8, 32));
            assert_eq!(
                linear.prepare_for_render(1, 2, &mut store),
                (sizes(12, 8, 16), TextureSlot { index: 0, created: false })
            );
        }
        _ => panic!("a solid and a gradient batch were expected"),
    }
    assert_eq!(store.len(), 1);
}

#[test]
fn preparing_a_frame_stores_every_gradient() {
    let g = gradient(&[(0.0, 1), (1.0, 2)]);
    let h = gradient(&[(0.0, 1), (1.0, 9)]);
    let mut list = BatchList::new();
    for brush in [&WgpuBrush::Solid(1), &g, &WgpuBrush::Solid(2), &h, &g, &g] {
        list.request_mesh(brush);
    }
    assert_eq!(list.len(), 5);
    let meshes: Vec<MeshSize> =
        (0..5).map(|i| MeshSize { vertices: 3 * i, indices: 3 + i }).collect();
    let mut store = GradientStore::new();
    let prepared = list.prepare_for_render(&meshes, &mut store);
    let textures: Vec<Option<TextureSlot>> = prepared.iter().map(|p| p.texture).collect();
    assert_eq!(
        textures,
        vec![
            None,
            Some(TextureSlot { index: 0, created: true }),
            None,
            Some(TextureSlot { index: 1, created: true }),
            Some(TextureSlot { index: 0, created: false }),
        ]
    );
    let copies: Vec<CopySizes> = prepared.iter().map(|p| p.sizes).collect();
    assert_eq!(
        copies,
        vec![sizes(0, 12, 16), sizes(36, 16, 16), sizes(72, 20, 16), sizes(108, 24, 16), sizes(144, 28, 32)]
    );
    assert_eq!(store.len(), 2);
    // a second frame finds every gradient
    let again = list.prepare_for_render(&meshes, &mut store);
    assert!(again.iter().all(|p| p.texture.map_or(true, |slot| !slot.created)));
    assert_eq!(again[3].texture, Some(TextureSlot { index: 1, created: false }));
    assert_eq!(store.len(), 2);
}

#[test]
fn a_gradient_with_a_nan_gets_a_texture_each_frame() {
    let mut list = BatchList::new();
    list.request_mesh(&gradient(&[(f32::NAN, 1)]));
    let meshes = [MeshSize { vertices: 0, indices: 0 }];
    let mut store = GradientStore::new();
    assert_eq!(
        list.prepare_for_render(&meshes, &mut store)[0].texture,
        Some(TextureSlot { index: 0, created: true })
    );
    assert_eq!(
        list.prepare_for_render(&meshes, &mut store)[0].texture,
        Some(TextureSlot { index: 1, created: true })
    );
    assert_eq!(store.len(), 2);
}

#[test]
fn render_prepares_the_batches() {
    let mut ctx = WgpuRenderContext::new(4, 4);
    let g = gradient(&[(0.25, 7)]);
    ctx.wgpu_ctx.batch_list.request_mesh(&g);
    ctx.wgpu_ctx.batch_list.request_mesh(&WgpuBrush::Solid(3));
    let meshes = [MeshSize { vertices: 10, indices: 30 }, MeshSize { vertices: 4, indices: 6 }];
    let plan = ctx.render(projection(4, 4), 4, 4, &meshes);
    assert!(plan.upload_transform && !plan.resize_target);
    assert_eq!(
        plan.batches,
        vec![
            PreparedBatch {
                sizes: sizes(120, 120, 16),
                texture: Some(TextureSlot { index: 0, created: true }),
            },
            PreparedBatch { sizes: sizes(48, 24, 16), texture: None },
        ]
    );
    assert_eq!(ctx.wgpu_ctx.gradient_store.len(), 1);
    assert_eq!(ctx.wgpu_ctx.batch_list.len(), 2);
    let plan = ctx.render(projection(4, 4), 4, 4, &meshes);
    assert!(!plan.upload_transform && !plan.resize_target);
    assert_eq!(plan.batches[0].texture, Some(TextureSlot { index: 0, created: false }));
    assert_eq!(ctx.wgpu_ctx.gradient_store.len(), 1);
}

#[test]
fn first_frame_uploads_the_projection() {
    let mut ctx = WgpuRenderContext::new(640, 480);
    assert_eq!(ctx.wgpu_ctx.clear_color, WHITE);
    assert_eq!(ctx.wgpu_ctx.current_size, (640, 480));
    let identity: [f32; 16] = [
        1.0, 0.0, 0.0, 0.0, 0.0, 1.0, 0.0, 0.0, 0.0, 0.0, 1.0, 0.0, 0.0, 0.0, 0.0, 1.0,
    ];
    assert_eq!(ctx.wgpu_ctx.current_transform, identity.map(f32::to_bits));
    let p = projection(640, 480);
    assert_eq!(plan(&mut ctx, p, 640, 480), (true, false));
    assert_eq!(ctx.wgpu_ctx.current_transform, p);
    assert_eq!(plan(&mut ctx, p, 640, 480), (false, false));
}

#[test]
fn a_new_size_resizes_the_target() {
    let mut ctx = WgpuRenderContext::new(640, 480);
    plan(&mut ctx, projection(640, 480), 640, 480);
    let p = projection(800, 480);
    assert_eq!(plan(&mut ctx, p, 800, 480), (true, true));
    assert_eq!(ctx.wgpu_ctx.current_size, (800, 480));
    assert_eq!(plan(&mut ctx, p, 800, 600), (false, true));
    assert_eq!(ctx.wgpu_ctx.current_size, (800, 600));
    assert_eq!(ctx.wgpu_ctx.current_transform, p);
}

#[test]
fn zeros_of_either_sign_need_no_upload() {
    let mut ctx = WgpuRenderContext::new(1, 1);
    let mut m = ctx.wgpu_ctx.current_transform;
    m[1] = (-0.0f32).to_bits();
    assert_eq!(plan(&mut ctx, m, 1, 1), (false, false));
    assert_eq!(ctx.wgpu_ctx.current_transform[1], 0);
    m[2] = f32::NAN.to_bits();
    assert_eq!(plan(&mut ctx, m, 1, 1), (true, false));
    assert_eq!(plan(&mut ctx, m, 1, 1), (true, false));
}

#[test]
fn clear_sets_the_background() {
    let mut ctx = WgpuRenderContext::new(2, 2);
    ctx.clear(0x1122_3344);
    assert_eq!(ctx.wgpu_ctx.clear_color, 0x1122_3344);
    assert!(ctx.finish().is_ok());
    assert!(ctx.solid_brush(9).is_solid());
    assert_eq!(ctx.wgpu_ctx.batch_list.len(), 0);
    assert_eq!(ctx.wgpu_ctx.gradient_store.len(), 0);
}

#[test]
fn every_drawing_adds_one_primitive() {
    fn count(list: &BatchList) -> usize {
        (0..list.len())
            .map(|i| match list.batch(i).kind() {
                BatchKind::Solid(batch) => batch.primitives().len(),
                BatchKind::LinearGradient(batch) => batch.primitives().len(),
            })
            .sum()
    }
    let brushes = [
        WgpuBrush::Solid(1),
        gradient(&[(0.0, 1)]),
        gradient(&[(0.0, 1)]),
        WgpuBrush::Solid(2),
        WgpuBrush::Solid(3),
        gradient(&[(0.5, 1)]),
    ];
    let mut list = BatchList::new();
    for (n, brush) in brushes.iter().enumerate() {
        let before = list.len();
        let request = list.request_mesh(brush);
        assert_eq!(count(&list), n + 1);
        assert_eq!(list.len(), if request.created { before + 1 } else { before });
        assert_eq!(request.batch, list.len() - 1);
    }
    assert_eq!(list.len(), 4);
    for i in 0..list.len() {
        assert!(count(&list) > 0 && list.batch(i).prepare_for_render(0, 0, &mut GradientStore::new()).sizes.primitives > 0);
    }
}
