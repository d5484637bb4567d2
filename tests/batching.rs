use canvas::context::{Context, DrawCall, ViewTransform, MAX_ELEMS, MAX_VERTS};

#[derive(Clone, Copy, Debug, PartialEq)]
struct Vx {
    x: f32,
    y: f32,
    r: f32,
}

type Ctx = Context<Vx, u8, (f32, f32), f32>;
type Draw = DrawCall<Vx, u8, (f32, f32), f32>;

fn vx(x: f32, y: f32) -> Vx {
    Vx { x, y, r: 1.0 }
}

fn fresh() -> Ctx {
    Context::new(0u8, ViewTransform::new((0.0, 0.0), 0.0))
}

fn quad(ctx: &mut Ctx, x: f32, y: f32, w: f32, h: f32) -> Option<Draw> {
    ctx.push_quad(vx(x, y), vx(x + w, y), vx(x, y - h), vx(x + w, y - h))
}

#[test]
fn rect_geometry_and_indices() {
    let mut ctx = fresh();
    assert!(quad(&mut ctx, 10.0, 20.0, 4.0, 6.0).is_none());
    let d = ctx.flush_verts().unwrap();
    assert_eq!(d.vertices, vec![vx(10.0, 20.0), vx(14.0, 20.0), vx(10.0, 14.0), vx(14.0, 14.0)]);
    assert_eq!(d.elements, vec![0, 1, 2, 2, 3, 1]);
}

#[test]
fn second_quad_is_rebased() {
    let mut ctx = fresh();
    assert!(quad(&mut ctx, 0.0, 0.0, 1.0, 1.0).is_none());
    assert!(quad(&mut ctx, 5.0, 5.0, 1.0, 1.0).is_none());
    let d = ctx.flush_verts().unwrap();
    assert_eq!(d.vertices.len(), 8);
    assert_eq!(d.elements, vec![0, 1, 2, 2, 3, 1, 4, 5, 6, 6, 7, 5]);
    assert_eq!(d.vertices[d.elements[6] as usize], vx(5.0, 5.0));
}

#[test]
fn pushes_are_rebased_by_prior_vertex_counts() {
    let mut ctx = fresh();
    let a = [vx(0.0, 0.0), vx(1.0, 0.0), vx(0.0, 1.0)];
    let b = [vx(2.0, 0.0), vx(3.0, 0.0), vx(2.0, 1.0), vx(3.0, 1.0), vx(9.0, 9.0)];
    let c = [vx(7.0, 7.0), vx(8.0, 8.0), vx(7.0, 8.0)];
    assert!(ctx.push_verts(&a, &[2, 1, 0]).is_none());
    assert!(ctx.push_verts(&b, &[0, 1, 2, 4, 3, 2]).is_none());
    assert!(ctx.push_verts(&c, &[1, 2, 0]).is_none());
    let d = ctx.flush_verts().unwrap();
    assert_eq!(d.elements, vec![2, 1, 0, 3, 4, 5, 7, 6, 5, 9, 10, 8]);
    assert_eq!(d.vertices[d.elements[6] as usize], vx(9.0, 9.0));
    assert_eq!(d.vertices[d.elements[9] as usize], vx(8.0, 8.0));
}

#[test]
fn vertex_capacity_flushes_once_and_drains() {
    let mut ctx = fresh();
    for i in 0..(MAX_VERTS / 4) {
        assert!(quad(&mut ctx, i as f32, 0.0, 1.0, 1.0).is_none());
    }
    let d = quad(&mut ctx, 100.0, 0.0, 1.0, 1.0).expect("full batch must be drawn");
    assert_eq!(d.vertices.len(), MAX_VERTS);
    assert_eq!(d.elements.len(), 6 * (MAX_VERTS / 4));
    assert_eq!(d.vertices[0], vx(0.0, 0.0));
    let rest = ctx.flush_verts().unwrap();
    assert_eq!(rest.vertices, vec![vx(100.0, 0.0), vx(101.0, 0.0), vx(100.0, -1.0), vx(101.0, -1.0)]);
    assert_eq!(rest.elements, vec![0, 1, 2, 2, 3, 1]);
    assert!(ctx.flush_verts().is_none());
}

#[test]
fn element_capacity_flushes_once_and_drains() {
    let mut ctx = fresh();
    let one = [vx(1.0, 1.0)];
    for _ in 0..(MAX_ELEMS / 3) {
        assert!(ctx.push_verts(&one, &[0, 0, 0]).is_none());
    }
    let d = ctx.push_verts(&one, &[0, 0, 0]).expect("full batch must be drawn");
    assert_eq!(d.elements.len(), 3 * (MAX_ELEMS / 3));
    assert_eq!(d.vertices.len(), MAX_ELEMS / 3);
    assert_eq!(d.elements[d.elements.len() - 1], (MAX_ELEMS / 3 - 1) as u32);
    let rest = ctx.flush_verts().unwrap();
    assert_eq!(rest.vertices, vec![vx(1.0, 1.0)]);
    assert_eq!(rest.elements, vec![0, 0, 0]);
}

#[test]
fn rotation_change_splits_batches() {
    let mut ctx = fresh();
    let mut draws: Vec<Draw> = Vec::new();
    draws.extend(quad(&mut ctx, 0.0, 0.0, 2.0, 2.0));
    draws.extend(ctx.set_rotation(1.5));
    draws.extend(quad(&mut ctx, 4.0, 4.0, 2.0, 2.0));
    draws.extend(ctx.flush_verts());
    assert_eq!(draws.len(), 2);
    assert_eq!(draws[0].transform.rotation, 0.0);
    assert_eq!(draws[0].vertices[0], vx(0.0, 0.0));
    assert_eq!(draws[1].transform.rotation, 1.5);
    assert_eq!(draws[1].vertices[0], vx(4.0, 4.0));
}

#[test]
fn origin_change_splits_batches() {
    let mut ctx = fresh();
    assert!(quad(&mut ctx, 0.0, 0.0, 2.0, 2.0).is_none());
    let d = ctx.set_origin((3.0, 4.0)).expect("queued quad must be drawn first");
    assert_eq!(d.transform.origin, (0.0, 0.0));
    assert_eq!(d.vertices.len(), 4);
    assert!(!ctx.has_vertices());
    assert!(quad(&mut ctx, 0.0, 0.0, 2.0, 2.0).is_none());
    let d = ctx.flush_verts().unwrap();
    assert_eq!(d.transform.origin, (3.0, 4.0));
    assert_eq!(d.transform.rotation, 0.0);
}

#[test]
fn transform_change_on_idle_context_draws_nothing() {
    let mut ctx = fresh();
    assert!(ctx.set_rotation(0.5).is_none());
    assert!(ctx.set_origin((1.0, 1.0)).is_none());
    assert!(quad(&mut ctx, 0.0, 0.0, 1.0, 1.0).is_none());
    let d = ctx.flush_verts().unwrap();
    assert_eq!(d.transform.origin, (1.0, 1.0));
    assert_eq!(d.transform.rotation, 0.5);
}

#[test]
fn flush_on_idle_context_is_a_no_op() {
    let mut ctx = fresh();
    assert!(!ctx.has_vertices());
    assert!(ctx.flush_verts().is_none());
    assert!(ctx.flush_verts().is_none());
    assert!(quad(&mut ctx, 0.0, 0.0, 1.0, 1.0).is_none());
    assert!(ctx.has_vertices());
    assert!(ctx.flush_verts().is_some());
    assert!(ctx.flush_verts().is_none());
}

#[test]
fn projection_change_does_not_flush() {
    let mut ctx = fresh();
    assert!(quad(&mut ctx, 0.0, 0.0, 1.0, 1.0).is_none());
    ctx.set_projection(7);
    assert!(ctx.has_vertices());
    assert!(quad(&mut ctx, 2.0, 2.0, 1.0, 1.0).is_none());
    let d = ctx.flush_verts().unwrap();
    assert_eq!(d.projection, 7);
    assert_eq!(d.vertices.len(), 8);
    assert_eq!(d.elements.len(), 12);
}

#[test]
fn view_transform_replaces_one_field() {
    let t = ViewTransform::new((1.0f32, 2.0f32), 0.25f32);
    let r = t.with_rotation(3.0);
    assert_eq!(r.origin, (1.0, 2.0));
    assert_eq!(r.rotation, 3.0);
    let o = t.with_origin((5.0, 6.0));
    assert_eq!(o.origin, (5.0, 6.0));
    assert_eq!(o.rotation, 0.25);
}
