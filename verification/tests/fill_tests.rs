use abglyph::into_fill::fill_mesh_rows;

use lyon::math::point;
use lyon::tessellation::geometry_builder::Positions;
use lyon::tessellation::BuffersBuilder;
use lyon::tessellation::FillOptions;
use lyon::tessellation::FillRule;
use lyon::tessellation::FillTessellator;
use lyon::tessellation::VertexBuffers;

#[test]
fn fill_rows_exact_two_triangles() {
    let indices: Vec<usize> = vec![0, 1, 2, 2, 3, 0];
    let (vs, gs, ps, ts) = fill_mesh_rows(&indices, 4);
    assert_eq!(vs, vec![0, 1, 2, 2, 3, 0]);
    assert_eq!(gs, vec![0, 0, 0, 0, 0, 0]);
    assert_eq!(ps, vec![0, 0, 0, 0, 0, 0]);
    assert_eq!(ts, vec![0, 0, 0, 1, 1, 1]);
}

#[test]
fn fill_rows_skip_indices_without_vertex() {
    let indices: Vec<usize> = vec![0, 5, 1, 1, 0, 5];
    let (vs, gs, ps, ts) = fill_mesh_rows(&indices, 2);
    assert_eq!(vs, vec![0, 1, 1, 0]);
    assert_eq!(gs, vec![0, 0, 0, 0]);
    assert_eq!(ps, vec![0, 0, 0, 0]);
    assert_eq!(ts, vec![0, 0, 1, 1]);
}

#[test]
fn fill_rows_empty_mesh() {
    let (vs, gs, ps, ts) = fill_mesh_rows(&Vec::new(), 0);
    assert!(vs.is_empty());
    assert!(gs.is_empty());
    assert!(ps.is_empty());
    assert!(ts.is_empty());
}

#[test]
fn fill_mesh_conserves_ring_area() {
    // A square with a square hole: the mesh's area is the outer area minus
    // the hole's, and no triangle lands inside the hole.
    let mut builder = lyon::path::Path::builder();
    builder.begin(point(0.0, 0.0));
    builder.line_to(point(10.0, 0.0));
    builder.line_to(point(10.0, 10.0));
    builder.line_to(point(0.0, 10.0));
    builder.end(true);
    builder.begin(point(3.0, 3.0));
    builder.line_to(point(3.0, 7.0));
    builder.line_to(point(7.0, 7.0));
    builder.line_to(point(7.0, 3.0));
    builder.end(true);
    let path = builder.build();

    let mut geometry: VertexBuffers<lyon::math::Point, usize> = VertexBuffers::new();
    let mut tessellator = FillTessellator::new();
    let options = FillOptions::tolerance(0.01).with_fill_rule(FillRule::NonZero);
    tessellator
        .tessellate_path(&path, &options, &mut BuffersBuilder::new(&mut geometry, Positions))
        .unwrap();

    let (vs, _, _, ts) = fill_mesh_rows(&geometry.indices, geometry.vertices.len());
    assert_eq!(vs.len() % 3, 0);
    assert_eq!(vs.len(), geometry.indices.len());

    let mut area = 0.0f64;
    let mut n = 0;
    while n < vs.len() {
        assert_eq!(ts[n], ts[n + 1]);
        assert_eq!(ts[n], ts[n + 2]);
        assert_eq!(ts[n] as usize, n / 3);
        let a = geometry.vertices[vs[n]];
        let b = geometry.vertices[vs[n + 1]];
        let c = geometry.vertices[vs[n + 2]];
        let (ax, ay) = (a.x as f64, a.y as f64);
        let (bx, by) = (b.x as f64, b.y as f64);
        let (cx, cy) = (c.x as f64, c.y as f64);
        area += ((bx - ax) * (cy - ay) - (cx - ax) * (by - ay)).abs() / 2.0;
        let (mx, my) = ((ax + bx + cx) / 3.0, (ay + by + cy) / 3.0);
        let inside_hole = mx > 3.001 && mx < 6.999 && my > 3.001 && my < 6.999;
        assert!(!inside_hole, "triangle centroid ({mx},{my}) lies inside the hole");
        n += 3;
    }
    assert!((area - 84.0).abs() < 0.01, "fill area was {area}");
}
