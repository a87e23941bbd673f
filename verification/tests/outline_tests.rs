use abglyph::builder::LyonPathBuilder;
use abglyph::geom::Pt;

fn unit_square(b: &mut LyonPathBuilder, side: i64) {
    b.move_to(0, 0);
    b.line_to(side, 0);
    b.line_to(side, side);
    b.line_to(0, side);
    b.line_to(0, 0);
    b.close();
}

#[test]
fn unit_square_round_trip() {
    // One straight-line glyph: four corners plus the closing point come back,
    // all tagged glyph 0 and sub-path 0.
    let mut b = LyonPathBuilder::new(1);
    unit_square(&mut b, 100);
    let (xs, ys, gids, pids) = b.into_path();
    assert_eq!(xs, vec![0, 100, 100, 0, 0]);
    assert_eq!(ys, vec![0, 0, 100, 100, 0]);
    assert_eq!(gids, vec![0, 0, 0, 0, 0]);
    assert_eq!(pids, vec![0, 0, 0, 0, 0]);
}

#[test]
fn into_path_flattens_quadratic_exactly() {
    // Quadratic from (0,0) with control (100,0) to (100,100): at tolerance 24
    // one subdivision happens, at 25 none.
    let mut b = LyonPathBuilder::new(24);
    b.move_to(0, 0);
    b.quad_to(100, 0, 100, 100);
    b.close();
    let (xs, ys, gids, pids) = b.into_path();
    assert_eq!(xs, vec![0, 75, 100]);
    assert_eq!(ys, vec![0, 25, 100]);
    assert_eq!(gids, vec![0, 0, 0]);
    assert_eq!(pids, vec![0, 0, 0]);

    let mut b = LyonPathBuilder::new(25);
    b.move_to(0, 0);
    b.quad_to(100, 0, 100, 100);
    b.close();
    let (xs, ys, _, _) = b.into_path();
    assert_eq!(xs, vec![0, 100]);
    assert_eq!(ys, vec![0, 100]);
}

#[test]
fn finer_tolerance_never_fewer_points() {
    // A fixed curved contour flattened at a decreasing tolerance emits at
    // least as many points each step.
    let mut counts: Vec<usize> = Vec::new();
    for tol in [64u32, 16, 4, 1] {
        let mut b = LyonPathBuilder::new(tol);
        b.move_to(0, 0);
        b.quad_to(500, 0, 500, 500);
        b.curve_to(500, 900, 100, 900, 0, 500);
        b.close();
        let (xs, _, _, _) = b.into_path();
        counts.push(xs.len());
    }
    assert!(counts[0] <= counts[1]);
    assert!(counts[1] <= counts[2]);
    assert!(counts[2] <= counts[3]);
}

#[test]
fn into_path_identical_input_identical_output() {
    // Two pipelines built from identical input give bit-identical arrays.
    let build = || {
        let mut b = LyonPathBuilder::new(3);
        b.move_to(0, 0);
        b.quad_to(40, 0, 40, 40);
        b.curve_to(40, 80, 0, 80, 0, 40);
        b.close();
        b
    };
    let a = build().into_path();
    let b = build().into_path();
    assert_eq!(a.0, b.0);
    assert_eq!(a.1, b.1);
    assert_eq!(a.2, b.2);
    assert_eq!(a.3, b.3);
}

#[test]
fn glyph_and_subpath_tags_follow_events() {
    // Two contours from two glyphs: every point carries its glyph's id and
    // its contour's sub-path id.
    let mut b = LyonPathBuilder::new(1);
    b.move_to(0, 0);
    b.line_to(10, 0);
    b.close();
    b.cur_glyph_id = 1;
    b.move_to(20, 0);
    b.line_to(30, 0);
    b.close();
    assert_eq!(b.cur_path_id, 2);
    let (xs, _, gids, pids) = b.into_path();
    assert_eq!(xs, vec![0, 10, 20, 30]);
    assert_eq!(gids, vec![0, 0, 1, 1]);
    assert_eq!(pids, vec![0, 0, 1, 1]);
}

#[test]
fn offset_translates_collected_points() {
    // Points collected after the offset moved are translated by it.
    let mut b = LyonPathBuilder::new(1);
    b.apply_advance(Some(250));
    b.move_to(10, 5);
    b.line_to(20, 5);
    b.close();
    let (xs, ys, _, _) = b.into_path();
    assert_eq!(xs, vec![260, 270]);
    assert_eq!(ys, vec![5, 5]);
}

#[test]
fn curve_flattening_ends_at_endpoint() {
    // However coarse or fine, a flattened curve always lands on the segment's
    // end point.
    for tol in [1u32, 7, 1000] {
        let mut b = LyonPathBuilder::new(tol);
        b.move_to(-300, -300);
        b.curve_to(-100, 500, 400, -700, 300, 300);
        b.close();
        let (xs, ys, _, _) = b.into_path();
        assert_eq!(*xs.last().unwrap(), 300);
        assert_eq!(*ys.last().unwrap(), 300);
        assert_eq!(xs[0], -300);
        assert_eq!(ys[0], -300);
    }
}

#[test]
fn points_are_plain_pairs() {
    let p = Pt { x: 3, y: -4 };
    assert_eq!(p, Pt { x: 3, y: -4 });
}
