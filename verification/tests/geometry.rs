use bevy::math::cubic_splines::CubicCardinalSpline;
use bevy::math::cubic_splines::CyclicCubicGenerator;
use bevy::math::Vec2;
use racing::bounds::boundary_pair_at;
use racing::bounds::bounds_of;
use racing::bounds::compute_bounds;
use racing::bounds::offset_samples;
use racing::bounds::offsets;
use racing::bounds::tangent;
use racing::bounds::HALF_WIDTH;
use racing::curve::resolution_fits;
use racing::curve::sampling_fits;
use racing::curve::Curve;
use racing::curve::Curves;
use racing::level::instantiate_track;
use racing::ring::tessellate;
use racing::ring::RingMesh;
use racing::ring::TrackPart;
use racing::track::copy_points;
use racing::track::seed_points;
use racing::track::CurrentTrack;
use racing::track::RaceTrack;
use racing::track::RESOLUTION;

fn square() -> Vec<Vec2> {
    vec![
        Vec2::new(0.0, 0.0),
        Vec2::new(100.0, 0.0),
        Vec2::new(100.0, 100.0),
        Vec2::new(0.0, 100.0),
    ]
}

fn track(points: Vec<Vec2>) -> RaceTrack {
    RaceTrack { track_name: "Test".to_string(), points }
}

fn reference_positions(points: &[Vec2], subdivisions: usize) -> Vec<Vec2> {
    CubicCardinalSpline::new_catmull_rom(points.iter().copied())
        .to_curve_cyclic()
        .unwrap()
        .iter_positions(subdivisions)
        .collect()
}

#[test]
fn seed_points_are_the_seed_path() {
    assert_eq!(seed_points(), vec![Vec2::new(-500.0, -200.0), Vec2::new(-500.0, -150.0)]);
}

#[test]
fn copy_points_copies() {
    let points = square();
    assert_eq!(copy_points(&points), points);
    assert_eq!(copy_points(&[]), Vec::<Vec2>::new());
}

#[test]
fn fewer_than_two_points_have_no_curve() {
    assert!(Curve::fit(&[]).is_none());
    assert!(Curve::fit(&[Vec2::new(3.0, 4.0)]).is_none());
    assert!(track(vec![]).form_curve().0.is_none());
    assert!(track(vec![Vec2::new(3.0, 4.0)]).form_curve().0.is_none());
    assert!(Curves::default().0.is_none());
}

#[test]
fn curve_has_one_segment_per_control_point() {
    let mut points = Vec::new();
    for n in 0..9 {
        points.push(Vec2::new(n as f32 * 10.0, (n * n) as f32));
        let curve = Curve::fit(&points);
        if points.len() < 2 {
            assert!(curve.is_none());
        } else {
            assert_eq!(curve.unwrap().segment_count(), points.len());
        }
    }
}

#[test]
fn two_points_make_a_closed_curve_of_two_segments() {
    let curve = Curve::fit(&seed_points()).unwrap();
    assert_eq!(curve.segment_count(), 2);
    let samples = curve.positions(4);
    assert_eq!(samples.len(), 4);
    assert_eq!(samples[0], Vec2::new(-500.0, -200.0));
    assert_eq!(samples[2], Vec2::new(-500.0, -150.0));
}

#[test]
fn sampling_at_resolution_r_yields_r_positions() {
    let curve = Curve::fit(&square()).unwrap();
    for resolution in [0usize, 1, 2, 3, 4, 5, 20, 400] {
        assert_eq!(curve.positions(resolution).len(), resolution);
    }
}

#[test]
fn samples_are_the_evenly_spaced_positions_without_the_closing_one() {
    let points = vec![
        Vec2::new(0.0, 0.0),
        Vec2::new(40.0, 10.0),
        Vec2::new(60.0, 80.0),
        Vec2::new(-20.0, 50.0),
        Vec2::new(-30.0, 15.0),
    ];
    let curve = Curve::fit(&points).unwrap();
    for resolution in [1usize, 5, 17, 25] {
        let mut expected = reference_positions(&points, resolution);
        assert_eq!(expected.len(), resolution + 1);
        expected.pop();
        assert_eq!(curve.positions(resolution), expected);
    }
}

#[test]
fn curve_passes_through_its_control_points() {
    let points = square();
    let curve = Curve::fit(&points).unwrap();
    let samples = curve.positions(4);
    assert_eq!(samples, points);
    let samples = curve.positions(8);
    for (i, point) in points.iter().enumerate() {
        assert_eq!(samples[2 * i], *point);
    }
    assert_eq!(samples[1], Vec2::new(50.0, -12.5));
}

#[test]
fn coincident_points_still_have_a_curve() {
    let points = vec![Vec2::new(5.0, 5.0), Vec2::new(5.0, 5.0), Vec2::new(5.0, 5.0)];
    let curve = Curve::fit(&points).unwrap();
    assert_eq!(curve.segment_count(), 3);
    let samples = curve.positions(6);
    assert_eq!(samples, vec![Vec2::new(5.0, 5.0); 6]);
    let bounds = offsets(&curve, 6, HALF_WIDTH);
    assert_eq!(bounds, vec![(Vec2::new(5.0, 5.0), Vec2::new(5.0, 5.0)); 6]);
}

#[test]
fn fit_checks_follow_the_size_of_a_position() {
    assert!(resolution_fits(0));
    assert!(resolution_fits(1_000_000));
    assert!(!resolution_fits(usize::MAX));
    assert!(resolution_fits(isize::MAX as usize / 8 - 1));
    assert!(!resolution_fits(isize::MAX as usize / 8));
    assert!(sampling_fits(4, 100));
    assert!(sampling_fits(0, usize::MAX));
    assert!(!sampling_fits(usize::MAX, 2));
    assert!(!sampling_fits(isize::MAX as usize / 8, 1));
}

#[test]
fn tangent_is_a_central_difference_inside() {
    let samples = [Vec2::new(1.0, 2.0), Vec2::new(10.0, 0.0), Vec2::new(30.0, 4.0)];
    assert_eq!(tangent(&samples, 1), Vec2::new(14.5, 1.0));
}

#[test]
fn tangent_is_a_forward_difference_at_the_start() {
    let samples = [Vec2::new(1.0, 2.0), Vec2::new(10.0, 0.0), Vec2::new(30.0, 4.0)];
    assert_eq!(tangent(&samples, 0), Vec2::new(9.0, -2.0));
}

#[test]
fn tangent_is_a_backward_difference_at_the_end() {
    let samples = [Vec2::new(1.0, 2.0), Vec2::new(10.0, 0.0), Vec2::new(30.0, 4.0)];
    assert_eq!(tangent(&samples, 2), Vec2::new(20.0, 4.0));
}

#[test]
fn tangent_of_a_lone_sample_is_zero() {
    assert_eq!(tangent(&[Vec2::new(7.0, -3.0)], 0), Vec2::ZERO);
}

#[test]
fn boundary_pair_of_a_straight_run() {
    let samples = [Vec2::new(0.0, 0.0), Vec2::new(10.0, 0.0), Vec2::new(20.0, 0.0)];
    let bounds = compute_bounds(&samples);
    assert_eq!(
        bounds,
        vec![
            (Vec2::new(0.0, -20.0), Vec2::new(0.0, 20.0)),
            (Vec2::new(10.0, -20.0), Vec2::new(10.0, 20.0)),
            (Vec2::new(20.0, -20.0), Vec2::new(20.0, 20.0)),
        ]
    );
}

#[test]
fn boundary_pair_turns_the_tangent_clockwise_for_the_outer_point() {
    let samples = [Vec2::new(3.0, 4.0), Vec2::new(3.0, 14.0)];
    let (outer, inner) = boundary_pair_at(&samples, 0, 5);
    assert_eq!(outer, Vec2::new(8.0, 4.0));
    assert_eq!(inner, Vec2::new(-2.0, 4.0));
    let (outer, inner) = boundary_pair_at(&samples, 1, 5);
    assert_eq!(outer, Vec2::new(8.0, 14.0));
    assert_eq!(inner, Vec2::new(-2.0, 14.0));
}

#[test]
fn boundary_pair_uses_the_unit_tangent() {
    let samples = [Vec2::new(0.0, 0.0), Vec2::new(30.0, 40.0), Vec2::new(60.0, 80.0)];
    let (outer, inner) = boundary_pair_at(&samples, 1, 10);
    assert!((outer - Vec2::new(38.0, 34.0)).length() < 1e-4);
    assert!((inner - Vec2::new(22.0, 46.0)).length() < 1e-4);
}

#[test]
fn boundary_points_sit_half_a_width_from_their_sample() {
    let points = vec![
        Vec2::new(0.0, 0.0),
        Vec2::new(300.0, 40.0),
        Vec2::new(350.0, 260.0),
        Vec2::new(120.0, 380.0),
        Vec2::new(-80.0, 200.0),
    ];
    let curve = Curve::fit(&points).unwrap();
    let resolution = 10 * curve.segment_count();
    let samples = curve.positions(resolution);
    for half_width in [1, 20, 75] {
        let bounds = offsets(&curve, resolution, half_width);
        assert_eq!(bounds.len(), resolution);
        for (sample, (outer, inner)) in samples.iter().zip(bounds.iter()) {
            assert!((outer.distance(*sample) - half_width as f32).abs() < 1e-3);
            assert!((inner.distance(*sample) - half_width as f32).abs() < 1e-3);
            assert!(((*outer + *inner) / 2.0).distance(*sample) < 1e-3);
        }
    }
}

#[test]
fn coincident_samples_collapse_the_pair_onto_the_sample() {
    let samples = [Vec2::new(5.0, 6.0), Vec2::new(5.0, 6.0), Vec2::new(5.0, 6.0)];
    let bounds = compute_bounds(&samples);
    assert_eq!(bounds, vec![(Vec2::new(5.0, 6.0), Vec2::new(5.0, 6.0)); 3]);
    assert_eq!(compute_bounds(&[Vec2::new(1.0, 2.0)]), vec![(Vec2::new(1.0, 2.0), Vec2::new(1.0, 2.0))]);
}

#[test]
fn bounds_have_one_pair_per_sample() {
    assert!(compute_bounds(&[]).is_empty());
    let mut samples = Vec::new();
    for n in 0..12 {
        samples.push(Vec2::new(n as f32, (n % 3) as f32));
        assert_eq!(compute_bounds(&samples).len(), samples.len());
        assert_eq!(offset_samples(&samples, 3).len(), samples.len());
    }
}

#[test]
fn compute_bounds_uses_the_standard_half_width() {
    assert_eq!(HALF_WIDTH, 20);
    let samples = [Vec2::new(0.0, 0.0), Vec2::new(0.0, 9.0)];
    assert_eq!(compute_bounds(&samples), offset_samples(&samples, 20));
    assert_eq!(compute_bounds(&samples)[0], (Vec2::new(20.0, 0.0), Vec2::new(-20.0, 0.0)));
}

#[test]
fn offsets_sample_the_curve() {
    let curve = Curve::fit(&square()).unwrap();
    let samples = curve.positions(12);
    assert_eq!(offsets(&curve, 12, 7), offset_samples(&samples, 7));
    assert!(offsets(&curve, 0, 7).is_empty());
}

#[test]
fn track_bounds_take_five_samples_per_control_point() {
    assert_eq!(RESOLUTION, 5);
    let track = track(square());
    let bounds = track.get_bounds();
    assert_eq!(bounds.len(), 20);
    let curve = Curve::fit(&square()).unwrap();
    assert_eq!(bounds, offsets(&curve, 20, 20));
    assert_eq!(bounds, bounds_of(Some(&curve), 5, 20));
    assert!(bounds_of(None, 5, 20).is_empty());
}

#[test]
fn degenerate_tracks_have_no_curve_no_bounds_and_no_quads() {
    for points in [vec![], vec![Vec2::new(1.0, 1.0)]] {
        let track = track(points);
        assert!(track.form_curve().0.is_none());
        let bounds = track.get_bounds();
        assert!(bounds.is_empty());
        let mesh = tessellate(&bounds);
        assert_eq!(mesh.quad_count(), 0);
        assert!(mesh.parts.is_empty());
    }
}

#[test]
fn square_loop_makes_four_quads_and_four_hulls() {
    let bounds = compute_bounds(&square());
    assert_eq!(bounds.len(), 4);
    let mesh = tessellate(&bounds);
    assert_eq!(mesh.quad_count(), 4);
    let mut triangles = 0;
    let mut hulls = 0;
    for part in mesh.parts.iter() {
        assert_eq!(part.vertices().len(), 4);
        assert_eq!(part.indices().len() % 3, 0);
        triangles += part.indices().len() / 3;
        assert_eq!(part.hull().len(), 4);
        hulls += 1;
    }
    assert_eq!(triangles, 8);
    assert_eq!(hulls, 4);

    let curve = Curve::fit(&square()).unwrap();
    let mesh = tessellate(&offsets(&curve, curve.segment_count(), HALF_WIDTH));
    assert_eq!(mesh.quad_count(), 4);
}

#[test]
fn quads_join_each_pair_to_the_next_and_the_last_to_the_first() {
    let bounds: Vec<(Vec2, Vec2)> = (0..5)
        .map(|n| (Vec2::new(n as f32, 1.0), Vec2::new(n as f32, -1.0)))
        .collect();
    let mesh = tessellate(&bounds);
    assert_eq!(mesh.parts.len(), 5);
    for i in 0..5 {
        let j = (i + 1) % 5;
        let part = mesh.parts[i];
        assert_eq!(part.outer_start, bounds[i].0);
        assert_eq!(part.inner_start, bounds[i].1);
        assert_eq!(part.outer_end, bounds[j].0);
        assert_eq!(part.inner_end, bounds[j].1);
    }
    assert_eq!(mesh.parts[4].outer_end, Vec2::new(0.0, 1.0));
}

#[test]
fn a_single_pair_makes_one_closed_quad() {
    let bounds = [(Vec2::new(1.0, 2.0), Vec2::new(3.0, 4.0))];
    let mesh = tessellate(&bounds);
    assert_eq!(mesh.parts.len(), 1);
    assert_eq!(mesh.parts[0].outer_end, Vec2::new(1.0, 2.0));
    assert_eq!(mesh.parts[0].inner_end, Vec2::new(3.0, 4.0));
}

#[test]
fn quad_buffers_follow_the_vertex_order() {
    let part = TrackPart {
        outer_start: Vec2::new(0.0, 1.0),
        inner_start: Vec2::new(0.0, -1.0),
        outer_end: Vec2::new(2.0, 1.0),
        inner_end: Vec2::new(2.0, -1.0),
    };
    let vertices = part.vertices();
    assert_eq!(
        vertices,
        [Vec2::new(0.0, 1.0), Vec2::new(0.0, -1.0), Vec2::new(2.0, 1.0), Vec2::new(2.0, -1.0)]
    );
    assert_eq!(part.indices(), [0, 2, 3, 0, 1, 3]);
    let indices = part.indices();
    let first: Vec<Vec2> = indices[0..3].iter().map(|&k| vertices[k as usize]).collect();
    let second: Vec<Vec2> = indices[3..6].iter().map(|&k| vertices[k as usize]).collect();
    assert_eq!(first, vec![part.outer_start, part.outer_end, part.inner_end]);
    assert_eq!(second, vec![part.outer_start, part.inner_start, part.inner_end]);
    assert_eq!(
        part.hull(),
        [Vec2::new(0.0, 1.0), Vec2::new(2.0, 1.0), Vec2::new(2.0, -1.0), Vec2::new(0.0, -1.0)]
    );
}

#[test]
fn regenerate_leaves_nothing_of_the_earlier_surface() {
    let mut mesh = tessellate(&compute_bounds(&square()));
    assert_eq!(mesh.quad_count(), 4);
    let bounds = [
        (Vec2::new(0.0, 1.0), Vec2::new(0.0, -1.0)),
        (Vec2::new(1.0, 1.0), Vec2::new(1.0, -1.0)),
    ];
    mesh.regenerate(&bounds);
    assert_eq!(mesh.quad_count(), 2);
    assert_eq!(mesh.parts[0].outer_start, Vec2::new(0.0, 1.0));
    assert_eq!(mesh.parts[1].outer_end, Vec2::new(0.0, 1.0));
    mesh.regenerate(&bounds);
    assert_eq!(mesh.quad_count(), 2);
    mesh.regenerate(&[]);
    assert_eq!(mesh.quad_count(), 0);
}

#[test]
fn instantiate_track_rebuilds_only_a_changed_track() {
    let mut mesh = RingMesh::new();
    let current = CurrentTrack(Some(track(square())));
    instantiate_track(&current, false, &mut mesh);
    assert_eq!(mesh.quad_count(), 0);
    instantiate_track(&current, true, &mut mesh);
    assert_eq!(mesh.quad_count(), 20);
    let bounds = track(square()).get_bounds();
    assert_eq!(mesh.parts[19].outer_start, bounds[19].0);
    assert_eq!(mesh.parts[19].inner_end, bounds[0].1);

    let none = CurrentTrack(None);
    instantiate_track(&none, true, &mut mesh);
    assert_eq!(mesh.quad_count(), 20);

    let short = CurrentTrack(Some(track(vec![Vec2::new(1.0, 1.0)])));
    instantiate_track(&short, false, &mut mesh);
    assert_eq!(mesh.quad_count(), 20);
    instantiate_track(&short, true, &mut mesh);
    assert_eq!(mesh.quad_count(), 0);
}
