use sidequest::sample::{closest_hit, next_event, Bounce, Event, Path, SampleParams};

#[test]
fn closest_hit_takes_the_nearest_surface_in_any_order() {
    assert_eq!(closest_hit(&vec![Some(50), Some(20), Some(30)], 0), Some(1));
    assert_eq!(closest_hit(&vec![Some(20), Some(50), Some(30)], 0), Some(0));
    assert_eq!(closest_hit(&vec![Some(50), Some(30), Some(20)], 0), Some(2));
    assert_eq!(closest_hit(&vec![None, Some(30), None, Some(31)], 0), Some(1));
}

#[test]
fn closest_hit_skips_what_lies_within_the_margin() {
    assert_eq!(closest_hit(&vec![Some(3), Some(20), Some(10)], 5), Some(2));
    assert_eq!(closest_hit(&vec![Some(5), Some(6)], 5), Some(1));
    assert_eq!(closest_hit(&vec![Some(5), Some(4)], 5), None);
    assert_eq!(closest_hit(&vec![Some(0)], 0), None);
}

#[test]
fn closest_hit_of_a_miss_is_none() {
    assert_eq!(closest_hit(&vec![], 0), None);
    assert_eq!(closest_hit(&vec![None, None], 0), None);
}

#[test]
fn closest_hit_breaks_ties_by_order() {
    assert_eq!(closest_hit(&vec![Some(9), Some(7), Some(7), Some(8)], 1), Some(1));
    assert_eq!(closest_hit(&vec![Some(u64::MAX), Some(u64::MAX)], 1), Some(0));
}

#[test]
fn a_miss_is_lit_by_the_sky() {
    assert_eq!(next_event(None, 0, false), Event::Ambient);
    assert_eq!(next_event(None, 12, true), Event::Ambient);
}

#[test]
fn a_hit_with_no_bounce_left_takes_the_surface_light() {
    assert_eq!(next_event(Some(4), 0, true), Event::Emission(4));
    assert_eq!(next_event(Some(4), 0, false), Event::Emission(4));
}

#[test]
fn a_hit_with_bounces_left_scatters() {
    assert_eq!(next_event(Some(2), 1, true), Event::Scatter(2, Bounce::Specular));
    assert_eq!(next_event(Some(2), 1, false), Event::Scatter(2, Bounce::Diffuse));
    assert_eq!(next_event(Some(0), usize::MAX, false), Event::Scatter(0, Bounce::Diffuse));
}

#[test]
fn a_path_never_bounces_more_often_than_its_limit() {
    for limit in 0..6usize {
        let mut path = Path::new(limit);
        let mut bounces = 0;
        let mut last = Event::Ambient;
        while !path.ended {
            last = path.extend(Some(1), bounces % 2 == 0);
            if let Event::Scatter(1, _) = last {
                bounces += 1;
            }
        }
        assert_eq!(bounces, limit);
        assert_eq!(path.depth, limit);
        assert_eq!(last, Event::Emission(1));
    }
}

#[test]
fn a_path_ends_where_the_ray_leaves_the_world() {
    let mut path = Path::new(12);
    assert_eq!(path.extend(Some(3), true), Event::Scatter(3, Bounce::Specular));
    assert_eq!(path.extend(Some(0), false), Event::Scatter(0, Bounce::Diffuse));
    assert!(!path.ended);
    assert_eq!(path.extend(None, true), Event::Ambient);
    assert!(path.ended);
    assert_eq!(path.depth, 2);
    assert_eq!(path.limit, 12);
}

#[test]
fn with_a_bounce_limit_of_zero_only_what_is_seen_directly_counts() {
    let mut seen = Path::new(0);
    assert_eq!(seen.extend(Some(7), true), Event::Emission(7));
    assert!(seen.ended);
    assert_eq!(seen.depth, 0);
    let mut sky = Path::new(0);
    assert_eq!(sky.extend(None, false), Event::Ambient);
    assert!(sky.ended);
}

#[test]
fn sample_params_hold_their_fields() {
    let p = SampleParams { samples: 1000, bounce_limit: 12 };
    let q = p;
    assert_eq!((q.samples, q.bounce_limit), (1000, 12));
}
