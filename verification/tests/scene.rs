use pathtracer::scene::first_hit;

#[test]
fn empty_scene_has_no_hit() {
    let candidates: Vec<Option<u32>> = Vec::new();
    assert_eq!(first_hit(&candidates), None);
}

#[test]
fn scene_of_misses_has_no_hit() {
    let candidates: Vec<Option<u32>> = vec![None, None, None];
    assert_eq!(first_hit(&candidates), None);
}

#[test]
fn single_hit_is_found_wherever_it_stands() {
    for at in 0..5 {
        let mut candidates: Vec<Option<u32>> = vec![None; 5];
        candidates[at] = Some(7);
        assert_eq!(first_hit(&candidates), Some(at));
    }
}

#[test]
fn earlier_shape_wins_over_a_nearer_later_one() {
    // The records are hit distances: the second shape is hit nearer, and
    // still the first one in the scene's order is taken.
    let candidates = vec![None, Some(9.5), Some(0.25), None, Some(3.0)];
    assert_eq!(first_hit(&candidates), Some(1));
}

#[test]
fn first_shape_hit_is_index_zero() {
    let candidates = vec![Some("floor"), Some("ball")];
    assert_eq!(first_hit(&candidates), Some(0));
}

#[test]
fn last_shape_alone_hit_is_found() {
    let candidates = vec![None, None, Some(1u8)];
    assert_eq!(first_hit(&candidates), Some(2));
}
