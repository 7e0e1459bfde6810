use orzma::geometry::workspace_dimensions_update;

#[test]
fn the_grid_is_the_floored_size_over_the_cell_pitch() {
    assert_eq!(workspace_dimensions_update(Some((800, 600)), 8, 16, None), Some((100, 37)));
    assert_eq!(workspace_dimensions_update(Some((807, 615)), 8, 16, None), Some((100, 38)));
}

#[test]
fn an_unchanged_grid_is_not_reported_again() {
    assert_eq!(workspace_dimensions_update(Some((800, 600)), 8, 16, Some((100, 37))), None);
    assert_eq!(workspace_dimensions_update(Some((800, 600)), 8, 16, Some((100, 36))), Some((100, 37)));
}

#[test]
fn a_zero_area_node_reports_nothing() {
    assert_eq!(workspace_dimensions_update(None, 8, 16, None), None);
}

#[test]
fn each_count_is_at_least_one_and_saturates() {
    assert_eq!(workspace_dimensions_update(Some((3, 5)), 8, 16, None), Some((1, 1)));
    assert_eq!(workspace_dimensions_update(Some((u32::MAX, u32::MAX)), 1, 1, None), Some((u16::MAX, u16::MAX)));
}
