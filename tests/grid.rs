use scene_kit::grid::{instance_grid, GridPlacement};

#[test]
fn ten_by_ten_grid_layout() {
    let g = instance_grid(10);
    assert_eq!(g.len(), 100);
    assert_eq!(
        g[0],
        GridPlacement { column: 0, row: 0, x_half_steps: -10, z_half_steps: -10 }
    );
    assert_eq!(
        g[13],
        GridPlacement { column: 3, row: 1, x_half_steps: -4, z_half_steps: -8 }
    );
    assert_eq!(
        g[99],
        GridPlacement { column: 9, row: 9, x_half_steps: 8, z_half_steps: 8 }
    );
}

#[test]
fn first_instance_position_with_spacing_three() {
    // With a spacing of 3 the first instance stands at 3 * (0 - 10 / 2) = -15.
    let g = instance_grid(10);
    let spacing = 3.0f32;
    assert_eq!(spacing / 2.0 * g[0].x_half_steps as f32, -15.0);
    assert_eq!(spacing / 2.0 * g[0].z_half_steps as f32, -15.0);
}

#[test]
fn only_the_centre_of_an_even_grid_is_at_origin() {
    let g = instance_grid(10);
    let at_origin: Vec<usize> = (0..g.len()).filter(|&k| g[k].is_at_origin()).collect();
    assert_eq!(at_origin, vec![55]);
    assert_eq!((g[55].column, g[55].row), (5, 5));
}

#[test]
fn odd_grid_has_no_instance_at_origin() {
    let g = instance_grid(3);
    assert_eq!(g.len(), 9);
    assert!(g.iter().all(|p| !p.is_at_origin()));
    assert_eq!((g[4].x_half_steps, g[4].z_half_steps), (2 * 1 - 3, 2 * 1 - 3));
}

#[test]
fn single_instance_grid() {
    let g = instance_grid(1);
    assert_eq!(
        g,
        vec![GridPlacement { column: 0, row: 0, x_half_steps: -1, z_half_steps: -1 }]
    );
}

#[test]
fn empty_grid() {
    assert!(instance_grid(0).is_empty());
}
