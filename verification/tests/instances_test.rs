use learn_wgpu::instances::{
    instance_displacement, instance_grid, placement_at, rotation_for, scene_instances, Placement,
    Position, Rotation, NUM_INSTANCES_PER_ROW, SPACE_BETWEEN, TILT_DEGREES,
};
use learn_wgpu::draw_instance_range;

fn pos(x: i32, y: i32, z: i32) -> Position {
    Position { x, y, z }
}

fn tilted(p: Position) -> Placement {
    Placement { position: p, rotation: Rotation { axis: p, degrees: 45 } }
}

#[test]
fn scene_grid_has_one_hundred_instances() {
    let v = scene_instances();
    assert_eq!(v.len(), 100);
    assert_eq!(NUM_INSTANCES_PER_ROW, 10);
    assert_eq!(SPACE_BETWEEN, 3);
    assert_eq!(TILT_DEGREES, 45);
}

#[test]
fn scene_grid_corners_and_order() {
    let v = scene_instances();
    assert_eq!(v[0], tilted(pos(-15, 0, -15)));
    assert_eq!(v[9], tilted(pos(12, 0, -15)));
    assert_eq!(v[10], tilted(pos(-15, 0, -12)));
    assert_eq!(v[99], tilted(pos(12, 0, 12)));
    assert_eq!(v[54], tilted(pos(-3, 0, 0)));
}

#[test]
fn scene_grid_centre_is_unturned() {
    let v = scene_instances();
    assert_eq!(
        v[55],
        Placement {
            position: pos(0, 0, 0),
            rotation: Rotation { axis: pos(0, 0, 1), degrees: 0 }
        }
    );
    let unturned: Vec<usize> = (0..v.len()).filter(|&i| v[i].rotation.degrees == 0).collect();
    assert_eq!(unturned, vec![55]);
}

#[test]
fn scene_grid_positions_are_distinct_and_flat() {
    let v = scene_instances();
    for i in 0..v.len() {
        assert_eq!(v[i].position.y, 0);
        assert!(v[i].rotation.axis != pos(0, 0, 0));
        for j in 0..i {
            assert_ne!(v[i].position, v[j].position);
        }
    }
}

#[test]
fn small_grid_in_row_order() {
    let v = instance_grid(2, 1);
    assert_eq!(
        v,
        vec![
            tilted(pos(-1, 0, -1)),
            tilted(pos(0, 0, -1)),
            tilted(pos(-1, 0, 0)),
            Placement {
                position: pos(0, 0, 0),
                rotation: Rotation { axis: pos(0, 0, 1), degrees: 0 }
            },
        ]
    );
}

#[test]
fn grid_with_negative_spacing_mirrors() {
    let v = instance_grid(4, -2);
    assert_eq!(v.len(), 16);
    assert_eq!(v[0].position, pos(4, 0, 4));
    assert_eq!(v[15].position, pos(-2, 0, -2));
}

#[test]
fn empty_and_zero_spacing_grids() {
    assert!(instance_grid(0, 3).is_empty());
    let v = instance_grid(2, 0);
    assert_eq!(v.len(), 4);
    for p in v {
        assert_eq!(p.position, pos(0, 0, 0));
        assert_eq!(p.rotation, Rotation { axis: pos(0, 0, 1), degrees: 0 });
    }
}

#[test]
fn placement_at_matches_grid() {
    let v = scene_instances();
    for row in 0..10u32 {
        for col in 0..10u32 {
            assert_eq!(placement_at(row, col, 10, 3), v[(row * 10 + col) as usize]);
        }
    }
    assert_eq!(placement_at(7, 2, 10, 3), tilted(pos(-9, 0, 6)));
}

#[test]
fn rotation_for_origin_and_elsewhere() {
    assert_eq!(rotation_for(pos(0, 0, 0)), Rotation { axis: pos(0, 0, 1), degrees: 0 });
    assert_eq!(rotation_for(pos(3, 0, 0)), Rotation { axis: pos(3, 0, 0), degrees: 45 });
    assert_eq!(rotation_for(pos(0, 1, 0)), Rotation { axis: pos(0, 1, 0), degrees: 45 });
}

#[test]
fn displacement_is_grid_centre() {
    assert_eq!(instance_displacement(10), pos(5, 0, 5));
    assert_eq!(instance_displacement(0), pos(0, 0, 0));
    assert_eq!(instance_displacement(u32::MAX), pos(i32::MAX, 0, i32::MAX));
}

#[test]
fn draw_range_covers_count() {
    assert_eq!(draw_instance_range(100), (0, 100));
    assert_eq!(draw_instance_range(0), (0, 0));
    assert_eq!(draw_instance_range(u32::MAX as usize), (0, u32::MAX));
}
