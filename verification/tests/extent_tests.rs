use window_renderer::{dispatch_grid, workgroup_count, Extent, WorkgroupGrid, WORKGROUP_TILE};

#[test]
fn workgroup_count_is_the_ceiling_of_the_quotient() {
    assert_eq!(workgroup_count(640, 16), 40);
    assert_eq!(workgroup_count(641, 16), 41);
    assert_eq!(workgroup_count(655, 16), 41);
    assert_eq!(workgroup_count(656, 16), 41);
    assert_eq!(workgroup_count(657, 16), 42);
    assert_eq!(workgroup_count(600, 16), 38);
}

#[test]
fn workgroup_count_handles_the_smallest_lengths() {
    assert_eq!(workgroup_count(0, 16), 0);
    assert_eq!(workgroup_count(1, 16), 1);
    assert_eq!(workgroup_count(15, 16), 1);
    assert_eq!(workgroup_count(16, 16), 1);
    assert_eq!(workgroup_count(17, 16), 2);
}

#[test]
fn workgroup_count_works_for_every_tile_size_in_use() {
    assert_eq!(workgroup_count(800, 8), 100);
    assert_eq!(workgroup_count(801, 8), 101);
    assert_eq!(workgroup_count(800, 32), 25);
    assert_eq!(workgroup_count(801, 32), 26);
    assert_eq!(workgroup_count(7, 1), 7);
}

#[test]
fn workgroup_count_does_not_overflow_at_the_largest_length() {
    assert_eq!(workgroup_count(u32::MAX, 16), 0x1000_0000);
    assert_eq!(workgroup_count(u32::MAX, 1), u32::MAX);
    assert_eq!(workgroup_count(u32::MAX, u32::MAX), 1);
    assert_eq!(workgroup_count(u32::MAX - 1, u32::MAX), 1);
}

#[test]
fn dispatch_grid_is_one_layer_of_tiles_over_the_extent() {
    let grid = dispatch_grid(Extent { width: 640, height: 480 }, WORKGROUP_TILE);
    assert_eq!(grid, WorkgroupGrid { x: 40, y: 30, z: 1 });
    let grid = dispatch_grid(Extent { width: 800, height: 600 }, WORKGROUP_TILE);
    assert_eq!(grid, WorkgroupGrid { x: 50, y: 38, z: 1 });
}

#[test]
fn dispatch_grid_covers_the_remainder_rows_and_columns() {
    for width in 1u32..200 {
        for tile in [8u32, 16, 32] {
            let grid = dispatch_grid(Extent { width, height: 1 }, tile);
            // every pixel column falls into a dispatched tile
            assert!((width - 1) / tile < grid.x);
            // and the last dispatched tile still starts inside the image
            assert!((grid.x - 1) * tile <= width - 1);
            assert_eq!(grid.y, 1);
            assert_eq!(grid.z, 1);
        }
    }
}

#[test]
fn extent_is_drawable_only_with_both_dimensions() {
    assert!(Extent { width: 1, height: 1 }.drawable());
    assert!(!Extent { width: 0, height: 1 }.drawable());
    assert!(!Extent { width: 1, height: 0 }.drawable());
    assert!(!Extent { width: 0, height: 0 }.drawable());
}

#[test]
fn workgroup_tile_is_sixteen_pixels() {
    assert_eq!(WORKGROUP_TILE, 16);
}
