use bc6h_compression::planner::{
    destination_buffer_size_2d, destination_buffer_size_3d, dispatch_count, plan, Extent,
};

#[test]
fn dispatch_count_exact_division() {
    assert_eq!(dispatch_count(16, 8), 2);
    assert_eq!(dispatch_count(8, 8), 1);
    assert_eq!(dispatch_count(64, 4), 16);
}

#[test]
fn dispatch_count_rounds_up() {
    assert_eq!(dispatch_count(17, 8), 3);
    assert_eq!(dispatch_count(1, 8), 1);
    assert_eq!(dispatch_count(9, 4), 3);
}

#[test]
fn dispatch_count_zero_items() {
    assert_eq!(dispatch_count(0, 8), 0);
}

#[test]
fn plan_2d_blocks_and_groups() {
    let extent = Extent { width: 64, height: 32, depth: 1 };
    let grid = plan(&extent);
    assert_eq!(grid.blocks_x, 16);
    assert_eq!(grid.blocks_y, 8);
    assert_eq!(grid.blocks_z, 1);
    assert_eq!(grid.groups_x, 2);
    assert_eq!(grid.groups_y, 1);
    assert_eq!(grid.groups_z, 1);
}

#[test]
fn plan_2d_single_block() {
    let extent = Extent { width: 4, height: 4, depth: 1 };
    let grid = plan(&extent);
    assert_eq!(grid.blocks_x, 1);
    assert_eq!(grid.blocks_y, 1);
    assert_eq!(grid.groups_x, 1);
    assert_eq!(grid.groups_y, 1);
}

#[test]
fn plan_3d_z_uses_raw_depth() {
    // The z dispatch divides the raw depth by the workgroup size, while
    // x and y divide block counts.
    let extent = Extent { width: 32, height: 32, depth: 8 };
    let grid = plan(&extent);
    assert_eq!(grid.blocks_x, 8);
    assert_eq!(grid.blocks_y, 8);
    assert_eq!(grid.blocks_z, 2);
    assert_eq!(grid.groups_x, 2);
    assert_eq!(grid.groups_y, 2);
    assert_eq!(grid.groups_z, 2);
}

#[test]
fn plan_3d_odd_depth_rounds_up() {
    let extent = Extent { width: 16, height: 16, depth: 5 };
    let grid = plan(&extent);
    assert_eq!(grid.blocks_x, 4);
    assert_eq!(grid.blocks_y, 4);
    assert_eq!(grid.blocks_z, 2);
    assert_eq!(grid.groups_x, 1);
    assert_eq!(grid.groups_y, 1);
    assert_eq!(grid.groups_z, 2);
}

#[test]
fn buffer_size_2d_is_one_block_per_region() {
    // (W/4) * (H/4) * 16 bytes: one 16-byte block per 4x4 region.
    let extent = Extent { width: 32, height: 32, depth: 1 };
    assert_eq!(destination_buffer_size_2d(&extent), (32 / 4) * (32 / 4) * 16);
    let extent = Extent { width: 256, height: 128, depth: 1 };
    assert_eq!(destination_buffer_size_2d(&extent), (256 / 4) * (128 / 4) * 16);
    assert_eq!(destination_buffer_size_2d(&extent), 256 * 128);
}

#[test]
fn buffer_size_3d_scales_with_depth() {
    let extent = Extent { width: 32, height: 32, depth: 6 };
    assert_eq!(destination_buffer_size_3d(&extent), 32 * 32 * 6);
    assert_eq!(destination_buffer_size_3d(&extent), (32 / 4) * (32 / 4) * 16 * 6);
}
