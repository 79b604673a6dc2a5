//! Dispatch planning: block-aligned geometry of a compression pass.
//!
//! BC6H encodes one 16-byte block per 4x4 pixel region (4x4x4 for the
//! volumetric kernel). The planner turns a source extent into block counts
//! and compute-grid dispatch counts, and sizes the destination buffer.
use vstd::prelude::*;

verus! {

/// Pixels per block along each of the x and y axes.
pub const BLOCK_DIM: u32 = 4;

/// Workgroup size of the 2D kernel along x and y.
pub const WORKGROUP_2D: u32 = 8;

/// Workgroup size of the 3D kernel along x, y and z.
pub const WORKGROUP_3D: u32 = 4;

/// Source extent in pixels. `depth > 1` selects the volumetric path.
#[derive(Clone, Copy, PartialEq, Eq, Structural)]
pub struct Extent {
    pub width: u32,
    pub height: u32,
    pub depth: u32,
}

impl Extent {
    /// Width and height fall on 4-pixel block boundaries and there is at
    /// least one depth slice.
    pub open spec fn block_aligned(self) -> bool {
        &&& self.width % 4 == 0
        &&& self.height % 4 == 0
        &&& self.depth >= 1
    }
}

/// Block counts of an extent, and the compute-grid dispatch counts that
/// cover them with the kernel's fixed workgroup size.
#[derive(Clone, Copy, PartialEq, Eq, Structural)]
pub struct DispatchGrid {
    pub blocks_x: u32,
    pub blocks_y: u32,
    pub blocks_z: u32,
    pub groups_x: u32,
    pub groups_y: u32,
    pub groups_z: u32,
}

/// Ceiling division over mathematical integers: the least `q` with
/// `q * group >= num` when `group >= 1` and `num >= 0`.
pub open spec fn div_round_up(num: int, group: int) -> int {
    (num + group - 1) / group
}

/// Number of workgroups needed to cover `num` items with groups of
/// `group_size`: the ceiling of `num / group_size`.
pub fn dispatch_count(num: u32, group_size: u32) -> (count: u32)
    requires
        group_size >= 1,
    ensures
        count == div_round_up(num as int, group_size as int),
{
    let mut count = num / group_size;
    let rem = num % group_size;
    proof {
        lemma_div_round_up(num as int, group_size as int);
    }
    if rem != 0 {
        count += 1;
    }
    count
}

/// Relates ceiling division to flooring division with a remainder test.
proof fn lemma_div_round_up(num: int, group: int)
    requires
        num >= 0,
        group >= 1,
    ensures
        num % group == 0 ==> div_round_up(num, group) == num / group,
        num % group != 0 ==> div_round_up(num, group) == num / group + 1,
        div_round_up(num, group) <= num,
{
    assert(num == group * (num / group) + num % group) by (nonlinear_arith)
        requires
            group >= 1,
    ;
    if num % group == 0 {
        assert((num + group - 1) / group == num / group) by (nonlinear_arith)
            requires
                group >= 1,
                num >= 0,
                num == group * (num / group),
        ;
    } else {
        assert((num + group - 1) / group == num / group + 1) by (nonlinear_arith)
            requires
                group >= 1,
                num >= 0,
                1 <= num % group < group,
                num == group * (num / group) + num % group,
        ;
    }
    assert(div_round_up(num, group) <= num) by (nonlinear_arith)
        requires
            group >= 1,
            num >= 0,
    ;
}

/// The grid a block-aligned extent plans to: blocks are the extent's
/// 4-pixel block counts; dispatch counts cover them with the kernel's
/// workgroup size, the z count dividing the raw depth.
pub open spec fn planned_grid(extent: Extent) -> DispatchGrid {
    if extent.depth == 1 {
        DispatchGrid {
            blocks_x: (extent.width / 4) as u32,
            blocks_y: (extent.height / 4) as u32,
            blocks_z: 1u32,
            groups_x: div_round_up(extent.width as int / 4, WORKGROUP_2D as int) as u32,
            groups_y: div_round_up(extent.height as int / 4, WORKGROUP_2D as int) as u32,
            groups_z: 1u32,
        }
    } else {
        DispatchGrid {
            blocks_x: (extent.width / 4) as u32,
            blocks_y: (extent.height / 4) as u32,
            blocks_z: div_round_up(extent.depth as int, 4) as u32,
            groups_x: div_round_up(extent.width as int / 4, WORKGROUP_3D as int) as u32,
            groups_y: div_round_up(extent.height as int / 4, WORKGROUP_3D as int) as u32,
            groups_z: div_round_up(extent.depth as int, WORKGROUP_3D as int) as u32,
        }
    }
}

/// Derives block counts and dispatch counts for a block-aligned extent.
///
/// `depth == 1` selects the 2D kernel: blocks are covered in 8x8
/// workgroups and a single z group. `depth > 1` selects the 3D kernel:
/// 4x4x4 workgroups, where the z dispatch count divides the raw depth
/// (not a block-depth) by 4, matching the kernel's fixed indexing.
pub fn plan(extent: &Extent) -> (grid: DispatchGrid)
    requires
        extent.block_aligned(),
    ensures
        grid == planned_grid(*extent),
        grid.blocks_x == extent.width / 4,
        grid.blocks_y == extent.height / 4,
        extent.depth == 1 ==> {
            &&& grid.blocks_z == 1
            &&& grid.groups_x == div_round_up(extent.width as int / 4, WORKGROUP_2D as int)
            &&& grid.groups_y == div_round_up(extent.height as int / 4, WORKGROUP_2D as int)
            &&& grid.groups_z == 1
        },
        extent.depth > 1 ==> {
            &&& grid.blocks_z == div_round_up(extent.depth as int, 4)
            &&& grid.groups_x == div_round_up(extent.width as int / 4, WORKGROUP_3D as int)
            &&& grid.groups_y == div_round_up(extent.height as int / 4, WORKGROUP_3D as int)
            &&& grid.groups_z == div_round_up(extent.depth as int, WORKGROUP_3D as int)
        },
{
    let blocks_x = extent.width / BLOCK_DIM;
    let blocks_y = extent.height / BLOCK_DIM;
    if extent.depth == 1 {
        DispatchGrid {
            blocks_x,
            blocks_y,
            blocks_z: 1,
            groups_x: dispatch_count(blocks_x, WORKGROUP_2D),
            groups_y: dispatch_count(blocks_y, WORKGROUP_2D),
            groups_z: 1,
        }
    } else {
        DispatchGrid {
            blocks_x,
            blocks_y,
            blocks_z: dispatch_count(extent.depth, BLOCK_DIM),
            groups_x: dispatch_count(blocks_x, WORKGROUP_3D),
            groups_y: dispatch_count(blocks_y, WORKGROUP_3D),
            groups_z: dispatch_count(extent.depth, WORKGROUP_3D),
        }
    }
}

/// One 16-byte block per 4x4 region: for a block-aligned extent the
/// kernel's packed output stride of one byte per source pixel equals the
/// block-count formula exactly.
pub proof fn lemma_buffer_size_blocks(width: int, height: int)
    requires
        width >= 0,
        height >= 0,
        width % 4 == 0,
        height % 4 == 0,
    ensures
        width * height == (width / 4) * (height / 4) * 16,
{
    assert(width * height == (width / 4) * (height / 4) * 16) by (nonlinear_arith)
        requires
            width >= 0,
            height >= 0,
            width % 4 == 0,
            height % 4 == 0,
    ;
}

/// Destination size of a 2D compression, in bytes: one byte per source
/// pixel, which for an aligned extent is one 16-byte block per 4x4
/// region.
pub open spec fn spec_destination_size_2d(extent: Extent) -> u64 {
    (extent.width * extent.height) as u64
}

/// Destination size of a 3D compression, in bytes: the 2D stride once
/// per depth slice.
pub open spec fn spec_destination_size_3d(extent: Extent) -> u64 {
    (extent.width * extent.height * extent.depth) as u64
}

/// Size in bytes of the destination buffer for a 2D compression of this
/// extent: exactly one 16-byte block per 4x4 pixel region.
pub fn destination_buffer_size_2d(extent: &Extent) -> (size: u64)
    requires
        extent.block_aligned(),
        extent.depth == 1,
    ensures
        size == spec_destination_size_2d(*extent),
        size == extent.width as int * extent.height as int,
        size == (extent.width as int / 4) * (extent.height as int / 4) * 16,
{
    proof {
        assert(extent.width as int * extent.height as int <= u64::MAX as int)
            by (nonlinear_arith)
            requires
                extent.width <= 0xffffffffu32,
                extent.height <= 0xffffffffu32,
        ;
        lemma_buffer_size_blocks(extent.width as int, extent.height as int);
    }
    extent.width as u64 * extent.height as u64
}

/// Size in bytes of the destination buffer for a 3D compression: the 2D
/// stride repeated once per depth slice, matching the volumetric kernel's
/// packed output layout.
pub fn destination_buffer_size_3d(extent: &Extent) -> (size: u64)
    requires
        extent.block_aligned(),
        extent.width as int * extent.height as int * extent.depth as int
            <= u64::MAX as int,
    ensures
        size == spec_destination_size_3d(*extent),
        size == extent.width as int * extent.height as int * extent.depth as int,
        size == (extent.width as int / 4) * (extent.height as int / 4) * 16
            * extent.depth as int,
{
    proof {
        assert(extent.width as int * extent.height as int <= u64::MAX as int)
            by (nonlinear_arith)
            requires
                extent.width <= 0xffffffffu32,
                extent.height <= 0xffffffffu32,
        ;
        lemma_buffer_size_blocks(extent.width as int, extent.height as int);
        assert(extent.width as int * extent.height as int * extent.depth as int
            == (extent.width as int / 4) * (extent.height as int / 4) * 16
                * extent.depth as int) by (nonlinear_arith)
            requires
                extent.width as int * extent.height as int
                    == (extent.width as int / 4) * (extent.height as int / 4) * 16,
        ;
    }
    extent.width as u64 * extent.height as u64 * extent.depth as u64
}

} // verus!
