use vstd::prelude::*;

use crate::shape::Shape;

verus! {

/// Threads per workgroup on each of the three dispatch axes.
#[derive(Debug, Clone, Copy, PartialEq, Eq, Structural)]
pub struct WorkgroupSize {
    pub x: u32,
    pub y: u32,
    pub z: u32,
}

/// Workgroups per dispatch on each of the three dispatch axes.
#[derive(Debug, Clone, Copy, PartialEq, Eq, Structural)]
pub struct WorkgroupCount {
    pub x: u32,
    pub y: u32,
    pub z: u32,
}

impl View for WorkgroupSize {
    type V = Seq<u32>;

    open spec fn view(&self) -> Seq<u32> {
        seq![self.x, self.y, self.z]
    }
}

impl View for WorkgroupCount {
    type V = Seq<u32>;

    open spec fn view(&self) -> Seq<u32> {
        seq![self.x, self.y, self.z]
    }
}

/// The geometry of one dispatch: workgroup size and workgroup count.
#[derive(Debug, Clone, Copy, PartialEq, Eq, Structural)]
pub struct Workload {
    pub size: WorkgroupSize,
    pub count: WorkgroupCount,
}

/// Why a kernel's tiling does not fit the shapes it was given.
#[derive(Debug, Clone, Copy, PartialEq, Eq, Structural)]
pub enum GeometryError {
    /// `extent` on `axis` is not a whole number of tiles of size `tile`
    /// (a tile of size zero never fits).
    GeometryMisconfiguration { axis: usize, extent: u128, tile: usize },
    /// The number of workgroups needed on `axis` does not fit in a `u32`.
    CountOutOfRange { axis: usize, count: usize },
    /// A logical extent on `axis` does not fit where the kernel records it.
    ExtentOutOfRange { axis: usize },
    /// The tensor has `found` axes where the kernel expects `expected`.
    RankMismatch { expected: usize, found: usize },
}

/// `extent` splits into whole tiles of size `tile`.
pub open spec fn divides(extent: int, tile: int) -> bool {
    tile > 0 && extent % tile == 0
}

/// The divisibility error of tiling `extent` on `axis` by `tile`, if any:
/// `GeometryMisconfiguration` when the extent is not a whole number of tiles.
pub open spec fn div_error(axis: usize, extent: int, tile: u32) -> Option<GeometryError> {
    if !divides(extent, tile as int) {
        Some(
            GeometryError::GeometryMisconfiguration {
                axis,
                extent: extent as u128,
                tile: tile as usize,
            },
        )
    } else {
        None
    }
}

/// The range error of tiling `extent` on `axis` by `tile`, if any:
/// `CountOutOfRange` when the number of tiles exceeds `u32`.
pub open spec fn count_error(axis: usize, extent: usize, tile: u32) -> Option<GeometryError> {
    if extent / tile as usize > u32::MAX {
        Some(GeometryError::CountOutOfRange { axis, count: extent / tile as usize })
    } else {
        None
    }
}

/// Elementwise tiling of `extent` by `size`. Divisibility comes first: the
/// `GeometryMisconfiguration` of the first axis, in x, y, z order, whose
/// extent is not a whole number of workgroups; then the `CountOutOfRange`
/// of the first axis whose count exceeds `u32`; else the workload of that
/// size whose count on each axis is the extent over the size.
pub open spec fn elementwise_of(extent: Seq<usize>, size: WorkgroupSize) -> Result<
    Workload,
    GeometryError,
> {
    if let Some(e) = div_error(0, extent[0] as int, size.x) {
        Err(e)
    } else if let Some(e) = div_error(1, extent[1] as int, size.y) {
        Err(e)
    } else if let Some(e) = div_error(2, extent[2] as int, size.z) {
        Err(e)
    } else if let Some(e) = count_error(0, extent[0], size.x) {
        Err(e)
    } else if let Some(e) = count_error(1, extent[1], size.y) {
        Err(e)
    } else if let Some(e) = count_error(2, extent[2], size.z) {
        Err(e)
    } else {
        Ok(
            Workload {
                size,
                count: WorkgroupCount {
                    x: (extent[0] / size.x as usize) as u32,
                    y: (extent[1] / size.y as usize) as u32,
                    z: (extent[2] / size.z as usize) as u32,
                },
            },
        )
    }
}

/// Rotary-embedding tiling of a `[batch, heads, seq_len, head_dim]` tensor
/// by workgroups of `size`. The logical extents are half the head dimension
/// (each thread rotates one pair), the sequence length, and batch times
/// heads. After the rank, every divisibility condition is tested before any
/// range limit: the head dimension must be even, then each extent a whole
/// number of workgroups, in x, y, z order. Only then may batch times heads
/// exceed `usize` (`ExtentOutOfRange`) or a count exceed `u32`.
pub open spec fn rotary_of(dims: Seq<usize>, size: WorkgroupSize) -> Result<
    Workload,
    GeometryError,
> {
    if dims.len() != 4 {
        Err(GeometryError::RankMismatch { expected: 4, found: dims.len() as usize })
    } else if dims[3] % 2 != 0 {
        Err(
            GeometryError::GeometryMisconfiguration {
                axis: 3,
                extent: dims[3] as u128,
                tile: 2,
            },
        )
    } else if let Some(e) = div_error(0, dims[3] as int / 2, size.x) {
        Err(e)
    } else if let Some(e) = div_error(1, dims[2] as int, size.y) {
        Err(e)
    } else if let Some(e) = div_error(2, dims[0] as int * dims[1] as int, size.z) {
        Err(e)
    } else if dims[0] * dims[1] > usize::MAX {
        Err(GeometryError::ExtentOutOfRange { axis: 2 })
    } else {
        elementwise_of(seq![(dims[3] / 2) as usize, dims[2], (dims[0] * dims[1]) as usize], size)
    }
}

/// Row geometry of a normalization kernel over a `[batch, rows, features]`
/// tensor viewed as `[batch * rows, features]`; each lane handles four
/// features, so `features_per_lane` is `features / 4`.
#[derive(Debug, Clone, Copy, PartialEq, Eq, Structural)]
pub struct RowGeometry {
    pub rows: u32,
    pub features: u32,
    pub features_per_lane: u32,
}

/// The row geometry of `dims`, or why it has none: the rank is not 3, the
/// feature count is not a multiple of four, or a count does not fit in a
/// `u32`.
pub open spec fn row_geometry_of(dims: Seq<usize>) -> Result<RowGeometry, GeometryError> {
    if dims.len() != 3 {
        Err(GeometryError::RankMismatch { expected: 3, found: dims.len() as usize })
    } else if dims[2] % 4 != 0 {
        Err(
            GeometryError::GeometryMisconfiguration {
                axis: 2,
                extent: dims[2] as u128,
                tile: 4,
            },
        )
    } else if dims[2] > u32::MAX {
        Err(GeometryError::ExtentOutOfRange { axis: 2 })
    } else if dims[0] * dims[1] > u32::MAX {
        Err(GeometryError::ExtentOutOfRange { axis: 1 })
    } else {
        Ok(
            RowGeometry {
                rows: (dims[0] * dims[1]) as u32,
                features: dims[2] as u32,
                features_per_lane: (dims[2] / 4) as u32,
            },
        )
    }
}

impl RowGeometry {
    /// Computes `row_geometry_of` for a shape.
    pub fn from_shape(shape: &Shape) -> (r: Result<RowGeometry, GeometryError>)
        ensures
            r == row_geometry_of(shape@),
    {
        let n = shape.rank();
        if n != 3 {
            return Err(GeometryError::RankMismatch { expected: 3, found: n });
        }
        let features = shape.dim(2);
        if features % 4 != 0 {
            return Err(
                GeometryError::GeometryMisconfiguration {
                    axis: 2,
                    extent: features as u128,
                    tile: 4,
                },
            );
        }
        if features > u32::MAX as usize {
            return Err(GeometryError::ExtentOutOfRange { axis: 2 });
        }
        let batch = shape.dim(0);
        let per_item = shape.dim(1);
        assert(batch as int * per_item as int <= usize::MAX as int * usize::MAX as int) by (nonlinear_arith)
            requires
                batch <= usize::MAX,
                per_item <= usize::MAX,
        ;
        let rows: u128 = batch as u128 * per_item as u128;
        if rows > u32::MAX as u128 {
            return Err(GeometryError::ExtentOutOfRange { axis: 1 });
        }
        Ok(
            RowGeometry {
                rows: rows as u32,
                features: features as u32,
                features_per_lane: (features / 4) as u32,
            },
        )
    }

    /// One workgroup of `threads` threads per row.
    pub fn workload(&self, threads: u32) -> (r: Result<Workload, GeometryError>)
        ensures
            r == Workload::row_tiled_of(self.rows as usize, threads),
    {
        Workload::row_tiled(self.rows as usize, threads)
    }
}

/// `Ok` when `extent` is a whole number of tiles of size `tile`, else the
/// error of `div_error`.
fn check_divides(axis: usize, extent: u128, tile: u32) -> (r: Result<(), GeometryError>)
    ensures
        match div_error(axis, extent as int, tile) {
            Some(e) => r == Err::<(), GeometryError>(e),
            None => r == Ok::<(), GeometryError>(()),
        },
{
    if tile == 0 || extent % tile as u128 != 0 {
        return Err(
            GeometryError::GeometryMisconfiguration { axis, extent, tile: tile as usize },
        );
    }
    Ok(())
}

/// The number of tiles of size `tile` on `axis`, or the error of
/// `count_error`.
fn count_axis(axis: usize, extent: usize, tile: u32) -> (r: Result<u32, GeometryError>)
    requires
        tile > 0,
    ensures
        match count_error(axis, extent, tile) {
            Some(e) => r == Err::<u32, GeometryError>(e),
            None => r == Ok::<u32, GeometryError>((extent / tile as usize) as u32),
        },
{
    let c = extent / tile as usize;
    if c > u32::MAX as usize {
        return Err(GeometryError::CountOutOfRange { axis, count: c });
    }
    Ok(c as u32)
}

impl Workload {
    /// A workload with the given size and count.
    pub fn new(size: WorkgroupSize, count: WorkgroupCount) -> (r: Workload)
        ensures
            r.size == size,
            r.count == count,
    {
        Workload { size, count }
    }

    /// Total number of threads on each axis: size times count.
    pub open spec fn coverage(self) -> Seq<int> {
        seq![
            self.size.x as int * self.count.x as int,
            self.size.y as int * self.count.y as int,
            self.size.z as int * self.count.z as int,
        ]
    }

    /// Elementwise tiling: each axis's logical extent is cut into whole
    /// workgroups of the fixed `size`, never rounded. Fails with
    /// `GeometryMisconfiguration` on the first axis whose extent is not a
    /// multiple of its workgroup size; only when all three divide does it
    /// fail with `CountOutOfRange` where a count would not fit in a `u32`.
    pub fn elementwise_tiled(extent: [usize; 3], size: WorkgroupSize) -> (r: Result<
        Workload,
        GeometryError,
    >)
        ensures
            r == elementwise_of(extent@, size),
    {
        if let Err(e) = check_divides(0, extent[0] as u128, size.x) {
            return Err(e);
        }
        if let Err(e) = check_divides(1, extent[1] as u128, size.y) {
            return Err(e);
        }
        if let Err(e) = check_divides(2, extent[2] as u128, size.z) {
            return Err(e);
        }
        let x = match count_axis(0, extent[0], size.x) {
            Ok(c) => c,
            Err(e) => {
                return Err(e);
            },
        };
        let y = match count_axis(1, extent[1], size.y) {
            Ok(c) => c,
            Err(e) => {
                return Err(e);
            },
        };
        let z = match count_axis(2, extent[2], size.z) {
            Ok(c) => c,
            Err(e) => {
                return Err(e);
            },
        };
        Ok(Workload { size, count: WorkgroupCount { x, y, z } })
    }

    /// The row tiling of `rows` rows by workgroups of `threads` threads.
    pub open spec fn row_tiled_of(rows: usize, threads: u32) -> Result<Workload, GeometryError> {
        if threads == 0 {
            Err(
                GeometryError::GeometryMisconfiguration {
                    axis: 0,
                    extent: rows as u128,
                    tile: 0,
                },
            )
        } else if rows > u32::MAX {
            Err(GeometryError::CountOutOfRange { axis: 0, count: rows })
        } else {
            Ok(
                Workload {
                    size: WorkgroupSize { x: threads, y: 1, z: 1 },
                    count: WorkgroupCount { x: rows as u32, y: 1, z: 1 },
                },
            )
        }
    }

    /// Row tiling: one workgroup of `threads` threads per row, so the count
    /// is `(rows, 1, 1)` and the size `(threads, 1, 1)`. Fails with
    /// `GeometryMisconfiguration` on axis 0 when `threads` is zero, and with
    /// `CountOutOfRange` when `rows` does not fit in a `u32`.
    pub fn row_tiled(rows: usize, threads: u32) -> (r: Result<Workload, GeometryError>)
        ensures
            r == Workload::row_tiled_of(rows, threads),
    {
        if threads == 0 {
            return Err(
                GeometryError::GeometryMisconfiguration {
                    axis: 0,
                    extent: rows as u128,
                    tile: 0,
                },
            );
        }
        if rows > u32::MAX as usize {
            return Err(GeometryError::CountOutOfRange { axis: 0, count: rows });
        }
        Ok(
            Workload {
                size: WorkgroupSize { x: threads, y: 1, z: 1 },
                count: WorkgroupCount { x: rows as u32, y: 1, z: 1 },
            },
        )
    }

    /// Rotary-embedding tiling of a `[batch, heads, seq_len, head_dim]`
    /// tensor by workgroups of `size`, as `rotary_of` states: any inexact
    /// division is a `GeometryMisconfiguration`, reported before any range
    /// limit.
    pub fn rotary(shape: &Shape, size: WorkgroupSize) -> (r: Result<Workload, GeometryError>)
        ensures
            r == rotary_of(shape@, size),
    {
        let n = shape.rank();
        if n != 4 {
            return Err(GeometryError::RankMismatch { expected: 4, found: n });
        }
        let head_dim = shape.dim(3);
        if head_dim % 2 != 0 {
            return Err(
                GeometryError::GeometryMisconfiguration {
                    axis: 3,
                    extent: head_dim as u128,
                    tile: 2,
                },
            );
        }
        let (batch, heads, seq_len) = (shape.dim(0), shape.dim(1), shape.dim(2));
        if let Err(e) = check_divides(0, (head_dim / 2) as u128, size.x) {
            return Err(e);
        }
        if let Err(e) = check_divides(1, seq_len as u128, size.y) {
            return Err(e);
        }
        assert(batch as int * heads as int <= usize::MAX as int * usize::MAX as int)
            by (nonlinear_arith)
            requires
                batch <= usize::MAX,
                heads <= usize::MAX,
        ;
        if let Err(e) = check_divides(2, batch as u128 * heads as u128, size.z) {
            return Err(e);
        }
        let outer = match batch.checked_mul(heads) {
            Some(v) => v,
            None => {
                return Err(GeometryError::ExtentOutOfRange { axis: 2 });
            },
        };
        let extent: [usize; 3] = [head_dim / 2, seq_len, outer];
        assert(extent@ =~= seq![(shape@[3] / 2) as usize, shape@[2], (shape@[0] * shape@[1]) as usize]);
        Workload::elementwise_tiled(extent, size)
    }

    /// Batched tiling for matrix-vector kernels: a workgroup covers
    /// `rows_per_group` rows with `lanes` threads each, one grid layer per
    /// batch item. The size is `(rows_per_group, lanes, 1)` and the count
    /// `(rows / rows_per_group, 1, batch)`. Fails with
    /// `GeometryMisconfiguration` when `rows` is not a whole number of groups
    /// (axis 0) or `lanes` is zero (axis 1), and with `CountOutOfRange` when
    /// `batch` does not fit in a `u32`.
    pub fn batched_tiled(rows: usize, batch: usize, rows_per_group: u32, lanes: u32) -> (r: Result<
        Workload,
        GeometryError,
    >)
        ensures
            r == elementwise_of(
                seq![rows, lanes as usize, batch],
                WorkgroupSize { x: rows_per_group, y: lanes, z: 1 },
            ),
    {
        Workload::elementwise_tiled(
            [rows, lanes as usize, batch],
            WorkgroupSize { x: rows_per_group, y: lanes, z: 1 },
        )
    }
}

/// An elementwise tiling that succeeds covers each axis exactly: workgroup
/// size times workgroup count equals the logical extent, with no thread left
/// over and no element dropped.
pub proof fn lemma_elementwise_covers_exactly(extent: Seq<usize>, size: WorkgroupSize)
    requires
        extent.len() == 3,
        elementwise_of(extent, size) is Ok,
    ensures
        elementwise_of(extent, size)->Ok_0.coverage() == seq![
            extent[0] as int,
            extent[1] as int,
            extent[2] as int,
        ],
{
    let w = elementwise_of(extent, size)->Ok_0;
    lemma_tiles_cover(extent[0] as int, size.x as int);
    lemma_tiles_cover(extent[1] as int, size.y as int);
    lemma_tiles_cover(extent[2] as int, size.z as int);
    assert(w.coverage() =~= seq![extent[0] as int, extent[1] as int, extent[2] as int]);
}

proof fn lemma_tiles_cover(extent: int, tile: int)
    requires
        divides(extent, tile),
    ensures
        tile * (extent / tile) == extent,
{
    vstd::arithmetic::div_mod::lemma_fundamental_div_mod(extent, tile);
}

/// A row tiling that succeeds has exactly one workgroup per row, and covers
/// `threads` threads of each row.
pub proof fn lemma_row_tiled_one_group_per_row(rows: usize, threads: u32)
    requires
        Workload::row_tiled_of(rows, threads) is Ok,
    ensures
        Workload::row_tiled_of(rows, threads)->Ok_0.coverage() == seq![
            threads as int * rows as int,
            1int,
            1int,
        ],
        Workload::row_tiled_of(rows, threads)->Ok_0.count.x == rows,
{
    let w = Workload::row_tiled_of(rows, threads)->Ok_0;
    assert(threads > 0 && rows <= u32::MAX);
    assert(w.count.x == rows && w.size.x == threads);
    assert(w.count.y == 1 && w.size.y == 1 && w.count.z == 1 && w.size.z == 1);
    assert(w.coverage() =~= seq![threads as int * rows as int, 1int, 1int]);
}

} // verus!
