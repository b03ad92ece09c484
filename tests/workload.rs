use wgpu_bencher::{GeometryError, RowGeometry, Shape, Workload, WorkgroupCount, WorkgroupSize};

fn shape(dims: &[usize]) -> Shape {
    Shape::new(dims.to_vec()).unwrap()
}

fn size(x: u32, y: u32, z: u32) -> WorkgroupSize {
    WorkgroupSize { x, y, z }
}

fn count(x: u32, y: u32, z: u32) -> WorkgroupCount {
    WorkgroupCount { x, y, z }
}

#[test]
fn row_tiled_normalization_geometry() {
    let geometry = RowGeometry::from_shape(&shape(&[1, 2048, 2048])).unwrap();
    assert_eq!(geometry.rows, 2048);
    assert_eq!(geometry.features, 2048);
    assert_eq!(geometry.features_per_lane, 512);
    let w = geometry.workload(128).unwrap();
    assert_eq!(w.count, count(2048, 1, 1));
    assert_eq!(w.size, size(128, 1, 1));
}

#[test]
fn row_geometry_flattens_batch() {
    let geometry = RowGeometry::from_shape(&shape(&[3, 5, 8])).unwrap();
    assert_eq!(geometry.rows, 15);
    assert_eq!(geometry.features_per_lane, 2);
}

#[test]
fn row_geometry_errors() {
    assert_eq!(
        RowGeometry::from_shape(&shape(&[2048, 2048])),
        Err(GeometryError::RankMismatch { expected: 3, found: 2 })
    );
    assert_eq!(
        RowGeometry::from_shape(&shape(&[1, 4, 6])),
        Err(GeometryError::GeometryMisconfiguration { axis: 2, extent: 6, tile: 4 })
    );
    assert_eq!(
        RowGeometry::from_shape(&shape(&[1 << 20, 1 << 20, 4])),
        Err(GeometryError::ExtentOutOfRange { axis: 1 })
    );
}

#[test]
fn row_tiled_errors() {
    assert_eq!(
        Workload::row_tiled(16, 0),
        Err(GeometryError::GeometryMisconfiguration { axis: 0, extent: 16, tile: 0 })
    );
    assert_eq!(
        Workload::row_tiled(1 << 33, 32),
        Err(GeometryError::CountOutOfRange { axis: 0, count: 1 << 33 })
    );
    assert_eq!(
        Workload::row_tiled(2048, 32),
        Ok(Workload::new(size(32, 1, 1), count(2048, 1, 1)))
    );
}

#[test]
fn elementwise_tiled_counts() {
    let w = Workload::elementwise_tiled([64, 64, 16], size(16, 8, 8)).unwrap();
    assert_eq!(w.count, count(4, 8, 2));
    assert_eq!(w.size, size(16, 8, 8));
}

#[test]
fn elementwise_tiled_rejects_inexact_division() {
    assert_eq!(
        Workload::elementwise_tiled([64, 60, 16], size(16, 8, 8)),
        Err(GeometryError::GeometryMisconfiguration { axis: 1, extent: 60, tile: 8 })
    );
    assert_eq!(
        Workload::elementwise_tiled([64, 64, 16], size(0, 8, 8)),
        Err(GeometryError::GeometryMisconfiguration { axis: 0, extent: 64, tile: 0 })
    );
    assert_eq!(
        Workload::elementwise_tiled([64, 64, 1 << 40], size(16, 8, 8)),
        Err(GeometryError::CountOutOfRange { axis: 2, count: 1 << 37 })
    );
}

#[test]
fn rotary_tiling_of_single_batch() {
    let w = Workload::rotary(&shape(&[1, 16, 64, 128]), size(16, 8, 8)).unwrap();
    assert_eq!(w.count, count(4, 8, 2));
    assert_eq!(w.size, size(16, 8, 8));
}

#[test]
fn rotary_tiling_of_two_batches() {
    let w = Workload::rotary(&shape(&[2, 16, 64, 128]), size(16, 8, 8)).unwrap();
    assert_eq!(w.count, count(4, 8, 4));
}

#[test]
fn rotary_tiling_errors() {
    assert_eq!(
        Workload::rotary(&shape(&[2, 16, 60, 128]), size(16, 8, 8)),
        Err(GeometryError::GeometryMisconfiguration { axis: 1, extent: 60, tile: 8 })
    );
    assert_eq!(
        Workload::rotary(&shape(&[2, 16, 64, 127]), size(16, 8, 8)),
        Err(GeometryError::GeometryMisconfiguration { axis: 3, extent: 127, tile: 2 })
    );
    assert_eq!(
        Workload::rotary(&shape(&[16, 64, 128]), size(16, 8, 8)),
        Err(GeometryError::RankMismatch { expected: 4, found: 3 })
    );
    assert_eq!(
        Workload::rotary(&shape(&[1, 3, 64, 128]), size(16, 8, 8)),
        Err(GeometryError::GeometryMisconfiguration { axis: 2, extent: 3, tile: 8 })
    );
}

#[test]
fn batched_tiled_matvec_geometry() {
    let w = Workload::batched_tiled(2048, 3, 4, 256).unwrap();
    assert_eq!(w.size, size(4, 256, 1));
    assert_eq!(w.count, count(512, 1, 3));
    assert_eq!(
        Workload::batched_tiled(2050, 3, 4, 256),
        Err(GeometryError::GeometryMisconfiguration { axis: 0, extent: 2050, tile: 4 })
    );
}

#[test]
fn elementwise_tiling_covers_each_axis_exactly() {
    let extent = [64usize, 64, 32];
    let w = Workload::elementwise_tiled(extent, size(16, 8, 8)).unwrap();
    assert_eq!(w.size.x as usize * w.count.x as usize, extent[0]);
    assert_eq!(w.size.y as usize * w.count.y as usize, extent[1]);
    assert_eq!(w.size.z as usize * w.count.z as usize, extent[2]);
}

#[test]
fn rotary_reports_inexact_division_before_extent_overflow() {
    assert_eq!(
        Workload::rotary(&shape(&[usize::MAX, usize::MAX, 0, 2]), size(16, 8, 8)),
        Err(GeometryError::GeometryMisconfiguration { axis: 0, extent: 1, tile: 16 })
    );
}

#[test]
fn rotary_reports_inexact_division_before_count_overflow() {
    assert_eq!(
        Workload::rotary(&shape(&[1, 1, 1, 1 << 39]), size(16, 8, 8)),
        Err(GeometryError::GeometryMisconfiguration { axis: 1, extent: 1, tile: 8 })
    );
}

#[test]
fn rotary_reports_inexact_outer_product() {
    assert_eq!(
        Workload::rotary(&shape(&[3, 5, 8, 32]), size(16, 8, 8)),
        Err(GeometryError::GeometryMisconfiguration { axis: 2, extent: 15, tile: 8 })
    );
}

#[test]
fn elementwise_tiled_reports_division_before_count() {
    assert_eq!(
        Workload::elementwise_tiled([1 << 40, 60, 16], size(16, 8, 8)),
        Err(GeometryError::GeometryMisconfiguration { axis: 1, extent: 60, tile: 8 })
    );
}
