//! Tensor layout and dispatch geometry for GPU compute kernels: row-major
//! shapes and strides, their fixed-width projections, and the workgroup
//! geometry that each kernel family derives from its tensor shapes.

pub mod metadata;
pub mod shape;
pub mod strides;
pub mod text;
pub mod vectors;
pub mod workload;

pub use metadata::MatvecLayout;
pub use shape::Shape;
pub use strides::{LayoutError, Strides};
pub use workload::{GeometryError, RowGeometry, Workload, WorkgroupCount, WorkgroupSize};
