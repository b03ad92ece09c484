use wgpu_bencher::{LayoutError, Shape, Strides};

fn shape(dims: &[usize]) -> Shape {
    Shape::new(dims.to_vec()).unwrap()
}

#[test]
fn test_strides() {
    let shape = shape(&[2, 3, 4]);
    let strides = Strides::from(&shape);
    assert_eq!(strides.inner(), vec![12, 4, 1]);
}

#[test]
fn strides_of_rank_one_to_four_end_in_unit() {
    assert_eq!(Strides::from(&shape(&[7])).inner(), vec![1]);
    assert_eq!(Strides::from(&shape(&[5, 7])).inner(), vec![7, 1]);
    assert_eq!(Strides::from(&shape(&[1, 16, 64, 128])).inner(), vec![131072, 8192, 128, 1]);
}

#[test]
fn strides_of_empty_shape_are_empty() {
    assert_eq!(Strides::from(&shape(&[])).inner(), Vec::<isize>::new());
}

#[test]
fn strides_with_zero_sized_axis() {
    assert_eq!(Strides::from(&shape(&[3, 0, 5])).inner(), vec![0, 5, 1]);
}

#[test]
fn shape_rejects_unaddressable_sizes() {
    assert!(Shape::new(vec![usize::MAX, 2]).is_none());
    assert!(Shape::new(vec![1 << 40, 1 << 40]).is_none());
    assert!(Shape::new(vec![0, 1 << 40, 1 << 40]).is_none());
    assert!(Shape::new(vec![(1 << 62), 1]).is_some());
}

#[test]
fn shape_counts_and_drops_leading_axis() {
    let s = shape(&[2, 16, 64, 128]);
    assert_eq!(s.rank(), 4);
    assert_eq!(s.numel(), 2 * 16 * 64 * 128);
    let rest = s.remove_leading();
    assert_eq!(rest.to_vec(), vec![16, 64, 128]);
    assert_eq!(Strides::from(&rest).inner(), vec![8192, 128, 1]);
    assert_eq!(shape(&[]).numel(), 1);
}

#[test]
fn projection_pads_with_zeros() {
    let strides = Strides::from(&shape(&[2, 3, 4]));
    assert_eq!(strides.project_to_fixed_width(4), Ok(vec![12, 4, 1, 0]));
    assert_eq!(strides.to_u32x4(), Ok([12, 4, 1, 0]));
    assert_eq!(strides.to_u32x3(), Ok([12, 4, 1]));
    let short = Strides::from(&shape(&[9, 5]));
    assert_eq!(short.to_u32x3(), Ok([5, 1, 0]));
}

#[test]
fn projection_overflow_is_reported() {
    let strides = Strides::from(&shape(&[2, 3, 4, 5]));
    assert_eq!(strides.to_u32x3(), Err(LayoutError::LayoutOverflow { rank: 4, width: 3 }));
    assert_eq!(strides.to_u32x4(), Ok([60, 20, 5, 1]));
    let five = Strides::from(&shape(&[1, 2, 3, 4, 5]));
    assert_eq!(five.to_u32x4(), Err(LayoutError::LayoutOverflow { rank: 5, width: 4 }));
    assert!(matches!(five.to_uvec4(), Err(LayoutError::LayoutOverflow { rank: 5, width: 4 })));
}

#[test]
fn projection_rejects_strides_beyond_u32() {
    let strides = Strides::from(&shape(&[2, 1 << 20, 1 << 20]));
    assert_eq!(
        strides.to_u32x3(),
        Err(LayoutError::StrideOutOfRange { axis: 0, value: 1 << 40 })
    );
    let wide = Strides::from(&shape(&[3, 1 << 31]));
    assert_eq!(wide.to_u32x3(), Ok([1 << 31, 1, 0]));
    assert_eq!(
        wide.project_signed(3),
        Err(LayoutError::StrideOutOfRange { axis: 0, value: 1 << 31 })
    );
}

#[test]
fn projection_round_trips() {
    let strides = Strides::from(&shape(&[4, 6, 8]));
    let projected = strides.project_to_fixed_width(4).unwrap();
    let back = Strides::from_unsigned(&projected, strides.rank());
    assert_eq!(back.inner(), vec![48, 8, 1]);
}

#[test]
fn projection_distinguishes_ranks() {
    let a = Strides::from(&shape(&[5, 1])).to_u32x4().unwrap();
    let b = Strides::from(&shape(&[1])).to_u32x4().unwrap();
    assert_eq!(a, [1, 1, 0, 0]);
    assert_eq!(b, [1, 0, 0, 0]);
    assert_ne!(a, b);
}

#[test]
fn glam_vectors_hold_the_strides() {
    let strides = Strides::from(&shape(&[16, 64, 128]));
    assert_eq!(strides.to_uvec3().unwrap(), glam::UVec3::new(8192, 128, 1));
    assert_eq!(strides.to_uvec4().unwrap(), glam::UVec4::new(8192, 128, 1, 0));
    assert_eq!(strides.to_ivec3().unwrap(), glam::IVec3::new(8192, 128, 1));
    let two = Strides::from(&shape(&[3, 7]));
    assert_eq!(two.to_ivec3().unwrap(), glam::IVec3::new(7, 1, 0));
}

#[test]
fn strides_text() {
    assert_eq!(Strides::from(&shape(&[2, 3, 4])).describe(), "[12x4x1]");
    assert_eq!(Strides::from(&shape(&[7])).describe(), "[1]");
    assert_eq!(Strides::from(&shape(&[])).describe(), "[0]");
    assert_eq!(Strides::default().describe(), "[0]");
    let back = Strides::from_unsigned(&[4_000_000_000, 10, 0], 2);
    assert_eq!(back.describe(), "[4000000000x10]");
}

#[test]
fn strides_equality_and_default() {
    let a = Strides::from(&shape(&[2, 3]));
    let b = Strides::from_unsigned(&[3, 1], 2);
    assert_eq!(a, b);
    assert_eq!(Strides::default().rank(), 0);
    assert_eq!(a.get(0), 3);
}

#[test]
fn strides_from_values_keeps_them() {
    let s = Strides::from_values(vec![60, 20, 5, 1]);
    assert_eq!(s.rank(), 4);
    assert_eq!(s.describe(), "[60x20x5x1]");
    assert_eq!(s.inner(), vec![60, 20, 5, 1]);
}
