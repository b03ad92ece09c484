use vstd::prelude::*;

verus! {

/// Shapes, strides and GEMM dimensions of a batched matrix-vector kernel
/// computing `out[B, M, N] = a[B, M, K] * b[B, K, N]`, as the kernel reads
/// them: three-component signed vectors and signed scalars.
pub struct MatvecLayout {
    pub a_shape: glam::IVec3,
    pub a_strides: glam::IVec3,
    pub b_shape: glam::IVec3,
    pub b_strides: glam::IVec3,
    pub out_shape: glam::IVec3,
    pub out_strides: glam::IVec3,
    pub dim_a_outer: i32,
    pub dim_b_outer: i32,
    pub dim_inner: i32,
}

pub open spec fn ivec3_is(v: glam::IVec3, x: int, y: int, z: int) -> bool {
    v.x == x && v.y == y && v.z == z
}

/// Every size and every stride of the three operands fits in an `i32`.
pub open spec fn matvec_fits(b: usize, m: usize, n: usize, k: usize) -> bool {
    &&& b <= i32::MAX && m <= i32::MAX && n <= i32::MAX && k <= i32::MAX
    &&& m * k <= i32::MAX && k * n <= i32::MAX && m * n <= i32::MAX
}

impl MatvecLayout {
    /// The layout of the three row-major operands, with the outer and inner
    /// GEMM dimensions swapped on the transposed operands; `None` when a
    /// size or stride does not fit in an `i32`.
    pub fn new(b: usize, m: usize, n: usize, k: usize, trans_a: bool, trans_b: bool) -> (r: Option<
        MatvecLayout,
    >)
        ensures
            r.is_some() <==> matvec_fits(b, m, n, k),
            r matches Some(l) ==> {
                &&& ivec3_is(l.a_shape, b as int, m as int, k as int)
                &&& ivec3_is(l.a_strides, m * k, k as int, 1)
                &&& ivec3_is(l.b_shape, b as int, k as int, n as int)
                &&& ivec3_is(l.b_strides, k * n, n as int, 1)
                &&& ivec3_is(l.out_shape, b as int, m as int, n as int)
                &&& ivec3_is(l.out_strides, m * n, n as int, 1)
                &&& l.dim_a_outer == if trans_a { k } else { m }
                &&& l.dim_b_outer == if trans_b { k } else { n }
                &&& l.dim_inner == if trans_a { m } else { k }
            },
    {
        let lim = i32::MAX as usize;
        if b > lim || m > lim || n > lim || k > lim {
            return None;
        }
        let (b, m, n, k) = (b as i64, m as i64, n as i64, k as i64);
        assert(m * k <= i32::MAX as int * i32::MAX as int) by (nonlinear_arith)
            requires
                0 <= m <= i32::MAX,
                0 <= k <= i32::MAX,
        ;
        assert(k * n <= i32::MAX as int * i32::MAX as int) by (nonlinear_arith)
            requires
                0 <= n <= i32::MAX,
                0 <= k <= i32::MAX,
        ;
        assert(m * n <= i32::MAX as int * i32::MAX as int) by (nonlinear_arith)
            requires
                0 <= m <= i32::MAX,
                0 <= n <= i32::MAX,
        ;
        let (mk, kn, mn) = (m * k, k * n, m * n);
        if mk > i32::MAX as i64 || kn > i32::MAX as i64 || mn > i32::MAX as i64 {
            return None;
        }
        let (b, m, n, k) = (b as i32, m as i32, n as i32, k as i32);
        Some(
            MatvecLayout {
                a_shape: glam::IVec3::new(b, m, k),
                a_strides: glam::IVec3::new(mk as i32, k, 1),
                b_shape: glam::IVec3::new(b, k, n),
                b_strides: glam::IVec3::new(kn as i32, n, 1),
                out_shape: glam::IVec3::new(b, m, n),
                out_strides: glam::IVec3::new(mn as i32, n, 1),
                dim_a_outer: if trans_a { k } else { m },
                dim_b_outer: if trans_b { k } else { n },
                dim_inner: if trans_a { m } else { k },
            },
        )
    }
}

} // verus!
