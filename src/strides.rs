use vstd::prelude::*;

use crate::shape::{lemma_suffix_last, lemma_suffix_step, product, suffix_product, Shape};

verus! {

/// `s` is the row-major stride vector of `dims`: one entry per axis, each the
/// product of the sizes of the axes to its right.
pub open spec fn is_row_major(s: Seq<isize>, dims: Seq<usize>) -> bool {
    &&& s.len() == dims.len()
    &&& forall|i: int| 0 <= i < s.len() ==> #[trigger] s[i] == suffix_product(dims, i + 1)
}

pub open spec fn in_u32(x: isize) -> bool {
    0 <= x <= u32::MAX
}

pub open spec fn in_i32(x: isize) -> bool {
    i32::MIN <= x <= i32::MAX
}

/// A stride fits the component type of a projection: `i32`
/// when `signed`, else `u32`.
pub open spec fn fits(x: isize, signed: bool) -> bool {
    if signed {
        in_i32(x)
    } else {
        in_u32(x)
    }
}

/// Projecting strides `s` into `width` components succeeds: the rank is at
/// most the width and every stride fits the component type.
pub open spec fn projection_ok(s: Seq<isize>, width: int, signed: bool) -> bool {
    s.len() <= width && forall|i: int| 0 <= i < s.len() ==> #[trigger] fits(s[i], signed)
}

/// The error of a failed projection: `LayoutOverflow` when the rank exceeds
/// the width, else `StrideOutOfRange` for the first stride that does not fit.
pub open spec fn is_projection_error(s: Seq<isize>, width: int, signed: bool, e: LayoutError) -> bool {
    if s.len() > width {
        e == LayoutError::LayoutOverflow { rank: s.len() as usize, width: width as usize }
    } else {
        match e {
            LayoutError::StrideOutOfRange { axis, value } => axis < s.len() && value == s[axis as int]
                && !fits(value, signed) && forall|i: int|
                0 <= i < axis ==> #[trigger] fits(s[i], signed),
            _ => false,
        }
    }
}

/// What projecting strides `s` into `width` unsigned components yields: the
/// strides in order followed by zeros, or the projection error.
pub open spec fn is_projection_u32(s: Seq<isize>, width: int, r: Result<Seq<u32>, LayoutError>) -> bool {
    match r {
        Ok(v) => {
            &&& projection_ok(s, width, false)
            &&& v.len() == width
            &&& forall|i: int| 0 <= i < s.len() ==> #[trigger] v[i] == s[i]
            &&& forall|i: int| s.len() <= i < width ==> #[trigger] v[i] == 0
        },
        Err(e) => !projection_ok(s, width, false) && is_projection_error(s, width, false, e),
    }
}

/// As `is_projection_u32`, for signed components.
pub open spec fn is_projection_i32(s: Seq<isize>, width: int, r: Result<Seq<i32>, LayoutError>) -> bool {
    match r {
        Ok(v) => {
            &&& projection_ok(s, width, true)
            &&& v.len() == width
            &&& forall|i: int| 0 <= i < s.len() ==> #[trigger] v[i] == s[i]
            &&& forall|i: int| s.len() <= i < width ==> #[trigger] v[i] == 0
        },
        Err(e) => !projection_ok(s, width, true) && is_projection_error(s, width, true, e),
    }
}

pub open spec fn vec_u32_view(r: Result<Vec<u32>, LayoutError>) -> Result<Seq<u32>, LayoutError> {
    match r {
        Ok(v) => Ok(v@),
        Err(e) => Err(e),
    }
}

pub open spec fn vec_i32_view(r: Result<Vec<i32>, LayoutError>) -> Result<Seq<i32>, LayoutError> {
    match r {
        Ok(v) => Ok(v@),
        Err(e) => Err(e),
    }
}

/// Why a stride vector cannot be written into a fixed-width vector.
#[derive(Debug, Clone, Copy, PartialEq, Eq, Structural)]
pub enum LayoutError {
    /// The strides have more axes than the target vector has components.
    LayoutOverflow { rank: usize, width: usize },
    /// The stride of `axis` is not representable in the target component type.
    StrideOutOfRange { axis: usize, value: isize },
}

/// Row-major strides of a dense tensor, outermost axis first.
#[derive(Debug, Clone, PartialEq, Eq, Hash)]
pub struct Strides(Vec<isize>);

impl View for Strides {
    type V = Seq<isize>;

    closed spec fn view(&self) -> Seq<isize> {
        self.0@
    }
}

impl Strides {
    /// The stride values, outermost axis first.
    pub fn inner(self) -> (r: Vec<isize>)
        ensures
            r@ == self@,
    {
        self.0
    }

    /// Number of axes.
    pub fn rank(&self) -> (r: usize)
        ensures
            r == self@.len(),
    {
        self.0.len()
    }

    /// The stride of axis `i`.
    pub fn get(&self, i: usize) -> (r: isize)
        requires
            i < self@.len(),
        ensures
            r == self@[i as int],
    {
        self.0[i]
    }

    /// Strides holding the given values, outermost axis first.
    pub fn from_values(v: Vec<isize>) -> (r: Strides)
        ensures
            r@ == v@,
    {
        Strides(v)
    }

    /// Rebuilds strides from the first `rank` components of a fixed-width
    /// unsigned vector, dropping the zero padding after them.
    pub fn from_unsigned(v: &[u32], rank: usize) -> (r: Strides)
        requires
            rank <= v@.len(),
            forall|i: int| 0 <= i < rank ==> #[trigger] v@[i] <= isize::MAX,
        ensures
            r@.len() == rank,
            forall|i: int| 0 <= i < rank ==> #[trigger] r@[i] == v@[i],
    {
        let mut out: Vec<isize> = Vec::new();
        let mut i: usize = 0;
        while i < rank
            invariant
                rank <= v@.len(),
                forall|j: int| 0 <= j < rank ==> #[trigger] v@[j] <= isize::MAX,
                i <= rank,
                out@.len() == i,
                forall|j: int| 0 <= j < i ==> #[trigger] out@[j] == v@[j],
            decreases rank - i,
        {
            out.push(v[i] as isize);
            i = i + 1;
        }
        Strides(out)
    }

    /// Writes the strides into `width` unsigned components, zero-padding the
    /// trailing ones. Fails rather than truncate: with `LayoutOverflow` when
    /// there are more axes than components, else with `StrideOutOfRange` for
    /// the first stride outside the `u32` range.
    pub fn project_to_fixed_width(&self, width: usize) -> (r: Result<Vec<u32>, LayoutError>)
        ensures
            is_projection_u32(self@, width as int, vec_u32_view(r)),
    {
        let n = self.0.len();
        if n > width {
            return Err(LayoutError::LayoutOverflow { rank: n, width });
        }
        let mut out: Vec<u32> = Vec::new();
        let mut i: usize = 0;
        while i < width
            invariant
                n == self@.len(),
                n <= width,
                i <= width,
                out@.len() == i,
                forall|j: int| 0 <= j < i && j < n ==> #[trigger] out@[j] == self@[j],
                forall|j: int| 0 <= j < i && j < n ==> #[trigger] in_u32(self@[j]),
                forall|j: int| n <= j < i ==> #[trigger] out@[j] == 0,
            decreases width - i,
        {
            if i < n {
                let x = self.0[i];
                if x < 0 || x as i128 > u32::MAX as i128 {
                    assert(!fits(self@[i as int], false));
                    return Err(LayoutError::StrideOutOfRange { axis: i, value: x });
                }
                out.push(x as u32);
            } else {
                out.push(0);
            }
            i = i + 1;
        }
        Ok(out)
    }

    /// Writes the strides into `width` signed components, zero-padding the
    /// trailing ones; fails as `project_to_fixed_width` does, with the `i32`
    /// range in place of the `u32` one.
    pub fn project_signed(&self, width: usize) -> (r: Result<Vec<i32>, LayoutError>)
        ensures
            is_projection_i32(self@, width as int, vec_i32_view(r)),
    {
        let n = self.0.len();
        if n > width {
            return Err(LayoutError::LayoutOverflow { rank: n, width });
        }
        let mut out: Vec<i32> = Vec::new();
        let mut i: usize = 0;
        while i < width
            invariant
                n == self@.len(),
                n <= width,
                i <= width,
                out@.len() == i,
                forall|j: int| 0 <= j < i && j < n ==> #[trigger] out@[j] == self@[j],
                forall|j: int| 0 <= j < i && j < n ==> #[trigger] in_i32(self@[j]),
                forall|j: int| n <= j < i ==> #[trigger] out@[j] == 0,
            decreases width - i,
        {
            if i < n {
                let x = self.0[i];
                if (x as i128) < i32::MIN as i128 || x as i128 > i32::MAX as i128 {
                    assert(!fits(self@[i as int], true));
                    return Err(LayoutError::StrideOutOfRange { axis: i, value: x });
                }
                out.push(x as i32);
            } else {
                out.push(0);
            }
            i = i + 1;
        }
        Ok(out)
    }
}

impl Default for Strides {
    /// No axes.
    fn default() -> (r: Strides)
        ensures
            r@ == Seq::<isize>::empty(),
    {
        Strides(Vec::new())
    }
}

impl vstd::std_specs::convert::FromSpecImpl<&Shape> for Strides {
    open spec fn obeys_from_spec() -> bool {
        false
    }

    open spec fn from_spec(shape: &Shape) -> Strides {
        arbitrary()
    }
}

impl From<&Shape> for Strides {
    /// The row-major strides of `shape`: the last axis has stride 1 and each
    /// other axis the product of the sizes to its right.
    fn from(shape: &Shape) -> (r: Strides)
        ensures
            is_row_major(r@, shape@),
            shape@.len() > 0 ==> r@.last() == 1,
    {
        let dims = shape.to_vec();
        let n = dims.len();
        let mut strides: Vec<isize> = vec![0isize; n];
        let mut stride: usize = 1;
        let mut k: usize = n;
        proof {
            lemma_suffix_last(dims@);
        }
        while k > 0
            invariant
                dims@ == shape@,
                n == dims@.len(),
                strides@.len() == n,
                k <= n,
                k > 0 ==> stride as int == suffix_product(dims@, k as int),
                crate::shape::addressable(dims@),
                forall|i: int| k <= i < n ==> #[trigger] strides@[i] == suffix_product(
                    dims@,
                    i + 1,
                ),
            decreases k,
        {
            proof {
                assert(suffix_product(dims@, k as int) <= isize::MAX);
            }
            strides[k - 1] = stride as isize;
            if k > 1 {
                proof {
                    lemma_suffix_step(dims@, k - 1);
                    assert(suffix_product(dims@, k - 1) <= isize::MAX);
                }
                stride = dims[k - 1] * stride;
            }
            k = k - 1;
        }
        proof {
            if n > 0 {
                lemma_suffix_last(dims@);
            }
        }
        Strides(strides)
    }
}

/// The strides of a shape of rank one or more end in a unit stride, and each
/// stride is the product of the sizes of the axes to its right.
pub proof fn lemma_row_major_strides(dims: Seq<usize>, s: Seq<isize>)
    requires
        is_row_major(s, dims),
        dims.len() >= 1,
    ensures
        s.len() == dims.len(),
        s[s.len() - 1] == 1,
        forall|i: int|
            0 <= i < s.len() ==> #[trigger] s[i] == product(dims.subrange(i + 1, dims.len() as int)),
{
    lemma_suffix_last(dims);
}

/// Strides with more axes than a fixed-width vector has components are
/// refused with `LayoutOverflow`, never truncated, for unsigned and signed
/// components alike.
pub proof fn lemma_rank_overflow_refused(
    s: Seq<isize>,
    width: int,
    unsigned: Result<Seq<u32>, LayoutError>,
    signed: Result<Seq<i32>, LayoutError>,
)
    requires
        s.len() > width,
        is_projection_u32(s, width, unsigned),
        is_projection_i32(s, width, signed),
    ensures
        unsigned == Err::<Seq<u32>, LayoutError>(
            LayoutError::LayoutOverflow { rank: s.len() as usize, width: width as usize },
        ),
        signed == Err::<Seq<i32>, LayoutError>(
            LayoutError::LayoutOverflow { rank: s.len() as usize, width: width as usize },
        ),
{
}

/// Reading back the first `rank` components of a successful projection gives
/// the strides that were projected.
pub proof fn lemma_projection_round_trip(s: Seq<isize>, width: int, u: Seq<u32>, t: Seq<isize>)
    requires
        is_projection_u32(s, width, Ok(u)),
        t.len() == s.len(),
        forall|i: int| 0 <= i < t.len() ==> #[trigger] t[i] == u[i],
    ensures
        t == s,
{
    assert forall|i: int| 0 <= i < t.len() implies t[i] == s[i] by {
        assert(u[i] == s[i]);
    }
    assert(t =~= s);
}

/// Projection of row-major strides is injective: two shapes of rank one to
/// `width` whose strides project to the same components have the same
/// strides, the rank included.
pub proof fn lemma_projection_injective(
    d1: Seq<usize>,
    d2: Seq<usize>,
    s1: Seq<isize>,
    s2: Seq<isize>,
    width: int,
    v: Seq<u32>,
)
    requires
        is_row_major(s1, d1),
        is_row_major(s2, d2),
        1 <= d1.len(),
        1 <= d2.len(),
        is_projection_u32(s1, width, Ok(v)),
        is_projection_u32(s2, width, Ok(v)),
    ensures
        s1 == s2,
{
    lemma_row_major_strides(d1, s1);
    lemma_row_major_strides(d2, s2);
    if s1.len() < s2.len() {
        assert(v[s2.len() - 1] == 1);
        assert(v[s2.len() - 1] == 0);
    }
    if s2.len() < s1.len() {
        assert(v[s1.len() - 1] == 1);
        assert(v[s1.len() - 1] == 0);
    }
    assert forall|i: int| 0 <= i < s1.len() implies s1[i] == s2[i] by {
        assert(v[i] == s1[i]);
        assert(v[i] == s2[i]);
    }
    assert(s1 =~= s2);
}

} // verus!
