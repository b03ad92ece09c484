use vstd::prelude::*;

verus! {

/// Product of a sequence of dimension sizes (1 for the empty sequence).
pub open spec fn product(dims: Seq<usize>) -> int
    decreases dims.len(),
{
    if dims.len() == 0 {
        1
    } else {
        dims[0] as int * product(dims.drop_first())
    }
}

/// Product of the dimensions from axis `k` to the end.
pub open spec fn suffix_product(dims: Seq<usize>, k: int) -> int {
    product(dims.subrange(k, dims.len() as int))
}

/// Every trailing product of `dims`, the whole product included, fits in an
/// `isize`: each row-major stride and the element count are representable.
pub open spec fn addressable(dims: Seq<usize>) -> bool {
    forall|k: int| 0 <= k <= dims.len() ==> #[trigger] suffix_product(dims, k) <= isize::MAX
}

pub proof fn lemma_suffix_step(dims: Seq<usize>, k: int)
    requires
        0 <= k < dims.len(),
    ensures
        suffix_product(dims, k) == dims[k] as int * suffix_product(dims, k + 1),
{
    let s = dims.subrange(k, dims.len() as int);
    assert(s.drop_first() =~= dims.subrange(k + 1, dims.len() as int));
}

pub proof fn lemma_suffix_last(dims: Seq<usize>)
    ensures
        suffix_product(dims, dims.len() as int) == 1,
{
    assert(dims.subrange(dims.len() as int, dims.len() as int) =~= Seq::<usize>::empty());
}

/// The sizes of a dense row-major tensor, outermost axis first.
pub struct Shape {
    dims: Vec<usize>,
}

impl View for Shape {
    type V = Seq<usize>;

    closed spec fn view(&self) -> Seq<usize> {
        self.dims@
    }
}

impl Shape {
    #[verifier::type_invariant]
    closed spec fn inv(self) -> bool {
        addressable(self.dims@)
    }

    /// Builds a shape from its dimension sizes; `None` when some row-major
    /// stride or the element count would not fit in an `isize`.
    pub fn new(dims: Vec<usize>) -> (r: Option<Shape>)
        ensures
            r.is_some() <==> addressable(dims@),
            r matches Some(s) ==> s@ == dims@,
    {
        let n = dims.len();
        let mut p: usize = 1;
        let mut k: usize = n;
        proof {
            lemma_suffix_last(dims@);
        }
        while k > 0
            invariant
                n == dims.len(),
                k <= n,
                p as int == suffix_product(dims@, k as int),
                forall|j: int| k <= j <= n ==> #[trigger] suffix_product(dims@, j) <= isize::MAX,
            decreases k,
        {
            let d = dims[k - 1];
            proof {
                lemma_suffix_step(dims@, k - 1);
            }
            match p.checked_mul(d) {
                Some(q) => {
                    assert(q as int == d as int * p as int) by (nonlinear_arith)
                        requires
                            q as int == p as int * d as int,
                    ;
                    if q > isize::MAX as usize {
                        assert(suffix_product(dims@, k - 1) > isize::MAX);
                        return None;
                    }
                    p = q;
                    k = k - 1;
                },
                None => {
                    assert(d as int * p as int > isize::MAX) by (nonlinear_arith)
                        requires
                            p as int * d as int > usize::MAX,
                    ;
                    assert(suffix_product(dims@, k - 1) > isize::MAX);
                    return None;
                },
            }
        }
        Some(Shape { dims })
    }

    /// Number of axes.
    pub fn rank(&self) -> (r: usize)
        ensures
            r == self@.len(),
    {
        self.dims.len()
    }

    /// Size of axis `i`.
    pub fn dim(&self, i: usize) -> (r: usize)
        requires
            i < self@.len(),
        ensures
            r == self@[i as int],
    {
        self.dims[i]
    }

    /// The dimension sizes, outermost first.
    pub fn to_vec(&self) -> (r: Vec<usize>)
        ensures
            r@ == self@,
            addressable(r@),
    {
        proof {
            use_type_invariant(self);
        }
        self.dims.clone()
    }

    /// Total number of elements: the product of all dimension sizes.
    pub fn numel(&self) -> (r: usize)
        ensures
            r == product(self@),
    {
        proof {
            use_type_invariant(self);
            lemma_suffix_last(self.dims@);
        }
        let n = self.dims.len();
        let mut p: usize = 1;
        let mut k: usize = n;
        while k > 0
            invariant
                n == self.dims.len(),
                k <= n,
                p as int == suffix_product(self.dims@, k as int),
                addressable(self.dims@),
            decreases k,
        {
            proof {
                lemma_suffix_step(self.dims@, k - 1);
                assert(suffix_product(self.dims@, k - 1) <= isize::MAX);
            }
            p = p * self.dims[k - 1];
            k = k - 1;
        }
        assert(self.dims@.subrange(0, n as int) =~= self.dims@);
        p
    }

    /// The shape with its leading (batch) axis removed.
    pub fn remove_leading(&self) -> (r: Shape)
        requires
            self@.len() > 0,
        ensures
            r@ == self@.drop_first(),
    {
        proof {
            use_type_invariant(self);
        }
        let n = self.dims.len();
        let mut dims: Vec<usize> = Vec::new();
        let mut i: usize = 1;
        while i < n
            invariant
                n == self.dims.len(),
                1 <= i <= n,
                dims@ == self.dims@.subrange(1, i as int),
            decreases n - i,
        {
            dims.push(self.dims[i]);
            i = i + 1;
            assert(dims@ =~= self.dims@.subrange(1, i as int));
        }
        let ghost d = self.dims@;
        assert(dims@ =~= d.drop_first());
        assert forall|k: int| 0 <= k <= dims@.len() implies #[trigger] suffix_product(dims@, k)
            <= isize::MAX by {
            assert(dims@.subrange(k, dims@.len() as int) =~= d.subrange(k + 1, d.len() as int));
            assert(suffix_product(d, k + 1) <= isize::MAX);
        }
        Shape { dims }
    }
}

} // verus!
