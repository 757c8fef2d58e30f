use vstd::prelude::*;

use crate::dims::{Dimension, Ix};
use crate::error::Error;

verus! {

/// The number of elements a list of extents spans: the product of the
/// extents, with the empty (scalar) list spanning one element.
pub open spec fn dims_product(s: Seq<Ix>) -> int
    decreases s.len(),
{
    if s.len() == 0 {
        1
    } else {
        s[0] * dims_product(s.skip(1))
    }
}

pub proof fn lemma_dims_product_nonneg(s: Seq<Ix>)
    ensures
        dims_product(s) >= 0,
    decreases s.len(),
{
    if s.len() > 0 {
        lemma_dims_product_nonneg(s.skip(1));
        assert(s[0] * dims_product(s.skip(1)) >= 0) by (nonlinear_arith)
            requires
                s[0] >= 0,
                dims_product(s.skip(1)) >= 0,
        ;
    }
}

/// Splitting a list of extents splits its product.
pub proof fn lemma_dims_product_split(s: Seq<Ix>, i: int)
    requires
        0 <= i <= s.len(),
    ensures
        dims_product(s) == dims_product(s.take(i)) * dims_product(s.skip(i)),
    decreases i,
{
    if i == 0 {
        assert(s.take(0) =~= Seq::<Ix>::empty());
        assert(s.skip(0) =~= s);
    } else {
        lemma_dims_product_split(s.skip(1), i - 1);
        assert(s.take(i).skip(1) =~= s.skip(1).take(i - 1));
        assert(s.skip(i) =~= s.skip(1).skip(i - 1));
        assert(dims_product(s.take(i)) == s[0] * dims_product(s.skip(1).take(i - 1)));
        assert(s[0] * (dims_product(s.skip(1).take(i - 1)) * dims_product(s.skip(1).skip(i - 1)))
            == (s[0] * dims_product(s.skip(1).take(i - 1))) * dims_product(
            s.skip(1).skip(i - 1),
        )) by (nonlinear_arith);
    }
}

/// Extending a prefix of extents by one multiplies its product by the new
/// extent.
pub proof fn lemma_dims_product_take_step(s: Seq<Ix>, i: int)
    requires
        0 <= i < s.len(),
    ensures
        dims_product(s.take(i + 1)) == dims_product(s.take(i)) * s[i],
{
    lemma_dims_product_split(s.take(i + 1), i);
    assert(s.take(i + 1).take(i) =~= s.take(i));
    assert(s.take(i + 1).skip(i) =~= seq![s[i]]);
    assert(dims_product(seq![s[i]]) == s[i] * dims_product(seq![s[i]].skip(1)));
    assert(seq![s[i]].skip(1) =~= Seq::<Ix>::empty());
}

/// A zero extent makes the whole product zero.
pub proof fn lemma_dims_product_zero(s: Seq<Ix>, i: int)
    requires
        0 <= i < s.len(),
        s[i] == 0,
    ensures
        dims_product(s) == 0,
{
    lemma_dims_product_split(s, i);
    assert(s.skip(i)[0] == 0);
    assert(dims_product(s.skip(i)) == s.skip(i)[0] * dims_product(s.skip(i).skip(1)));
    assert(s.skip(i)[0] * dims_product(s.skip(i).skip(1)) == 0) by (nonlinear_arith)
        requires
            s.skip(i)[0] == 0,
    ;
    assert(dims_product(s.take(i)) * dims_product(s.skip(i)) == 0) by (nonlinear_arith)
        requires
            dims_product(s.skip(i)) == 0,
    ;
}

/// With no zero extent, every extent is at least one and the product
/// dominates the product of any prefix.
pub proof fn lemma_dims_product_ge_one(s: Seq<Ix>)
    requires
        forall|j: int| 0 <= j < s.len() ==> s[j] >= 1,
    ensures
        dims_product(s) >= 1,
    decreases s.len(),
{
    if s.len() > 0 {
        lemma_dims_product_ge_one(s.skip(1));
        assert(s[0] * dims_product(s.skip(1)) >= 1) by (nonlinear_arith)
            requires
                s[0] >= 1,
                dims_product(s.skip(1)) >= 1,
        ;
    }
}

pub proof fn lemma_dims_product_prefix_le(s: Seq<Ix>, i: int)
    requires
        0 <= i <= s.len(),
        forall|j: int| 0 <= j < s.len() ==> s[j] >= 1,
    ensures
        dims_product(s.take(i)) <= dims_product(s),
{
    lemma_dims_product_split(s, i);
    assert(forall|j: int| 0 <= j < s.skip(i).len() ==> s.skip(i)[j] >= 1);
    lemma_dims_product_ge_one(s.skip(i));
    lemma_dims_product_nonneg(s.take(i));
    assert(dims_product(s.take(i)) * dims_product(s.skip(i)) >= dims_product(s.take(i)))
        by (nonlinear_arith)
        requires
            dims_product(s.take(i)) >= 0,
            dims_product(s.skip(i)) >= 1,
    ;
}

/// The number of elements the extents span, or an error when it does not
/// fit in `usize`.
pub fn element_count(dims: &Vec<Ix>) -> (r: Result<usize, Error>)
    ensures
        r matches Ok(n) ==> n == dims_product(dims@),
        r is Err <==> dims_product(dims@) > usize::MAX,
        r matches Err(e) ==> e == Error::ExtentsTooLarge,
{
    let n = dims.len();
    let mut i: usize = 0;
    while i < n
        invariant
            n == dims@.len(),
            0 <= i <= n,
            forall|j: int| 0 <= j < i ==> dims@[j] != 0,
        decreases n - i,
    {
        if dims[i] == 0 {
            proof {
                lemma_dims_product_zero(dims@, i as int);
            }
            return Ok(0);
        }
        i += 1;
    }
    let mut acc: usize = 1;
    let mut i: usize = 0;
    assert(dims@.take(0) =~= Seq::<Ix>::empty());
    while i < n
        invariant
            n == dims@.len(),
            0 <= i <= n,
            forall|j: int| 0 <= j < n ==> dims@[j] >= 1,
            acc == dims_product(dims@.take(i as int)),
        decreases n - i,
    {
        proof {
            lemma_dims_product_take_step(dims@, i as int);
        }
        match acc.checked_mul(dims[i]) {
            Some(next) => {
                acc = next;
            },
            None => {
                proof {
                    lemma_dims_product_prefix_le(dims@, i + 1);
                }
                return Err(Error::ExtentsTooLarge);
            },
        }
        i += 1;
    }
    assert(dims@.take(n as int) =~= dims@);
    Ok(acc)
}

/// The extents descriptor of a dataset or attribute.
///
/// The native library stores extents beside the data; this type carries
/// them as plain values, together with the element count it proves equal
/// to their product.
#[derive(Clone, Debug)]
pub struct Dataspace {
    pub dims: Vec<Ix>,
    pub size: usize,
    pub resizable: bool,
}

impl Dataspace {
    /// The element count is the product of the extents.
    pub open spec fn wf(&self) -> bool {
        self.size == dims_product(self.dims@)
    }

    /// Build a dataspace from a shape, rejecting extents whose element
    /// count does not fit in `usize`.
    pub fn try_new<D: Dimension>(d: D, resizable: bool) -> (r: Result<Dataspace, Error>)
        ensures
            r matches Ok(space) ==> space.dims@ == d.spec_dims() && space.size == dims_product(
                d.spec_dims(),
            ) && space.resizable == resizable && space.wf(),
            r is Err <==> dims_product(d.spec_dims()) > usize::MAX,
            r matches Err(e) ==> e == Error::ExtentsTooLarge,
    {
        let dims = d.dims();
        match element_count(&dims) {
            Ok(size) => Ok(Dataspace { dims, size, resizable }),
            Err(e) => Err(e),
        }
    }

    /// The number of axes.
    pub fn ndim(&self) -> (r: usize)
        ensures
            r == self.dims@.len(),
    {
        self.dims.len()
    }

    /// The extents, one entry per axis.
    pub fn shape(&self) -> (r: Vec<Ix>)
        ensures
            r@ == self.dims@,
    {
        vstd::slice::slice_to_vec(self.dims.as_slice())
    }

    /// The element count.
    pub fn size(&self) -> (r: usize)
        ensures
            r == self.size,
    {
        self.size
    }

    /// A dataspace with no axes holds exactly one element.
    pub fn is_scalar(&self) -> (r: bool)
        ensures
            r == (self.dims@.len() == 0),
    {
        self.dims.len() == 0
    }

    /// Whether the extents may grow after creation.
    pub fn is_resizable(&self) -> (r: bool)
        ensures
            r == self.resizable,
    {
        self.resizable
    }
}

} // verus!
