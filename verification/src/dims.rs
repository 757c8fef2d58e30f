use vstd::prelude::*;

verus! {

/// The index/extent type of the binding layer.
pub type Ix = usize;

/// A conversion from an ergonomic shape argument — a scalar marker, a
/// single extent, a tuple or a vector — into the list of extents of a
/// dataspace.
pub trait Dimension {
    /// The extents this shape denotes.
    spec fn spec_dims(&self) -> Seq<Ix>;

    /// The extents this shape denotes, one entry per axis.
    fn dims(&self) -> (r: Vec<Ix>)
        ensures
            r@ == self.spec_dims(),
    ;
}

/// The scalar (zero-dimensional) shape.
impl Dimension for () {
    open spec fn spec_dims(&self) -> Seq<Ix> {
        Seq::empty()
    }

    fn dims(&self) -> (r: Vec<Ix>)
        ensures
            r@ == self.spec_dims(),
    {
        Vec::new()
    }
}

/// A one-dimensional shape given as its single extent.
impl Dimension for Ix {
    open spec fn spec_dims(&self) -> Seq<Ix> {
        seq![*self]
    }

    fn dims(&self) -> (r: Vec<Ix>)
        ensures
            r@ == self.spec_dims(),
    {
        let mut v: Vec<Ix> = Vec::new();
        v.push(*self);
        v
    }
}

impl Dimension for (Ix, Ix) {
    open spec fn spec_dims(&self) -> Seq<Ix> {
        seq![self.0, self.1]
    }

    fn dims(&self) -> (r: Vec<Ix>)
        ensures
            r@ == self.spec_dims(),
    {
        let mut v: Vec<Ix> = Vec::new();
        v.push(self.0);
        v.push(self.1);
        v
    }
}

impl Dimension for (Ix, Ix, Ix) {
    open spec fn spec_dims(&self) -> Seq<Ix> {
        seq![self.0, self.1, self.2]
    }

    fn dims(&self) -> (r: Vec<Ix>)
        ensures
            r@ == self.spec_dims(),
    {
        let mut v: Vec<Ix> = Vec::new();
        v.push(self.0);
        v.push(self.1);
        v.push(self.2);
        v
    }
}

/// An n-dimensional shape given as a vector of extents.
impl Dimension for Vec<Ix> {
    open spec fn spec_dims(&self) -> Seq<Ix> {
        self@
    }

    fn dims(&self) -> (r: Vec<Ix>)
        ensures
            r@ == self.spec_dims(),
    {
        vstd::slice::slice_to_vec(self.as_slice())
    }
}

} // verus!
