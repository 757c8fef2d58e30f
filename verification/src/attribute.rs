use core::marker::PhantomData;

use vstd::prelude::*;

use crate::dataset::{spec_create_error, Dataset};
use crate::dims::{Dimension, Ix};
use crate::dtype::{Datatype, H5Type};
use crate::error::Error;
use crate::file::{File, Group};
use crate::filters::Filters;
use crate::handle::Handle;
use crate::location::{check_name, contains_nul, link_path};
use crate::space::{dims_product, Dataspace};

verus! {

/// An attribute: a small named, typed, shaped value attached to an object.
///
/// As with datasets, the stored bytes live in the native library; this type
/// carries what the binding layer decided at creation — extents, datatype
/// and name.
#[derive(Clone, Debug)]
pub struct Attribute {
    pub handle: Handle,
    pub space: Dataspace,
    pub dtype: Datatype,
    pub path: String,
}

impl Attribute {
    /// The handle of this attribute.
    pub fn handle(&self) -> (r: &Handle)
        ensures
            r == &self.handle,
    {
        &self.handle
    }

    /// Whether this attribute's identifier is valid.
    pub fn is_valid(&self) -> (r: bool)
        ensures
            r == self.handle.is_valid(),
    {
        self.handle.is_valid_handle()
    }

    /// The extents, one entry per axis.
    pub fn shape(&self) -> (r: Vec<Ix>)
        ensures
            r@ == self.space.dims@,
    {
        self.space.shape()
    }

    /// The element count of the extents.
    pub fn size(&self) -> (r: usize)
        ensures
            r == self.space.size,
    {
        self.space.size()
    }

    /// The number of axes.
    pub fn ndim(&self) -> (r: usize)
        ensures
            r == self.space.dims@.len(),
    {
        self.space.ndim()
    }

    /// Whether the attribute is zero-dimensional.
    pub fn is_scalar(&self) -> (r: bool)
        ensures
            r == (self.space.dims@.len() == 0),
    {
        self.space.is_scalar()
    }

    /// The datatype the attribute was created with.
    pub fn dtype(&self) -> (r: Result<Datatype, Error>)
        ensures
            r matches Ok(dt) && dt == self.dtype,
    {
        Ok(self.dtype)
    }

    /// The name of the attribute on its parent object.
    pub fn name(&self) -> (r: String)
        ensures
            r@ == self.path@,
    {
        self.path.clone()
    }
}

/// Accumulates creation options for an attribute of element type `T` and
/// finalizes them into one creation call.
#[derive(Debug)]
pub struct AttributeBuilder<T> {
    pub packed: bool,
    pub filters: Filters,
    pub parent: Result<Handle, Error>,
    pub parent_path: String,
    pub track_times: bool,
    pub phantom: PhantomData<T>,
}

impl<T: H5Type> AttributeBuilder<T> {
    /// Create a new attribute builder and bind it to the parent container.
    pub fn new(parent: &Group) -> (r: Self)
        ensures
            r.packed == false,
            r.filters == Filters::spec_default(),
            r.track_times == false,
            r.parent_path@ == parent.path@,
            parent.handle.is_valid() ==> (r.parent matches Ok(h) && h.spec_id()
                == parent.handle.spec_id()),
            !parent.handle.is_valid() ==> (r.parent matches Err(e) && e == Error::InvalidHandleId(
                parent.handle.spec_id(),
            )),
    {
        // Bind the parent by taking a reference to its handle; the native
        // registry's reference count is raised by the caller of the raw
        // creation call.
        let handle = Handle::try_new(parent.handle.id());
        AttributeBuilder {
            packed: false,
            filters: Filters::new(),
            parent: handle,
            parent_path: parent.path.clone(),
            track_times: false,
            phantom: PhantomData,
        }
    }

    /// Create a new attribute builder and bind it to the parent dataset.
    pub fn new_from_dataset(parent: &Dataset) -> (r: Self)
        ensures
            r.packed == false,
            r.filters == Filters::spec_default(),
            r.track_times == false,
            r.parent_path@ == parent.path@,
            parent.handle.is_valid() ==> (r.parent matches Ok(h) && h.spec_id()
                == parent.handle.spec_id()),
            !parent.handle.is_valid() ==> (r.parent matches Err(e) && e == Error::InvalidHandleId(
                parent.handle.spec_id(),
            )),
    {
        let handle = Handle::try_new(parent.handle.id());
        AttributeBuilder {
            packed: false,
            filters: Filters::new(),
            parent: handle,
            parent_path: parent.path.clone(),
            track_times: false,
            phantom: PhantomData,
        }
    }

    /// Use the packed layout of the element type's descriptor (for scalar
    /// descriptors the packed and C layouts coincide).
    pub fn packed(&mut self, packed: bool) -> (r: &mut Self)
        ensures
            *r == (AttributeBuilder { packed, ..*old(self) }),
            *final(self) == *final(r),
    {
        self.packed = packed;
        self
    }

    /// Enable or disable tracking object modification time (disabled by
    /// default).
    pub fn track_times(&mut self, track_times: bool) -> (r: &mut Self)
        ensures
            *r == (AttributeBuilder { track_times, ..*old(self) }),
            *final(self) == *final(r),
    {
        self.track_times = track_times;
        self
    }

    fn finalize<D: Dimension>(&self, file: &mut File, name: &str, extents: D) -> (r: Result<
        Attribute,
        Error,
    >)
        requires
            old(file).wf(),
        ensures
            final(file).wf(),
            final(file).root == old(file).root,
            r is Ok <==> self.parent is Ok && dims_product(extents.spec_dims()) <= usize::MAX
                && !contains_nul(name@) && old(file).next_id != i64::MAX,
            r matches Ok(a) ==> {
                &&& a.handle.spec_id() == old(file).next_id
                &&& a.handle.is_valid()
                &&& final(file).next_id == old(file).next_id + 1
                &&& a.space.dims@ == extents.spec_dims()
                &&& a.space.size == dims_product(extents.spec_dims())
                &&& a.space.resizable == false
                &&& a.dtype.descriptor == T::spec_descriptor()
                &&& a.path@ == self.parent_path@ + "/"@ + name@
            },
            r matches Err(e) ==> *final(file) == *old(file) && e == spec_create_error(
                Filters::spec_default(),
                self.parent,
                dims_product(extents.spec_dims()),
                contains_nul(name@),
                old(file).next_id,
            ),
    {
        // The packed flag picks the layout of the descriptor handed to the
        // native type-creation call; scalar layouts coincide.
        let descriptor = if self.packed {
            T::type_descriptor().to_packed_repr()
        } else {
            T::type_descriptor().to_c_repr()
        };
        let dtype = Datatype::from_descriptor(&descriptor)?;
        if let Err(e) = &self.parent {
            return Err(*e);
        }
        let space = Dataspace::try_new(extents, false)?;
        if let Err(e) = check_name(name) {
            return Err(e);
        }
        let path = link_path(self.parent_path.as_str(), name);
        let id = match file.alloc_id() {
            Ok(id) => id,
            Err(e) => {
                return Err(e);
            },
        };
        Ok(Attribute { handle: Handle::from_raw(id), space, dtype, path })
    }

    /// Create the attribute and link it onto its parent object.
    pub fn create<D: Dimension>(&self, file: &mut File, name: &str, shape: D) -> (r: Result<
        Attribute,
        Error,
    >)
        requires
            old(file).wf(),
        ensures
            final(file).wf(),
            final(file).root == old(file).root,
            r is Ok <==> self.parent is Ok && dims_product(shape.spec_dims()) <= usize::MAX
                && !contains_nul(name@) && old(file).next_id != i64::MAX,
            r matches Ok(a) ==> {
                &&& a.handle.spec_id() == old(file).next_id
                &&& a.handle.is_valid()
                &&& final(file).next_id == old(file).next_id + 1
                &&& a.space.dims@ == shape.spec_dims()
                &&& a.space.size == dims_product(shape.spec_dims())
                &&& a.space.resizable == false
                &&& a.dtype.descriptor == T::spec_descriptor()
                &&& a.path@ == self.parent_path@ + "/"@ + name@
            },
            r matches Err(e) ==> *final(file) == *old(file) && e == spec_create_error(
                Filters::spec_default(),
                self.parent,
                dims_product(shape.spec_dims()),
                contains_nul(name@),
                old(file).next_id,
            ),
    {
        self.finalize(file, name, shape)
    }
}

impl Group {
    /// Start building an attribute of element type `T` on this group.
    pub fn new_attribute<T: H5Type>(&self) -> (r: AttributeBuilder<T>)
        ensures
            r.packed == false,
            r.filters == Filters::spec_default(),
            r.track_times == false,
            r.parent_path@ == self.path@,
            self.handle.is_valid() ==> (r.parent matches Ok(h) && h.spec_id()
                == self.handle.spec_id()),
            !self.handle.is_valid() ==> (r.parent matches Err(e) && e == Error::InvalidHandleId(
                self.handle.spec_id(),
            )),
    {
        AttributeBuilder::new(self)
    }
}

impl File {
    /// Start building an attribute of element type `T` on the root group.
    pub fn new_attribute<T: H5Type>(&self) -> (r: AttributeBuilder<T>)
        ensures
            r.packed == false,
            r.filters == Filters::spec_default(),
            r.track_times == false,
            r.parent_path@ == self.root.path@,
            self.root.handle.is_valid() ==> (r.parent matches Ok(h) && h.spec_id()
                == self.root.handle.spec_id()),
            !self.root.handle.is_valid() ==> (r.parent matches Err(e) && e
                == Error::InvalidHandleId(self.root.handle.spec_id())),
    {
        AttributeBuilder::new(&self.root)
    }
}

impl Dataset {
    /// Start building an attribute of element type `T` on this dataset.
    pub fn new_attribute<T: H5Type>(&self) -> (r: AttributeBuilder<T>)
        ensures
            r.packed == false,
            r.filters == Filters::spec_default(),
            r.track_times == false,
            r.parent_path@ == self.path@,
            self.handle.is_valid() ==> (r.parent matches Ok(h) && h.spec_id()
                == self.handle.spec_id()),
            !self.handle.is_valid() ==> (r.parent matches Err(e) && e == Error::InvalidHandleId(
                self.handle.spec_id(),
            )),
    {
        AttributeBuilder::new_from_dataset(self)
    }
}

} // verus!
