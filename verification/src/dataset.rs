use core::marker::PhantomData;

use vstd::prelude::*;

use crate::dims::{Dimension, Ix};
use crate::dtype::{Datatype, H5Type};
use crate::error::Error;
use crate::file::{File, Group};
use crate::filters::Filters;
use crate::handle::Handle;
use crate::location::{check_name, contains_nul, link_path};
use crate::space::{dims_product, Dataspace};

verus! {

/// A dataset: a typed, shaped array object inside a file.
///
/// The chunk storage and the filter pipeline run in the native library;
/// this type carries as plain values everything the binding layer decided
/// at creation — extents, datatype, filter configuration and fill value.
#[derive(Clone, Debug)]
pub struct Dataset {
    pub handle: Handle,
    pub space: Dataspace,
    pub dtype: Datatype,
    pub filters: Filters,
    pub track_times: bool,
    pub fill: i128,
    pub path: String,
}

impl Dataset {
    /// The handle of this dataset.
    pub fn handle(&self) -> (r: &Handle)
        ensures
            r == &self.handle,
    {
        &self.handle
    }

    /// Whether this dataset's identifier is valid.
    pub fn is_valid(&self) -> (r: bool)
        ensures
            r == self.handle.is_valid(),
    {
        self.handle.is_valid_handle()
    }

    /// The extents, one entry per axis.
    pub fn shape(&self) -> (r: Vec<Ix>)
        ensures
            r@ == self.space.dims@,
    {
        self.space.shape()
    }

    /// The element count of the extents.
    pub fn size(&self) -> (r: usize)
        ensures
            r == self.space.size,
    {
        self.space.size()
    }

    /// The number of axes.
    pub fn ndim(&self) -> (r: usize)
        ensures
            r == self.space.dims@.len(),
    {
        self.space.ndim()
    }

    /// Whether the dataset is zero-dimensional.
    pub fn is_scalar(&self) -> (r: bool)
        ensures
            r == (self.space.dims@.len() == 0),
    {
        self.space.is_scalar()
    }

    /// The filter configuration the dataset was created with.
    pub fn filters(&self) -> (r: Filters)
        ensures
            r == self.filters,
    {
        self.filters
    }

    /// Whether the extents may grow after creation.
    pub fn is_resizable(&self) -> (r: bool)
        ensures
            r == self.space.resizable,
    {
        self.space.is_resizable()
    }

    /// Whether modification times are tracked for this dataset.
    pub fn tracks_times(&self) -> (r: bool)
        ensures
            r == self.track_times,
    {
        self.track_times
    }

    /// The datatype the dataset was created with.
    pub fn dtype(&self) -> (r: Result<Datatype, Error>)
        ensures
            r matches Ok(dt) && dt == self.dtype,
    {
        Ok(self.dtype)
    }

    /// The absolute path of the dataset; anonymous datasets have the empty
    /// name.
    pub fn name(&self) -> (r: String)
        ensures
            r@ == self.path@,
    {
        self.path.clone()
    }

    /// Read the fill value back in any mapped type; exactly the stored
    /// value when it is representable in that type, an error otherwise.
    pub fn fill_value<T: H5Type>(&self) -> (r: Result<Option<T>, Error>)
        ensures
            r matches Ok(opt) ==> (opt matches Some(x) && x.spec_fill() == self.fill
                && T::spec_fill_in_range(self.fill)),
            r is Err <==> !T::spec_fill_in_range(self.fill),
            r matches Err(e) ==> e == Error::FillValueConversion,
    {
        match T::from_fill(self.fill) {
            Some(x) => Ok(Some(x)),
            None => Err(Error::FillValueConversion),
        }
    }
}

/// The first error a creation call reports, in the order the checks run:
/// the filter configuration, then the parent handle, then the extents,
/// then the name, then the identifier allocator.
pub open spec fn spec_create_error(
    filters: Filters,
    parent: Result<Handle, Error>,
    element_total: int,
    name_has_nul: bool,
    next_id: i64,
) -> Error {
    if !filters.spec_valid() {
        match filters.gzip {
            Some(level) => Error::InvalidGzipLevel(level),
            None => Error::InvalidGzipLevel(0),
        }
    } else if parent is Err {
        match parent {
            Err(e) => e,
            Ok(_) => Error::InvalidHandleId(0),
        }
    } else if element_total > usize::MAX {
        Error::ExtentsTooLarge
    } else if name_has_nul {
        Error::NulName
    } else if next_id == i64::MAX {
        Error::IdSpaceExhausted
    } else {
        Error::InvalidHandleId(0)
    }
}

/// Accumulates creation options for a dataset of element type `T` and
/// finalizes them into one creation call.
#[derive(Debug)]
pub struct DatasetBuilder<T> {
    pub filters: Filters,
    pub parent: Result<Handle, Error>,
    pub parent_path: String,
    pub resizable: bool,
    pub track_times: bool,
    pub fill: Option<i128>,
    pub phantom: PhantomData<T>,
}

impl<T: H5Type> DatasetBuilder<T> {
    /// Create a new dataset builder and bind it to the parent container.
    pub fn new(parent: &Group) -> (r: Self)
        ensures
            r.filters == Filters::spec_default(),
            r.resizable == false,
            r.track_times == false,
            r.fill is None,
            r.parent_path@ == parent.path@,
            parent.handle.is_valid() ==> (r.parent matches Ok(h) && h.spec_id() == parent.handle.spec_id()),
            !parent.handle.is_valid() ==> (r.parent matches Err(e) && e == Error::InvalidHandleId(
                parent.handle.spec_id(),
            )),
    {
        // Bind the parent by taking a reference to its handle; the native
        // registry's reference count is raised by the caller of the raw
        // creation call.
        let handle = Handle::try_new(parent.handle.id());
        DatasetBuilder {
            filters: Filters::new(),
            parent: handle,
            parent_path: parent.path.clone(),
            resizable: false,
            track_times: false,
            fill: None,
            phantom: PhantomData,
        }
    }

    /// Enable or disable the byte-shuffle filter.
    pub fn shuffle(&mut self, shuffle: bool) -> (r: &mut Self)
        ensures
            *r == (DatasetBuilder { filters: (Filters { shuffle, ..old(self).filters }), ..*old(
                self,
            ) }),
            *final(self) == *final(r),
    {
        self.filters.shuffle(shuffle);
        self
    }

    /// Enable or disable the checksum filter.
    pub fn fletcher32(&mut self, fletcher32: bool) -> (r: &mut Self)
        ensures
            *r == (DatasetBuilder { filters: (Filters { fletcher32, ..old(self).filters }), ..*old(
                self,
            ) }),
            *final(self) == *final(r),
    {
        self.filters.fletcher32(fletcher32);
        self
    }

    /// Enable the scale-offset filter with the given factor.
    pub fn scale_offset(&mut self, scale_offset: u32) -> (r: &mut Self)
        ensures
            *r == (DatasetBuilder {
                filters: (Filters { scale_offset: Some(scale_offset), ..old(self).filters }),
                ..*old(self)
            }),
            *final(self) == *final(r),
    {
        self.filters.scale_offset(scale_offset);
        self
    }

    /// Enable gzip compression at the given level.
    pub fn gzip(&mut self, level: u8) -> (r: &mut Self)
        ensures
            *r == (DatasetBuilder { filters: (Filters { gzip: Some(level), ..old(self).filters }),
                ..*old(self) }),
            *final(self) == *final(r),
    {
        self.filters.gzip(level);
        self
    }

    /// Replace the whole filter configuration.
    pub fn filters(&mut self, filters: &Filters) -> (r: &mut Self)
        ensures
            *r == (DatasetBuilder { filters: *filters, ..*old(self) }),
            *final(self) == *final(r),
    {
        self.filters = *filters;
        self
    }

    /// Make the extents resizable after creation.
    pub fn resizable(&mut self, resizable: bool) -> (r: &mut Self)
        ensures
            *r == (DatasetBuilder { resizable, ..*old(self) }),
            *final(self) == *final(r),
    {
        self.resizable = resizable;
        self
    }

    /// Enable or disable tracking object modification time (disabled by
    /// default).
    pub fn track_times(&mut self, track_times: bool) -> (r: &mut Self)
        ensures
            *r == (DatasetBuilder { track_times, ..*old(self) }),
            *final(self) == *final(r),
    {
        self.track_times = track_times;
        self
    }

    /// Set the fill value of the dataset (every element not yet written
    /// reads back as this value).
    pub fn fill_value(&mut self, fill: T) -> (r: &mut Self)
        ensures
            *r == (DatasetBuilder { fill: Some(fill.spec_fill()), ..*old(self) }),
            *final(self) == *final(r),
    {
        self.fill = Some(fill.fill_repr());
        self
    }

    fn finalize<D: Dimension>(&self, file: &mut File, name: Option<&str>, extents: D) -> (r: Result<
        Dataset,
        Error,
    >)
        requires
            old(file).wf(),
        ensures
            final(file).wf(),
            final(file).root == old(file).root,
            r is Ok <==> self.filters.spec_valid() && self.parent is Ok && dims_product(
                extents.spec_dims(),
            ) <= usize::MAX && (name matches Some(n) ==> !contains_nul(n@)) && old(file).next_id
                != i64::MAX,
            r matches Ok(ds) ==> {
                &&& ds.handle.spec_id() == old(file).next_id
                &&& ds.handle.is_valid()
                &&& final(file).next_id == old(file).next_id + 1
                &&& ds.space.dims@ == extents.spec_dims()
                &&& ds.space.size == dims_product(extents.spec_dims())
                &&& ds.space.resizable == self.resizable
                &&& ds.dtype.descriptor == T::spec_descriptor()
                &&& ds.filters == self.filters
                &&& ds.track_times == self.track_times
                &&& ds.fill == (match self.fill {
                    Some(v) => v,
                    None => 0,
                })
                &&& (match name {
                    Some(n) => ds.path@ == self.parent_path@ + "/"@ + n@,
                    None => ds.path@ == Seq::<char>::empty(),
                })
            },
            r matches Err(e) ==> *final(file) == *old(file) && e == spec_create_error(
                self.filters,
                self.parent,
                dims_product(extents.spec_dims()),
                (name matches Some(n) && contains_nul(n@)),
                old(file).next_id,
            ),
    {
        if let Err(e) = self.filters.validate() {
            return Err(e);
        }
        let dtype = Datatype::from_descriptor(&T::type_descriptor().to_c_repr())?;
        if let Err(e) = &self.parent {
            return Err(*e);
        }
        let space = Dataspace::try_new(extents, self.resizable)?;
        let path = match name {
            Some(n) => {
                if let Err(e) = check_name(n) {
                    return Err(e);
                }
                link_path(self.parent_path.as_str(), n)
            },
            None => String::new(),
        };
        let id = match file.alloc_id() {
            Ok(id) => id,
            Err(e) => {
                return Err(e);
            },
        };
        let fill = match self.fill {
            Some(v) => v,
            None => 0,
        };
        Ok(Dataset {
            handle: Handle::from_raw(id),
            space,
            dtype,
            filters: self.filters,
            track_times: self.track_times,
            fill,
            path,
        })
    }

    /// Create the dataset and link it into the file structure.
    pub fn create<D: Dimension>(&self, file: &mut File, name: &str, shape: D) -> (r: Result<
        Dataset,
        Error,
    >)
        requires
            old(file).wf(),
        ensures
            final(file).wf(),
            final(file).root == old(file).root,
            r is Ok <==> self.filters.spec_valid() && self.parent is Ok && dims_product(
                shape.spec_dims(),
            ) <= usize::MAX && !contains_nul(name@) && old(file).next_id != i64::MAX,
            r matches Ok(ds) ==> {
                &&& ds.handle.spec_id() == old(file).next_id
                &&& ds.handle.is_valid()
                &&& final(file).next_id == old(file).next_id + 1
                &&& ds.space.dims@ == shape.spec_dims()
                &&& ds.space.size == dims_product(shape.spec_dims())
                &&& ds.space.resizable == self.resizable
                &&& ds.dtype.descriptor == T::spec_descriptor()
                &&& ds.filters == self.filters
                &&& ds.track_times == self.track_times
                &&& ds.fill == (match self.fill {
                    Some(v) => v,
                    None => 0,
                })
                &&& ds.path@ == self.parent_path@ + "/"@ + name@
            },
            r matches Err(e) ==> *final(file) == *old(file) && e == spec_create_error(
                self.filters,
                self.parent,
                dims_product(shape.spec_dims()),
                contains_nul(name@),
                old(file).next_id,
            ),
    {
        self.finalize(file, Some(name), shape)
    }

    /// Create the dataset without linking it anywhere: it has the empty
    /// name.
    pub fn create_anon<D: Dimension>(&self, file: &mut File, shape: D) -> (r: Result<
        Dataset,
        Error,
    >)
        requires
            old(file).wf(),
        ensures
            final(file).wf(),
            final(file).root == old(file).root,
            r is Ok <==> self.filters.spec_valid() && self.parent is Ok && dims_product(
                shape.spec_dims(),
            ) <= usize::MAX && old(file).next_id != i64::MAX,
            r matches Ok(ds) ==> {
                &&& ds.handle.spec_id() == old(file).next_id
                &&& ds.handle.is_valid()
                &&& final(file).next_id == old(file).next_id + 1
                &&& ds.space.dims@ == shape.spec_dims()
                &&& ds.space.size == dims_product(shape.spec_dims())
                &&& ds.space.resizable == self.resizable
                &&& ds.dtype.descriptor == T::spec_descriptor()
                &&& ds.filters == self.filters
                &&& ds.track_times == self.track_times
                &&& ds.fill == (match self.fill {
                    Some(v) => v,
                    None => 0,
                })
                &&& ds.path@ == Seq::<char>::empty()
            },
            r matches Err(e) ==> *final(file) == *old(file) && e == spec_create_error(
                self.filters,
                self.parent,
                dims_product(shape.spec_dims()),
                false,
                old(file).next_id,
            ),
    {
        self.finalize(file, None, shape)
    }
}

impl Group {
    /// Start building a dataset of element type `T` under this group.
    pub fn new_dataset<T: H5Type>(&self) -> (r: DatasetBuilder<T>)
        ensures
            r.filters == Filters::spec_default(),
            r.resizable == false,
            r.track_times == false,
            r.fill is None,
            r.parent_path@ == self.path@,
            self.handle.is_valid() ==> (r.parent matches Ok(h) && h.spec_id() == self.handle.spec_id()),
            !self.handle.is_valid() ==> (r.parent matches Err(e) && e == Error::InvalidHandleId(
                self.handle.spec_id(),
            )),
    {
        DatasetBuilder::new(self)
    }
}

impl File {
    /// Start building a dataset of element type `T` under the root group.
    pub fn new_dataset<T: H5Type>(&self) -> (r: DatasetBuilder<T>)
        ensures
            r.filters == Filters::spec_default(),
            r.resizable == false,
            r.track_times == false,
            r.fill is None,
            r.parent_path@ == self.root.path@,
            self.root.handle.is_valid() ==> (r.parent matches Ok(h) && h.spec_id() == self.root.handle.spec_id()),
            !self.root.handle.is_valid() ==> (r.parent matches Err(e) && e
                == Error::InvalidHandleId(self.root.handle.spec_id())),
    {
        DatasetBuilder::new(&self.root)
    }
}

} // verus!
