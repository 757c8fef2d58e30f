//! A verified model of a safe, high-level binding layer over a native
//! hierarchical scientific-data-format library.
//!
//! The native library owns the on-disk format, the chunk storage and the
//! filter pipeline; this crate holds the binding layer's own logic — handle
//! validity, builder state, type-descriptor mapping, extent arithmetic and
//! filter configuration — as verified code over plain values. The raw C
//! calls that consume these validated values live outside the verified
//! library.

pub mod attribute;
pub mod dataset;
pub mod dims;
pub mod dtype;
pub mod error;
pub mod filters;
pub mod file;
pub mod handle;
pub mod location;
pub mod space;

pub use crate::attribute::{Attribute, AttributeBuilder};
pub use crate::dataset::{Dataset, DatasetBuilder};
pub use crate::dims::{Dimension, Ix};
pub use crate::dtype::{Datatype, H5Type, IntSize, TypeDescriptor};
pub use crate::error::Error;
pub use crate::filters::Filters;
pub use crate::file::{File, Group};
pub use crate::handle::Handle;
pub use crate::space::Dataspace;
