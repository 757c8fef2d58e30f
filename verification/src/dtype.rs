use vstd::prelude::*;

use crate::error::Error;

verus! {

/// The byte width of a native integer type.
#[derive(Clone, Copy, Debug, PartialEq, Eq, Structural)]
pub enum IntSize {
    U1,
    U2,
    U4,
    U8,
}

impl IntSize {
    pub open spec fn spec_size(&self) -> usize {
        match *self {
            IntSize::U1 => 1,
            IntSize::U2 => 2,
            IntSize::U4 => 4,
            IntSize::U8 => 8,
        }
    }
}

/// A native type descriptor for the scalar types the binding layer maps.
///
/// Compound, array and string descriptors — and their C and packed layout
/// arithmetic — belong to the native library's type system and are not
/// modelled here.
#[derive(Clone, Copy, Debug, PartialEq, Eq, Structural)]
pub enum TypeDescriptor {
    Integer(IntSize),
    Unsigned(IntSize),
    Boolean,
}

impl TypeDescriptor {
    /// The storage size of a value of this type, in bytes.
    pub open spec fn spec_size(&self) -> usize {
        match *self {
            TypeDescriptor::Integer(size) => size.spec_size(),
            TypeDescriptor::Unsigned(size) => size.spec_size(),
            TypeDescriptor::Boolean => 1,
        }
    }

    /// The storage size of a value of this type, in bytes.
    pub fn size(&self) -> (r: usize)
        ensures
            r == self.spec_size(),
    {
        match *self {
            TypeDescriptor::Integer(size) | TypeDescriptor::Unsigned(size) => match size {
                IntSize::U1 => 1,
                IntSize::U2 => 2,
                IntSize::U4 => 4,
                IntSize::U8 => 8,
            },
            TypeDescriptor::Boolean => 1,
        }
    }

    /// The C (in-memory) layout of this descriptor. A scalar descriptor is
    /// its own C layout; only compound layouts differ, and those live in
    /// the native library.
    pub fn to_c_repr(&self) -> (r: TypeDescriptor)
        ensures
            r == *self,
    {
        *self
    }

    /// The packed layout of this descriptor. A scalar descriptor is its own
    /// packed layout; only compound layouts differ.
    pub fn to_packed_repr(&self) -> (r: TypeDescriptor)
        ensures
            r == *self,
    {
        *self
    }
}

/// A host-language type that maps onto a native scalar type.
///
/// The trait carries the descriptor of the native type and the exact
/// marshalling of a fill value of this type through the widest integer
/// representation.
pub trait H5Type: Sized {
    /// The native descriptor of this type.
    spec fn spec_descriptor() -> TypeDescriptor;

    /// The fill-value representation of a value of this type.
    spec fn spec_fill(&self) -> i128;

    /// Whether a stored fill value is representable in this type.
    spec fn spec_fill_in_range(v: i128) -> bool;

    /// The native descriptor of this type.
    fn type_descriptor() -> (r: TypeDescriptor)
        ensures
            r == Self::spec_descriptor(),
    ;

    /// This value, as a stored fill value.
    fn fill_repr(&self) -> (r: i128)
        ensures
            r == self.spec_fill(),
    ;

    /// Convert a stored fill value into this type, exactly when it is
    /// representable.
    fn from_fill(v: i128) -> (r: Option<Self>)
        ensures
            r is Some <==> Self::spec_fill_in_range(v),
            r matches Some(x) ==> x.spec_fill() == v,
    ;
}

impl H5Type for u8 {
    open spec fn spec_descriptor() -> TypeDescriptor {
        TypeDescriptor::Unsigned(IntSize::U1)
    }

    open spec fn spec_fill(&self) -> i128 {
        *self as i128
    }

    open spec fn spec_fill_in_range(v: i128) -> bool {
        0 <= v <= u8::MAX
    }

    fn type_descriptor() -> TypeDescriptor {
        TypeDescriptor::Unsigned(IntSize::U1)
    }

    fn fill_repr(&self) -> i128 {
        *self as i128
    }

    fn from_fill(v: i128) -> Option<u8> {
        if 0 <= v && v <= u8::MAX as i128 {
            Some(v as u8)
        } else {
            None
        }
    }
}

impl H5Type for u16 {
    open spec fn spec_descriptor() -> TypeDescriptor {
        TypeDescriptor::Unsigned(IntSize::U2)
    }

    open spec fn spec_fill(&self) -> i128 {
        *self as i128
    }

    open spec fn spec_fill_in_range(v: i128) -> bool {
        0 <= v <= u16::MAX
    }

    fn type_descriptor() -> TypeDescriptor {
        TypeDescriptor::Unsigned(IntSize::U2)
    }

    fn fill_repr(&self) -> i128 {
        *self as i128
    }

    fn from_fill(v: i128) -> Option<u16> {
        if 0 <= v && v <= u16::MAX as i128 {
            Some(v as u16)
        } else {
            None
        }
    }
}

impl H5Type for u32 {
    open spec fn spec_descriptor() -> TypeDescriptor {
        TypeDescriptor::Unsigned(IntSize::U4)
    }

    open spec fn spec_fill(&self) -> i128 {
        *self as i128
    }

    open spec fn spec_fill_in_range(v: i128) -> bool {
        0 <= v <= u32::MAX
    }

    fn type_descriptor() -> TypeDescriptor {
        TypeDescriptor::Unsigned(IntSize::U4)
    }

    fn fill_repr(&self) -> i128 {
        *self as i128
    }

    fn from_fill(v: i128) -> Option<u32> {
        if 0 <= v && v <= u32::MAX as i128 {
            Some(v as u32)
        } else {
            None
        }
    }
}

impl H5Type for u64 {
    open spec fn spec_descriptor() -> TypeDescriptor {
        TypeDescriptor::Unsigned(IntSize::U8)
    }

    open spec fn spec_fill(&self) -> i128 {
        *self as i128
    }

    open spec fn spec_fill_in_range(v: i128) -> bool {
        0 <= v <= u64::MAX
    }

    fn type_descriptor() -> TypeDescriptor {
        TypeDescriptor::Unsigned(IntSize::U8)
    }

    fn fill_repr(&self) -> i128 {
        *self as i128
    }

    fn from_fill(v: i128) -> Option<u64> {
        if 0 <= v && v <= u64::MAX as i128 {
            Some(v as u64)
        } else {
            None
        }
    }
}

impl H5Type for usize {
    open spec fn spec_descriptor() -> TypeDescriptor {
        TypeDescriptor::Unsigned(IntSize::U8)
    }

    open spec fn spec_fill(&self) -> i128 {
        *self as i128
    }

    open spec fn spec_fill_in_range(v: i128) -> bool {
        0 <= v <= usize::MAX
    }

    fn type_descriptor() -> TypeDescriptor {
        TypeDescriptor::Unsigned(IntSize::U8)
    }

    fn fill_repr(&self) -> i128 {
        *self as i128
    }

    fn from_fill(v: i128) -> Option<usize> {
        if 0 <= v && v <= usize::MAX as i128 {
            Some(v as usize)
        } else {
            None
        }
    }
}

impl H5Type for i8 {
    open spec fn spec_descriptor() -> TypeDescriptor {
        TypeDescriptor::Integer(IntSize::U1)
    }

    open spec fn spec_fill(&self) -> i128 {
        *self as i128
    }

    open spec fn spec_fill_in_range(v: i128) -> bool {
        i8::MIN <= v <= i8::MAX
    }

    fn type_descriptor() -> TypeDescriptor {
        TypeDescriptor::Integer(IntSize::U1)
    }

    fn fill_repr(&self) -> i128 {
        *self as i128
    }

    fn from_fill(v: i128) -> Option<i8> {
        if i8::MIN as i128 <= v && v <= i8::MAX as i128 {
            Some(v as i8)
        } else {
            None
        }
    }
}

impl H5Type for i16 {
    open spec fn spec_descriptor() -> TypeDescriptor {
        TypeDescriptor::Integer(IntSize::U2)
    }

    open spec fn spec_fill(&self) -> i128 {
        *self as i128
    }

    open spec fn spec_fill_in_range(v: i128) -> bool {
        i16::MIN <= v <= i16::MAX
    }

    fn type_descriptor() -> TypeDescriptor {
        TypeDescriptor::Integer(IntSize::U2)
    }

    fn fill_repr(&self) -> i128 {
        *self as i128
    }

    fn from_fill(v: i128) -> Option<i16> {
        if i16::MIN as i128 <= v && v <= i16::MAX as i128 {
            Some(v as i16)
        } else {
            None
        }
    }
}

impl H5Type for i32 {
    open spec fn spec_descriptor() -> TypeDescriptor {
        TypeDescriptor::Integer(IntSize::U4)
    }

    open spec fn spec_fill(&self) -> i128 {
        *self as i128
    }

    open spec fn spec_fill_in_range(v: i128) -> bool {
        i32::MIN <= v <= i32::MAX
    }

    fn type_descriptor() -> TypeDescriptor {
        TypeDescriptor::Integer(IntSize::U4)
    }

    fn fill_repr(&self) -> i128 {
        *self as i128
    }

    fn from_fill(v: i128) -> Option<i32> {
        if i32::MIN as i128 <= v && v <= i32::MAX as i128 {
            Some(v as i32)
        } else {
            None
        }
    }
}

impl H5Type for i64 {
    open spec fn spec_descriptor() -> TypeDescriptor {
        TypeDescriptor::Integer(IntSize::U8)
    }

    open spec fn spec_fill(&self) -> i128 {
        *self as i128
    }

    open spec fn spec_fill_in_range(v: i128) -> bool {
        i64::MIN <= v <= i64::MAX
    }

    fn type_descriptor() -> TypeDescriptor {
        TypeDescriptor::Integer(IntSize::U8)
    }

    fn fill_repr(&self) -> i128 {
        *self as i128
    }

    fn from_fill(v: i128) -> Option<i64> {
        if i64::MIN as i128 <= v && v <= i64::MAX as i128 {
            Some(v as i64)
        } else {
            None
        }
    }
}

impl H5Type for isize {
    open spec fn spec_descriptor() -> TypeDescriptor {
        TypeDescriptor::Integer(IntSize::U8)
    }

    open spec fn spec_fill(&self) -> i128 {
        *self as i128
    }

    open spec fn spec_fill_in_range(v: i128) -> bool {
        isize::MIN <= v <= isize::MAX
    }

    fn type_descriptor() -> TypeDescriptor {
        TypeDescriptor::Integer(IntSize::U8)
    }

    fn fill_repr(&self) -> i128 {
        *self as i128
    }

    fn from_fill(v: i128) -> Option<isize> {
        if isize::MIN as i128 <= v && v <= isize::MAX as i128 {
            Some(v as isize)
        } else {
            None
        }
    }
}

impl H5Type for bool {
    open spec fn spec_descriptor() -> TypeDescriptor {
        TypeDescriptor::Boolean
    }

    open spec fn spec_fill(&self) -> i128 {
        if *self {
            1
        } else {
            0
        }
    }

    open spec fn spec_fill_in_range(v: i128) -> bool {
        v == 0 || v == 1
    }

    fn type_descriptor() -> TypeDescriptor {
        TypeDescriptor::Boolean
    }

    fn fill_repr(&self) -> i128 {
        if *self {
            1
        } else {
            0
        }
    }

    fn from_fill(v: i128) -> Option<bool> {
        if v == 0 {
            Some(false)
        } else if v == 1 {
            Some(true)
        } else {
            None
        }
    }
}

/// A named native datatype, created from a descriptor.
#[derive(Clone, Copy, Debug, PartialEq)]
pub struct Datatype {
    pub descriptor: TypeDescriptor,
}

impl Datatype {
    /// Create a datatype from a descriptor.
    pub fn from_descriptor(descriptor: &TypeDescriptor) -> (r: Result<Datatype, Error>)
        ensures
            r matches Ok(dt) && dt.descriptor == *descriptor,
    {
        Ok(Datatype { descriptor: *descriptor })
    }

    /// Create the datatype of a mapped host-language type.
    pub fn from_type<T: H5Type>() -> (r: Result<Datatype, Error>)
        ensures
            r matches Ok(dt) && dt.descriptor == T::spec_descriptor(),
    {
        Datatype::from_descriptor(&T::type_descriptor())
    }

    /// The descriptor this datatype was created from.
    pub fn descriptor(&self) -> (r: TypeDescriptor)
        ensures
            r == self.descriptor,
    {
        self.descriptor
    }
}

} // verus!
