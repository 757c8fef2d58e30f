use vstd::prelude::*;

use crate::error::Error;

verus! {

/// The native library reports invalid identifiers as `-1`.
pub const INVALID_HID: i64 = -1;

/// An identifier is valid exactly when it is strictly positive.
pub open spec fn is_valid_id(id: i64) -> bool {
    id > 0
}

/// A lightweight wrapper around a native object identifier.
///
/// The reference count attached to an identifier lives in the native
/// library's registry; this type carries the identifier itself and the
/// validity rule that every operation of the binding layer checks before
/// crossing into native code.
#[derive(Clone, Copy, Debug)]
pub struct Handle {
    id: i64,
}

impl Handle {
    /// The identifier this handle carries.
    pub closed spec fn spec_id(&self) -> i64 {
        self.id
    }

    /// Whether the carried identifier is a valid one.
    pub open spec fn is_valid(&self) -> bool {
        is_valid_id(self.spec_id())
    }

    /// Wrap an identifier the model itself has handed out.
    pub(crate) fn from_raw(id: i64) -> (r: Handle)
        ensures
            r.spec_id() == id,
    {
        Handle { id }
    }

    /// Wrap an identifier, accepting it only if it is valid.
    pub fn try_new(id: i64) -> (r: Result<Handle, Error>)
        ensures
            is_valid_id(id) <==> r is Ok,
            r matches Ok(h) ==> h.spec_id() == id,
            r matches Err(e) ==> e == Error::InvalidHandleId(id),
    {
        if id > 0 {
            Ok(Handle { id })
        } else {
            Err(Error::InvalidHandleId(id))
        }
    }

    /// A handle that carries the invalid identifier.
    pub fn invalid() -> (r: Handle)
        ensures
            r.spec_id() == INVALID_HID,
            !r.is_valid(),
    {
        Handle { id: INVALID_HID }
    }

    /// The identifier this handle carries.
    pub fn id(&self) -> (r: i64)
        ensures
            r == self.spec_id(),
    {
        self.id
    }

    /// Whether this handle carries a valid identifier.
    pub fn is_valid_handle(&self) -> (r: bool)
        ensures
            r == self.is_valid(),
    {
        self.id > 0
    }
}

} // verus!
