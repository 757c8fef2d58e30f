use vstd::prelude::*;

use crate::error::Error;
use crate::handle::{is_valid_id, Handle};

verus! {

/// A group: a container object inside a file, identified by a handle and
/// an absolute path (the root group's path is empty).
#[derive(Clone, Debug)]
pub struct Group {
    pub handle: Handle,
    pub path: String,
}

impl Group {
    /// The handle of this group.
    pub fn handle(&self) -> (r: &Handle)
        ensures
            r == &self.handle,
    {
        &self.handle
    }

    /// Whether this group's identifier is valid.
    pub fn is_valid(&self) -> (r: bool)
        ensures
            r == self.handle.is_valid(),
    {
        self.handle.is_valid_handle()
    }
}

/// An open container file, modelled as its root group together with the
/// identifier allocator of the native registry.
///
/// The on-disk layout, the group index and the reference counts live in the
/// native library; what the binding layer decides — which identifiers are
/// handed out, and that they are fresh and valid — is modelled and proved
/// here.
#[derive(Clone, Debug)]
pub struct File {
    pub root: Group,
    pub next_id: i64,
}

impl File {
    /// Identifiers yet to be handed out stay strictly positive.
    pub open spec fn wf(&self) -> bool {
        1 <= self.next_id
    }

    /// Open a fresh in-memory file: a root group with the first valid
    /// identifier, and all identifiers above it still free.
    pub fn in_memory() -> (r: File)
        ensures
            r.wf(),
            r.root.handle.spec_id() == 1,
            r.root.handle.is_valid(),
            r.root.path@ == Seq::<char>::empty(),
            r.next_id == 2,
    {
        File { root: Group { handle: Handle::from_raw(1), path: String::new() }, next_id: 2 }
    }

    /// The root group of the file.
    pub fn root(&self) -> (r: &Group)
        ensures
            r == &self.root,
    {
        &self.root
    }

    /// Hand out a fresh, valid object identifier.
    pub(crate) fn alloc_id(&mut self) -> (r: Result<i64, Error>)
        requires
            old(self).wf(),
        ensures
            final(self).wf(),
            final(self).root == old(self).root,
            r matches Ok(id) ==> id == old(self).next_id && is_valid_id(id)
                && final(self).next_id == old(self).next_id + 1,
            r is Err <==> old(self).next_id == i64::MAX,
            r matches Err(e) ==> e == Error::IdSpaceExhausted && *final(self) == *old(self),
    {
        if self.next_id == i64::MAX {
            return Err(Error::IdSpaceExhausted);
        }
        let id = self.next_id;
        self.next_id = self.next_id + 1;
        Ok(id)
    }
}

} // verus!
