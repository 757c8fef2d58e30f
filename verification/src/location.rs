use vstd::prelude::*;
use vstd::string::{StrSliceExecFns, StringExecFns};

use crate::error::Error;

verus! {

/// Whether a name contains a NUL character, which cannot cross the C
/// string boundary.
pub open spec fn contains_nul(s: Seq<char>) -> bool {
    exists|i: int| 0 <= i < s.len() && s[i] == '\0'
}

/// Check that a link or attribute name can be passed to the native
/// library as a C string.
pub fn check_name(name: &str) -> (r: Result<(), Error>)
    ensures
        r is Ok <==> !contains_nul(name@),
        r matches Err(e) ==> e == Error::NulName,
{
    let n = name.unicode_len();
    let mut i: usize = 0;
    while i < n
        invariant
            n == name@.len(),
            0 <= i <= n,
            forall|j: int| 0 <= j < i ==> name@[j] != '\0',
        decreases n - i,
    {
        if name.get_char(i) == '\0' {
            return Err(Error::NulName);
        }
        i += 1;
    }
    Ok(())
}

/// The absolute path of an object linked under a parent path: the parent
/// path, a separator, and the link name.
pub fn link_path(parent_path: &str, name: &str) -> (r: String)
    ensures
        r@ == parent_path@ + "/"@ + name@,
{
    let mut path = parent_path.to_owned();
    path.append("/");
    path.append(name);
    path
}

} // verus!
