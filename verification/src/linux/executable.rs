//! Where the system keeps the link to a process's executable.

use crate::text::chars::from_chars;
use crate::text::number::{decimal, decimal_chars};
use vstd::prelude::*;

verus! {

/// The path of the link that the system keeps to the executable of a
/// process: `/proc/`, the process id in decimal, `/exe`.
pub open spec fn executable_link_path(pid: u64) -> Seq<char> {
    "/proc/"@ + decimal(pid as nat) + "/exe"@
}

/// Makes the path of the link to a process's executable.
pub fn executable_link(pid: u64) -> (path: String)
    ensures
        path@ == executable_link_path(pid),
{
    let mut path = "/proc/".to_owned();
    path.append(from_chars(&decimal_chars(pid)).as_str());
    path.append("/exe");
    path
}

} // verus!
