use vstd::prelude::*;

verus! {

/// The last Rust release on which iOS linking works.
pub const LAST_WORKING_RUST: (u32, u32, u32) = (1, 45, 2);

/// Whether version `a` comes after version `b`, comparing major, minor, then patch.
pub open spec fn triple_after(a: (u32, u32, u32), b: (u32, u32, u32)) -> bool {
    a.0 > b.0 || (a.0 == b.0 && (a.1 > b.1 || (a.1 == b.1 && a.2 > b.2)))
}

/// Whether the Rust toolchain of version `version` (major, minor, patch) is one on
/// which iOS linking is broken, so that the user is to be asked to switch back.
pub fn rust_version_check(version: (u32, u32, u32)) -> (r: bool)
    ensures
        r == triple_after(version, LAST_WORKING_RUST),
{
    let last = LAST_WORKING_RUST;
    version.0 > last.0 || (version.0 == last.0 && (version.1 > last.1 || (version.1 == last.1
        && version.2 > last.2)))
}

} // verus!
