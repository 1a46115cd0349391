//! Privilege groups for crates, and parsing of their names.

use vstd::prelude::*;
use vstd::string::StringSliceAdditionalSpecFns;

verus! {

/// Privilege group for a crate. They are ordered with higher values being
/// higher privilege.
#[derive(Copy, Clone, Debug, Hash, PartialEq, Eq, Structural, PartialOrd, Ord)]
pub enum Group {
    /// Test-only code (or for tools that don't contribute directly to the
    /// shipping product).
    Test,
    /// Crates that do not satisfy the Rule of Two, and thus must be used from
    /// a sandboxed process.
    Sandbox,
    /// Crates that satisfy the Rule of Two, and can be used without
    /// restriction from any process.
    Safe,
}

/// The name of a group did not match any known group.
#[derive(Debug, Clone, Copy, PartialEq, Eq, Structural)]
pub struct GroupParseError {}

/// The group, if any, that a name denotes (by its UTF-8 bytes).
pub open spec fn spec_group_of_name(bytes: Seq<u8>) -> Option<Group> {
    if bytes == "safe".spec_bytes() {
        Some(Group::Safe)
    } else if bytes == "sandbox".spec_bytes() {
        Some(Group::Sandbox)
    } else if bytes == "test".spec_bytes() {
        Some(Group::Test)
    } else {
        None
    }
}

/// Whether two byte slices hold the same bytes.
fn bytes_equal(a: &[u8], b: &[u8]) -> (r: bool)
    ensures
        r <==> a@ == b@,
{
    if a.len() != b.len() {
        assert(a@.len() != b@.len());
        return false;
    }
    let n: usize = a.len();
    let mut i: usize = 0;
    while i < n
        invariant
            n == a@.len() && n == b@.len(),
            0 <= i <= n,
            forall|j: int| 0 <= j < i ==> a@[j] == b@[j],
        decreases n - i,
    {
        if a[i] != b[i] {
            assert(a@ != b@);
            return false;
        }
        i = i + 1;
    }
    assert(a@ =~= b@);
    true
}

impl Group {
    /// Parse a group from its name: one of "safe", "sandbox" or "test".
    pub fn new_from_str(s: &str) -> (r: Result<Group, GroupParseError>)
        ensures
            r matches Ok(g) ==> spec_group_of_name(s.spec_bytes()) == Some(g),
            r is Err <==> spec_group_of_name(s.spec_bytes()) is None,
    {
        let bytes = s.as_bytes();
        if bytes_equal(bytes, "safe".as_bytes()) {
            Ok(Group::Safe)
        } else if bytes_equal(bytes, "sandbox".as_bytes()) {
            Ok(Group::Sandbox)
        } else if bytes_equal(bytes, "test".as_bytes()) {
            Ok(Group::Test)
        } else {
            Err(GroupParseError {})
        }
    }
}

} // verus!
