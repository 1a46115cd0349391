//! The named build platforms that the surrounding tooling supports.

use vstd::prelude::*;

verus! {

/// The views of the supported target triples, in order.
pub open spec fn spec_supported_named_platforms() -> Seq<Seq<char>> {
    seq![
        "i686-linux-android"@,
        "x86_64-linux-android"@,
        "armv7-linux-android"@,
        "aarch64-linux-android"@,
        "aarch64-fuchsia"@,
        "x86_64-fuchsia"@,
        "aarch64-apple-ios"@,
        "armv7-apple-ios"@,
        "x86_64-apple-ios"@,
        "i386-apple-ios"@,
        "i686-pc-windows-msvc"@,
        "x86_64-pc-windows-msvc"@,
        "i686-unknown-linux-gnu"@,
        "x86_64-unknown-linux-gnu"@,
        "x86_64-apple-darwin"@,
        "aarch64-apple-darwin"@,
    ]
}

/// The rustc target triples supported as named platforms, for tests to
/// enumerate.
pub fn supported_named_platforms_for_testing() -> (r: Vec<&'static str>)
    ensures
        r.deep_view() =~= spec_supported_named_platforms(),
        r@.len() == 16,
{
    let mut v: Vec<&'static str> = Vec::new();
    v.push("i686-linux-android");
    v.push("x86_64-linux-android");
    v.push("armv7-linux-android");
    v.push("aarch64-linux-android");
    v.push("aarch64-fuchsia");
    v.push("x86_64-fuchsia");
    v.push("aarch64-apple-ios");
    v.push("armv7-apple-ios");
    v.push("x86_64-apple-ios");
    v.push("i386-apple-ios");
    v.push("i686-pc-windows-msvc");
    v.push("x86_64-pc-windows-msvc");
    v.push("i686-unknown-linux-gnu");
    v.push("x86_64-unknown-linux-gnu");
    v.push("x86_64-apple-darwin");
    v.push("aarch64-apple-darwin");
    assert(v.deep_view() =~= spec_supported_named_platforms());
    v
}

} // verus!
