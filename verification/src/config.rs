//! Configuration that customizes generated build output.

use vstd::prelude::*;

verus! {

/// Configuration options for building one crate.
#[derive(Clone, Debug)]
pub struct CrateConfig {
    /// `cfg(...)` options for building this crate.
    pub cfg: Vec<String>,
    /// Compile-time environment variables for this crate.
    pub env: Vec<String>,
    /// Extra rustc flags.
    pub rustflags: Vec<String>,
}

/// Customizes generated output for a session.
#[derive(Clone, Debug)]
pub struct BuildConfig {
    /// Configuration that applies to all crates.
    pub all_config: CrateConfig,
    /// Additional configuration options for specific crates, keyed by crate
    /// name; additive with `all_config`.
    pub per_crate_config: Vec<(String, CrateConfig)>,
}

impl BuildConfig {
    /// The per-crate configuration recorded for a name, if any: the last
    /// entry carrying that name.
    pub fn config_for(&self, name: &String) -> (r: Option<&CrateConfig>)
        ensures
            r is Some <==> exists|i: int|
                0 <= i < self.per_crate_config@.len() && (#[trigger] self.per_crate_config@[i]).0@
                    == name@,
            r matches Some(c) ==> exists|i: int|
                0 <= i < self.per_crate_config@.len() && (#[trigger] self.per_crate_config@[i]).0@
                    == name@ && *c == self.per_crate_config@[i].1,
    {
        let n: usize = self.per_crate_config.len();
        let mut found: Option<&CrateConfig> = None;
        let mut i: usize = 0;
        while i < n
            invariant
                n == self.per_crate_config@.len(),
                0 <= i <= n,
                found is Some <==> exists|j: int|
                    0 <= j < i && (#[trigger] self.per_crate_config@[j]).0@ == name@,
                found matches Some(c) ==> exists|j: int|
                    0 <= j < i && (#[trigger] self.per_crate_config@[j]).0@ == name@ && *c
                        == self.per_crate_config@[j].1,
            decreases n - i,
        {
            let entry = &self.per_crate_config[i];
            if entry.0.eq(name) {
                found = Some(&entry.1);
            }
            i = i + 1;
        }
        found
    }
}

} // verus!
