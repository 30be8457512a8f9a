//! Utilities for getting information about the runtime environment.
//!
//! The environment data itself — platform, architecture, compiler, the
//! relevant environment variables — is gathered by the surrounding
//! application; the verified part is the [`RuntimeEnvironment`] record and
//! the queries over it.

use vstd::prelude::*;
use vstd::string::StringExecFns;

verus! {

/// Information about the FerricLink runtime environment
#[derive(Debug, PartialEq)]
pub struct RuntimeEnvironment {
    /// Version of the FerricLink Core library
    pub library_version: String,
    /// Name of the library
    pub library: String,
    /// Platform information
    pub platform: String,
    /// Runtime language
    pub runtime: String,
    /// Runtime version
    pub runtime_version: String,
    /// Architecture information
    pub architecture: String,
    /// Operating system information
    pub os: String,
    /// Compiler information
    pub compiler: String,
    /// Target triple
    pub target: String,
    /// Additional environment variables, as key/value pairs
    pub env_vars: Vec<(String, String)>,
    /// Features enabled at compile time
    pub features: Vec<String>,
}

/// Whether some sequence of strings holds one whose characters are `x`.
pub open spec fn contains_string(s: Seq<Seq<char>>, x: Seq<char>) -> bool {
    exists|i: int| 0 <= i < s.len() && s[i] == x
}

impl RuntimeEnvironment {
    /// The summary text of a runtime environment.
    pub open spec fn spec_summary(self) -> Seq<char> {
        "FerricLink "@ + self.library_version@ + " on "@ + self.os@ + " "@
            + self.architecture@ + " ("@ + self.runtime_version@ + ")"@
    }

    /// Get a summary of the runtime environment
    pub fn summary(&self) -> (r: String)
        ensures
            r@ == self.spec_summary(),
    {
        let mut s = String::new();
        s.append("FerricLink ");
        s.append(self.library_version.as_str());
        s.append(" on ");
        s.append(self.os.as_str());
        s.append(" ");
        s.append(self.architecture.as_str());
        s.append(" (");
        s.append(self.runtime_version.as_str());
        s.append(")");
        s
    }

    /// Check if a specific feature is enabled
    pub fn has_feature(&self, feature: &str) -> (r: bool)
        ensures
            r == contains_string(self.features.deep_view(), feature@),
    {
        let needle = String::from_str(feature);
        let n = self.features.len();
        let mut i: usize = 0;
        while i < n
            invariant
                0 <= i <= n,
                n == self.features@.len(),
                needle@ == feature@,
                forall|j: int| 0 <= j < i ==> #[trigger] self.features.deep_view()[j] != feature@,
            decreases n - i,
        {
            proof {
                assert(self.features.deep_view()[i as int] == self.features@[i as int]@);
            }
            if self.features[i] == needle {
                return true;
            }
            i += 1;
        }
        false
    }

    /// Get an environment variable's value: the value of the first recorded
    /// pair with the given key, if any.
    pub fn get_env_var(&self, key: &str) -> (r: Option<&String>)
        ensures
            match r {
                Some(v) => exists|i: int|
                    {
                        &&& 0 <= i < self.env_vars.deep_view().len()
                        &&& #[trigger] self.env_vars.deep_view()[i].0 == key@
                        &&& self.env_vars.deep_view()[i].1 == v@
                        &&& forall|j: int|
                            0 <= j < i ==> #[trigger] self.env_vars.deep_view()[j].0 != key@
                    },
                None => forall|i: int|
                    0 <= i < self.env_vars.deep_view().len()
                        ==> #[trigger] self.env_vars.deep_view()[i].0 != key@,
            },
    {
        let needle = String::from_str(key);
        let n = self.env_vars.len();
        let mut i: usize = 0;
        while i < n
            invariant
                0 <= i <= n,
                n == self.env_vars@.len(),
                needle@ == key@,
                forall|j: int| 0 <= j < i ==> #[trigger] self.env_vars.deep_view()[j].0 != key@,
            decreases n - i,
        {
            proof {
                assert(self.env_vars.deep_view()[i as int]
                    == (self.env_vars@[i as int].0@, self.env_vars@[i as int].1@));
            }
            if self.env_vars[i].0 == needle {
                proof {
                    let ii = i as int;
                    assert(self.env_vars.deep_view()[ii].0 == key@);
                    assert(self.env_vars.deep_view()[ii].1 == self.env_vars@[ii].1@);
                }
                return Some(&self.env_vars[i].1);
            }
            i += 1;
        }
        None
    }
}

/// Memory information about the system
#[derive(Debug, Clone, Copy, PartialEq, Eq, Structural)]
pub struct MemoryInfo {
    /// Total system memory in bytes
    pub total_memory: Option<u64>,
    /// Available memory in bytes
    pub available_memory: Option<u64>,
    /// Memory used by the process in bytes
    pub process_memory: Option<u64>,
}

} // verus!
