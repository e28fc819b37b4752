use vstd::prelude::*;

use crate::error::Error;
use crate::profile::ProfileType;

verus! {

/// Optimizer settings of a profile: whether it runs, its run count, and one
/// toggle per optimization pass.
#[derive(Debug, Clone, Copy, PartialEq, Eq, Structural)]
pub struct Optimizer {
    pub enable: bool,
    pub runs: u32,
    pub yul: bool,
    pub yul_stack: bool,
    pub inliner: bool,
    pub deduplicate: bool,
    pub constant: bool,
    pub remove_jumpdest: bool,
    pub cse: bool,
}

#[derive(Debug, Clone, Copy, PartialEq, Eq, Structural)]
pub struct Profile {
    pub debug: bool,
    pub optimizer: Optimizer,
}

#[derive(Debug, Clone, Copy, PartialEq, Eq, Structural)]
pub struct Profiles {
    pub debug: Profile,
    pub release: Profile,
}

/// The preset used for debug builds: revert strings kept, every pass off.
pub open spec fn debug_preset() -> Profile {
    Profile {
        debug: true,
        optimizer: Optimizer {
            enable: false,
            runs: 0,
            yul: false,
            yul_stack: false,
            inliner: false,
            deduplicate: false,
            constant: false,
            remove_jumpdest: false,
            cse: false,
        },
    }
}

/// The preset used for release builds: every pass on, tuned for 300 runs.
pub open spec fn release_preset() -> Profile {
    Profile {
        debug: false,
        optimizer: Optimizer {
            enable: true,
            runs: 300,
            yul: true,
            yul_stack: true,
            inliner: true,
            deduplicate: true,
            constant: true,
            remove_jumpdest: true,
            cse: true,
        },
    }
}

impl Default for Profiles {
    fn default() -> (r: Profiles)
        ensures
            r.debug == debug_preset(),
            r.release == release_preset(),
    {
        let debug = Profile {
            debug: true,
            optimizer: Optimizer {
                enable: false,
                runs: 0,
                yul: false,
                yul_stack: false,
                inliner: false,
                deduplicate: false,
                constant: false,
                remove_jumpdest: false,
                cse: false,
            },
        };
        let release = Profile {
            debug: false,
            optimizer: Optimizer {
                enable: true,
                runs: 300,
                yul: true,
                yul_stack: true,
                inliner: true,
                deduplicate: true,
                constant: true,
                remove_jumpdest: true,
                cse: true,
            },
        };
        Profiles { debug, release }
    }
}

/// The virtual-machine revision the compiler targets.
#[derive(Debug, Clone, Copy, PartialEq, Eq, Structural)]
pub enum EvmVersion {
    Homestead,
    TangerineWhistle,
    SpuriousDragon,
    Byzantium,
    Constantinople,
    Petersburg,
    Istanbul,
    Berlin,
    London,
    Paris,
}

impl Default for EvmVersion {
    fn default() -> (r: EvmVersion)
        ensures
            r == EvmVersion::Byzantium,
    {
        EvmVersion::Byzantium
    }
}

#[derive(Debug, Clone)]
pub struct Solidity {
    pub version: String,
    pub via_ir: bool,
    pub evm_version: EvmVersion,
    pub profiles: Profiles,
}

#[derive(Debug, Clone)]
pub struct Network {
    pub url: String,
    pub accounts: Vec<String>,
}

/// The typed project configuration.
///
/// `library` binds, per source file, contract names to deployed addresses;
/// `networks` maps network names to their definitions.
#[derive(Debug, Clone)]
pub struct SnapperFile {
    pub solidity: Solidity,
    pub library: Vec<(String, Vec<(String, String)>)>,
    pub networks: Vec<(String, Network)>,
}

/// No two entries of `s` share a key.
pub open spec fn keys_unique<V>(s: Seq<(String, V)>) -> bool {
    forall|i: int, j: int| 0 <= i < j < s.len() ==> s[i].0@ != s[j].0@
}

/// Whether some entry of `s` has key `k`.
pub open spec fn has_key<V>(s: Seq<(String, V)>, k: Seq<char>) -> bool {
    exists|i: int| 0 <= i < s.len() && s[i].0@ == k
}

/// Whether two entries of `s` share a key.
pub fn has_duplicate_key<V>(s: &Vec<(String, V)>) -> (r: bool)
    ensures
        r == !keys_unique(s@),
{
    let n = s.len();
    let mut i: usize = 0;
    while i < n
        invariant
            n == s@.len(),
            i <= n,
            forall|a: int, b: int| 0 <= a < b < n && a < i ==> s@[a].0@ != s@[b].0@,
        decreases n - i,
    {
        let mut j: usize = i + 1;
        while j < n
            invariant
                n == s@.len(),
                i < n,
                i < j <= n,
                forall|a: int, b: int| 0 <= a < b < n && a < i ==> s@[a].0@ != s@[b].0@,
                forall|b: int| i < b < j ==> s@[i as int].0@ != s@[b].0@,
            decreases n - j,
        {
            if s[i].0 == s[j].0 {
                return true;
            }
            j = j + 1;
        }
        i = i + 1;
    }
    false
}

impl SnapperFile {
    /// Library bindings and networks are keyed uniquely.
    pub open spec fn wf(&self) -> bool {
        &&& keys_unique(self.library@)
        &&& forall|i: int| 0 <= i < self.library@.len() ==> keys_unique(#[trigger] self.library@[i].1@)
        &&& keys_unique(self.networks@)
    }

    /// Checks the configuration handed in: `Ok` exactly when it is well formed.
    pub fn validate(&self) -> (r: Result<(), Error>)
        ensures
            r is Ok <==> self.wf(),
            r is Err ==> r == Err::<(), Error>(Error::ConfigError),
    {
        if has_duplicate_key(&self.library) || has_duplicate_key(&self.networks) {
            return Err(Error::ConfigError);
        }
        let n = self.library.len();
        let mut i: usize = 0;
        while i < n
            invariant
                n == self.library@.len(),
                i <= n,
                forall|k: int| 0 <= k < i ==> keys_unique(#[trigger] self.library@[k].1@),
            decreases n - i,
        {
            if has_duplicate_key(&self.library[i].1) {
                return Err(Error::ConfigError);
            }
            i = i + 1;
        }
        Ok(())
    }

    pub open spec fn spec_profile(&self, profile: ProfileType) -> Profile {
        match profile {
            ProfileType::Debug => self.solidity.profiles.debug,
            ProfileType::Release => self.solidity.profiles.release,
        }
    }

    pub fn get_solidity_profile(&self, profile: &ProfileType) -> (r: &Profile)
        ensures
            *r == self.spec_profile(*profile),
    {
        match profile {
            ProfileType::Debug => &self.solidity.profiles.debug,
            ProfileType::Release => &self.solidity.profiles.release,
        }
    }
}

} // verus!
