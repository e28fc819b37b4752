//! The settings of a build script run: where the configuration, the sources
//! and the compiler binaries are, and which profile applies.

use vstd::prelude::*;
use vstd::string::*;

use crate::error::Error;
use crate::paths::{join_path, joined};
use crate::profile::ProfileType;
use crate::snapper_file::SnapperFile;

verus! {

/// The view of an optional path: its characters, if set.
pub open spec fn opt_view(p: Option<String>) -> Option<Seq<char>> {
    match p {
        Some(s) => Some(s@),
        None => None,
    }
}

#[derive(Debug)]
pub struct Builder {
    snapper_path: Option<String>,
    contract_path: Option<String>,
    bin_path: Option<String>,
    profile_type: Option<ProfileType>,
}

impl Default for Builder {
    fn default() -> (r: Builder)
        ensures
            r.spec_snapper_path() is None,
            r.spec_contract_path() is None,
            r.spec_bin_path() is None,
            r.spec_profile_type() is None,
    {
        Builder { snapper_path: None, contract_path: None, bin_path: None, profile_type: None }
    }
}

impl Builder {
    pub closed spec fn spec_snapper_path(&self) -> Option<Seq<char>> {
        opt_view(self.snapper_path)
    }

    pub closed spec fn spec_contract_path(&self) -> Option<Seq<char>> {
        opt_view(self.contract_path)
    }

    pub closed spec fn spec_bin_path(&self) -> Option<Seq<char>> {
        opt_view(self.bin_path)
    }

    pub closed spec fn spec_profile_type(&self) -> Option<ProfileType> {
        self.profile_type
    }

    /// Sets the configuration file.
    pub fn snapper_path(&mut self, p: &str)
        ensures
            final(self).spec_snapper_path() == Some(p@),
            final(self).spec_contract_path() == old(self).spec_contract_path(),
            final(self).spec_bin_path() == old(self).spec_bin_path(),
            final(self).spec_profile_type() == old(self).spec_profile_type(),
    {
        self.snapper_path = Some(String::from_str(p));
    }

    /// Sets the directory of contract sources.
    pub fn contract_path(&mut self, p: &str)
        ensures
            final(self).spec_contract_path() == Some(p@),
            final(self).spec_snapper_path() == old(self).spec_snapper_path(),
            final(self).spec_bin_path() == old(self).spec_bin_path(),
            final(self).spec_profile_type() == old(self).spec_profile_type(),
    {
        self.contract_path = Some(String::from_str(p));
    }

    /// Sets the directory compiler binaries are cached in.
    pub fn bin_path(&mut self, p: &str)
        ensures
            final(self).spec_bin_path() == Some(p@),
            final(self).spec_snapper_path() == old(self).spec_snapper_path(),
            final(self).spec_contract_path() == old(self).spec_contract_path(),
            final(self).spec_profile_type() == old(self).spec_profile_type(),
    {
        self.bin_path = Some(String::from_str(p));
    }

    /// The configuration file: the one set, else `Snapper.toml`.
    pub fn config_file(&self) -> (r: String)
        ensures
            r@ == match self.spec_snapper_path() {
                Some(p) => p,
                None => "Snapper.toml"@,
            },
    {
        match &self.snapper_path {
            Some(p) => p.clone(),
            None => String::from_str("Snapper.toml"),
        }
    }

    /// The directory of contract sources: the one set, else `contracts`.
    pub fn contracts_dir(&self) -> (r: String)
        ensures
            r@ == match self.spec_contract_path() {
                Some(p) => p,
                None => "contracts"@,
            },
    {
        match &self.contract_path {
            Some(p) => p.clone(),
            None => String::from_str("contracts"),
        }
    }

    /// The directory compiler binaries are cached in: the one set, else
    /// `bin` under the build's output directory `out_dir`.
    pub fn bins_dir(&self, out_dir: &str) -> (r: String)
        ensures
            r@ == match self.spec_bin_path() {
                Some(p) => p,
                None => joined(out_dir@, "bin"@),
            },
    {
        match &self.bin_path {
            Some(p) => p.clone(),
            None => join_path(out_dir, "bin"),
        }
    }

    /// The profile to build with: the one set, else the one the build mode
    /// `mode` names.
    pub fn profile(&self, mode: &str) -> (r: Result<ProfileType, Error>)
        ensures
            r == match self.spec_profile_type() {
                Some(p) => Ok(p),
                None => ProfileType::spec_parse(mode@),
            },
    {
        match self.profile_type {
            Some(p) => Ok(p),
            None => ProfileType::parse(mode),
        }
    }

    /// The artifact directory of the package `package_name` under the build's
    /// output directory `out_dir`.
    pub fn artifacts_dir(out_dir: &str, package_name: &str) -> (r: String)
        ensures
            r@ == joined(joined(joined(out_dir@, "snapper"@), "artifacts"@), package_name@),
    {
        let d = join_path(out_dir, "snapper");
        let d = join_path(&d, "artifacts");
        join_path(&d, package_name)
    }
}

/// A compiler binary and the project configuration it compiles with.
pub struct Solc {
    pub snapper: SnapperFile,
    solc_path: String,
}

impl Solc {
    pub closed spec fn spec_solc_path(&self) -> Seq<char> {
        self.solc_path@
    }

    pub closed spec fn spec_snapper(&self) -> SnapperFile {
        self.snapper
    }

    pub fn new(snapper: SnapperFile, solc_path: &str) -> (r: Solc)
        ensures
            r.spec_snapper() == snapper,
            r.spec_solc_path() == solc_path@,
    {
        Solc { snapper, solc_path: String::from_str(solc_path) }
    }

    /// The compiler binary.
    pub fn solc_path(&self) -> (r: &String)
        ensures
            r@ == self.spec_solc_path(),
    {
        &self.solc_path
    }
}

} // verus!
