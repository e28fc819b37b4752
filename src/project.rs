//! A project as the build sees it: its configuration and where its files go.

use vstd::prelude::*;
use vstd::string::*;

use crate::paths::{join_path, joined};
use crate::platform::Platform;
use crate::snapper_file::SnapperFile;
use crate::utils::{binary_name, solc_path};

verus! {

pub struct SnapperPackage {
    config: SnapperFile,
    snapper_outdir: String,
    package_dir: String,
    contracts: String,
    platform: Platform,
}

impl SnapperPackage {
    pub closed spec fn spec_config(&self) -> SnapperFile {
        self.config
    }

    pub closed spec fn spec_outdir(&self) -> Seq<char> {
        self.snapper_outdir@
    }

    pub closed spec fn spec_package_dir(&self) -> Seq<char> {
        self.package_dir@
    }

    pub closed spec fn spec_contracts(&self) -> Seq<char> {
        self.contracts@
    }

    pub closed spec fn spec_platform(&self) -> Platform {
        self.platform
    }

    /// The package in `package_dir` configured by `config`, built under
    /// `target_path` on `platform`; its sources are in the subdirectory
    /// `contracts`.
    pub fn new(
        config: SnapperFile,
        target_path: &str,
        package_dir: &str,
        contracts: &str,
        platform: Platform,
    ) -> (r: SnapperPackage)
        ensures
            r.spec_config() == config,
            r.spec_outdir() == joined(target_path@, "snapper"@),
            r.spec_package_dir() == package_dir@,
            r.spec_contracts() == contracts@,
            r.spec_platform() == platform,
    {
        SnapperPackage {
            config,
            snapper_outdir: join_path(target_path, "snapper"),
            package_dir: String::from_str(package_dir),
            contracts: String::from_str(contracts),
            platform,
        }
    }

    /// Config of the package.
    pub fn config(&self) -> (r: &SnapperFile)
        ensures
            *r == self.spec_config(),
    {
        &self.config
    }

    /// Output directory of the package.
    pub fn outdir(&self) -> (r: &String)
        ensures
            r@ == self.spec_outdir(),
    {
        &self.snapper_outdir
    }

    /// The directory of the package's contract sources.
    pub fn contracts_dir(&self) -> (r: String)
        ensures
            r@ == joined(self.spec_package_dir(), self.spec_contracts()),
    {
        join_path(&self.package_dir, &self.contracts)
    }

    /// The directory compiler binaries are cached in.
    pub fn bin_dir(&self) -> (r: String)
        ensures
            r@ == joined(self.spec_outdir(), "bin"@),
    {
        join_path(&self.snapper_outdir, "bin")
    }

    /// The cached compiler binary of the configured version.
    pub fn solc_path(&self) -> (r: String)
        ensures
            r@ == joined(joined(self.spec_outdir(), "bin"@), binary_name(self.spec_config().solidity.version@)),
    {
        solc_path(&self.bin_dir(), &self.config.solidity.version)
    }
}

} // verus!
