//! The manifest of available compiler builds, and the decisions that resolve
//! a compiler binary for a version and platform.

use vstd::prelude::*;
use vstd::string::*;

use crate::error::Error;
use crate::output::lookup;
use crate::paths::joined;
use crate::platform::Platform;
use crate::snapper_file::{has_duplicate_key, has_key, keys_unique};
use crate::utils::{binary_name, solc_path};

verus! {

/// Where compiler builds are published.
pub const REGISTER_BASE_URL: &'static str = "https://binaries.soliditylang.org";

/// One compiler build: the mirrors it is downloaded from, in order of
/// preference, and its content and integrity hashes where the manifest gives
/// them.
#[derive(Debug, Clone, PartialEq)]
pub struct Artifact {
    pub urls: Vec<String>,
    pub keccak256: Option<String>,
    pub sha256: Option<String>,
}

/// The manifest of available compiler builds, keyed `{version}-{platform}`,
/// with at most one entry per key.
#[derive(Debug)]
pub struct CompilerVersions {
    builds: Vec<(String, Artifact)>,
}

/// What to do next to have the compiler binary at hand.
#[derive(Debug)]
pub enum ResolveAction {
    /// The binary is at `path`.
    Ready { path: String },
    /// The manifest has to be fetched first.
    FetchManifest,
    /// Download `url` to `path` and mark it executable.
    Download { url: String, path: String },
}

/// The manifest key of a version on a platform.
pub open spec fn build_key(version: Seq<char>, platform: Platform) -> Seq<char> {
    version + seq!['-'] + platform.key()
}

/// The URL a build file of a platform is published at under `base`.
pub open spec fn release_url(base: Seq<char>, platform: Platform, file: Seq<char>) -> Seq<char> {
    base + seq!['/'] + platform.key() + seq!['/'] + file
}

/// A manifest entry as plain values: its key and its mirrors.
pub open spec fn entry_view(e: (String, Artifact)) -> (Seq<char>, Seq<Seq<char>>) {
    (e.0@, e.1.urls@.map_values(|u: String| u@))
}

/// The manifest entries of a platform's release list (version and build file
/// name) published under `base`: one mirror each.
pub open spec fn release_entries(base: Seq<char>, platform: Platform, releases: Seq<(String, String)>) -> Seq<
    (Seq<char>, Seq<Seq<char>>),
> {
    releases.map_values(
        |e: (String, String)| (build_key(e.0@, platform), seq![release_url(base, platform, e.1@)]),
    )
}

/// No two entries of `s` share a key.
pub open spec fn distinct_keys<V>(s: Seq<(Seq<char>, V)>) -> bool {
    forall|i: int, j: int| 0 <= i < j < s.len() ==> s[i].0 != s[j].0
}

impl CompilerVersions {
    pub closed spec fn builds(&self) -> Seq<(String, Artifact)> {
        self.builds@
    }

    pub open spec fn wf(&self) -> bool {
        keys_unique(self.builds())
    }

    /// The artifact of `version` on `platform`, if the manifest lists it.
    pub open spec fn artifact_of(&self, version: Seq<char>, platform: Platform) -> Option<Artifact> {
        lookup(self.builds(), build_key(version, platform))
    }

    /// The manifest with the entries `builds`; `ParseError` when two share
    /// a key.
    pub fn from_builds(builds: Vec<(String, Artifact)>) -> (r: Result<CompilerVersions, Error>)
        ensures
            r is Ok <==> keys_unique(builds@),
            r is Err ==> r == Err::<CompilerVersions, Error>(Error::ParseError),
            r is Ok ==> r->Ok_0.builds() == builds@ && r->Ok_0.wf(),
    {
        if has_duplicate_key(&builds) {
            return Err(Error::ParseError);
        }
        Ok(CompilerVersions { builds })
    }

    fn push_releases(
        builds: &mut Vec<(String, Artifact)>,
        base: &str,
        platform: &Platform,
        releases: &Vec<(String, String)>,
    )
        ensures
            final(builds)@.map_values(|e: (String, Artifact)| entry_view(e)) == old(builds)@.map_values(
                |e: (String, Artifact)| entry_view(e),
            ) + release_entries(base@, *platform, releases@),
            forall|i: int|
                0 <= i < final(builds)@.len() ==> (#[trigger] final(builds)@[i]).1.keccak256 is None
                    && final(builds)@[i].1.sha256 is None || i < old(builds)@.len() && final(builds)@[i]
                    == old(builds)@[i],
    {
        let ghost start = builds@;
        let mut i: usize = 0;
        while i < releases.len()
            invariant
                i <= releases@.len(),
                builds@.len() == start.len() + i,
                forall|k: int| 0 <= k < start.len() ==> builds@[k] == start[k],
                forall|k: int|
                    start.len() <= k < builds@.len() ==> entry_view(#[trigger] builds@[k])
                        == release_entries(base@, *platform, releases@)[k - start.len()]
                        && builds@[k].1.keccak256 is None && builds@[k].1.sha256 is None,
            decreases releases@.len() - i,
        {
            let mut key = releases[i].0.clone();
            key.append("-");
            key.append(platform.to_str());
            let mut url = String::from_str(base);
            url.append("/");
            url.append(platform.to_str());
            url.append("/");
            url.append(&releases[i].1);
            proof {
                reveal_strlit("-");
                reveal_strlit("/");
            }
            assert(url@ == release_url(base@, *platform, releases@[i as int].1@));
            let urls = vec![url];
            assert(urls@.len() == 1 && urls@[0]@ == release_url(base@, *platform, releases@[i as int].1@));
            assert(urls@.map_values(|u: String| u@) =~= seq![
                release_url(base@, *platform, releases@[i as int].1@),
            ]);
            builds.push((key, Artifact { urls, keccak256: None, sha256: None }));
            i = i + 1;
        }
        assert(builds@.map_values(|e: (String, Artifact)| entry_view(e)) =~= start.map_values(
            |e: (String, Artifact)| entry_view(e),
        ) + release_entries(base@, *platform, releases@));
    }

    /// The manifest of the release lists published under `base`, one per
    /// platform: each version maps to the one mirror
    /// `{base}/{platform}/{file}`, without hashes. `ParseError` when two
    /// entries share a key.
    pub fn load_from(
        base: &str,
        linux_amd64: Vec<(String, String)>,
        windows_amd64: Vec<(String, String)>,
        macosx_amd64: Vec<(String, String)>,
    ) -> (r: Result<CompilerVersions, Error>)
        ensures
            ({
                let entries = release_entries(base@, Platform::LinuxAmd64, linux_amd64@)
                    + release_entries(base@, Platform::WindowsAmd64, windows_amd64@)
                    + release_entries(base@, Platform::MacOSAmd64, macosx_amd64@);
                &&& r is Ok <==> distinct_keys(entries)
                &&& r is Err ==> r == Err::<CompilerVersions, Error>(Error::ParseError)
                &&& r is Ok ==> {
                    let v = r->Ok_0;
                    &&& v.wf()
                    &&& v.builds().map_values(|e: (String, Artifact)| entry_view(e)) == entries
                    &&& forall|i: int|
                        0 <= i < v.builds().len() ==> (#[trigger] v.builds()[i]).1.keccak256 is None
                            && v.builds()[i].1.sha256 is None
                }
            }),
    {
        let mut builds: Vec<(String, Artifact)> = Vec::new();
        Self::push_releases(&mut builds, base, &Platform::LinuxAmd64, &linux_amd64);
        Self::push_releases(&mut builds, base, &Platform::WindowsAmd64, &windows_amd64);
        Self::push_releases(&mut builds, base, &Platform::MacOSAmd64, &macosx_amd64);
        let ghost entries = builds@.map_values(|e: (String, Artifact)| entry_view(e));
        assert(Seq::<(String, Artifact)>::empty().map_values(|e: (String, Artifact)| entry_view(e))
            =~= Seq::<(Seq<char>, Seq<Seq<char>>)>::empty());
        assert(entries =~= release_entries(base@, Platform::LinuxAmd64, linux_amd64@)
            + release_entries(base@, Platform::WindowsAmd64, windows_amd64@)
            + release_entries(base@, Platform::MacOSAmd64, macosx_amd64@));
        assert(keys_unique(builds@) <==> distinct_keys(entries)) by {
            assert forall|i: int, j: int| 0 <= i < j < builds@.len() implies
                (builds@[i].0@ != builds@[j].0@) == (entries[i].0 != entries[j].0) by {}
            if !keys_unique(builds@) {
                let (i, j) = choose|i: int, j: int| 0 <= i < j < builds@.len() && builds@[i].0@ == builds@[j].0@;
                assert(entries[i].0 == entries[j].0);
            }
            if !distinct_keys(entries) {
                let (i, j) = choose|i: int, j: int| 0 <= i < j < entries.len() && entries[i].0 == entries[j].0;
                assert(builds@[i].0@ == builds@[j].0@);
            }
        }
        Self::from_builds(builds)
    }

    /// The manifest of the release lists published under `REGISTER_BASE_URL`.
    pub fn load(
        linux_amd64: Vec<(String, String)>,
        windows_amd64: Vec<(String, String)>,
        macosx_amd64: Vec<(String, String)>,
    ) -> (r: Result<CompilerVersions, Error>)
        ensures
            ({
                let entries = release_entries(REGISTER_BASE_URL@, Platform::LinuxAmd64, linux_amd64@)
                    + release_entries(REGISTER_BASE_URL@, Platform::WindowsAmd64, windows_amd64@)
                    + release_entries(REGISTER_BASE_URL@, Platform::MacOSAmd64, macosx_amd64@);
                &&& r is Ok <==> distinct_keys(entries)
                &&& r is Err ==> r == Err::<CompilerVersions, Error>(Error::ParseError)
                &&& r is Ok ==> r->Ok_0.wf() && r->Ok_0.builds().map_values(
                    |e: (String, Artifact)| entry_view(e),
                ) == entries
            }),
    {
        Self::load_from(REGISTER_BASE_URL, linux_amd64, windows_amd64, macosx_amd64)
    }

    /// The URL of the release list of `platform` under `base`.
    pub fn list_url(base: &str, platform: &Platform) -> (r: String)
        ensures
            r@ == base@ + seq!['/'] + platform.key() + "/list.json"@,
    {
        let mut url = String::from_str(base);
        url.append("/");
        url.append(platform.to_str());
        url.append("/list.json");
        proof {
            reveal_strlit("/");
        }
        url
    }

    /// The artifact of `version` on `platform`, or `VersionNotFound`.
    pub fn resolve(&self, version: &str, platform: &Platform) -> (r: Result<&Artifact, Error>)
        ensures
            match self.artifact_of(version@, *platform) {
                Some(a) => r is Ok && *r->Ok_0 == a,
                None => r == Err::<&Artifact, Error>(Error::VersionNotFound),
            },
    {
        let mut key = String::from_str(version);
        key.append("-");
        key.append(platform.to_str());
        proof {
            reveal_strlit("-");
        }
        let builds = &self.builds;
        let n = builds.len();
        let mut i: usize = 0;
        assert(builds@.subrange(0, n as int) =~= builds@);
        while i < n
            invariant
                builds@ == self.builds(),
                key@ == build_key(version@, *platform),
                n == builds@.len(),
                i <= n,
                lookup(builds@, key@) == lookup(builds@.subrange(i as int, n as int), key@),
            decreases n - i,
        {
            assert(builds@.subrange(i as int, n as int).drop_first() =~= builds@.subrange(i + 1, n as int));
            assert(builds@.subrange(i as int, n as int)[0] == builds@[i as int]);
            if builds[i].0 == key {
                return Ok(&builds[i].1);
            }
            i = i + 1;
        }
        Err(Error::VersionNotFound)
    }
}

/// Every version and platform that a well-formed manifest lists resolves to
/// exactly one artifact of it; one that it does not list resolves to none.
pub proof fn lemma_resolve_exactly_one(v: CompilerVersions, version: Seq<char>, platform: Platform)
    requires
        v.wf(),
    ensures
        has_key(v.builds(), build_key(version, platform)) ==> {
            &&& v.artifact_of(version, platform) is Some
            &&& exists|i: int|
                {
                    &&& 0 <= i < v.builds().len()
                    &&& v.builds()[i].0@ == build_key(version, platform)
                    &&& v.artifact_of(version, platform) == Some(v.builds()[i].1)
                    &&& forall|j: int|
                        0 <= j < v.builds().len() && #[trigger] v.builds()[j].0@ == build_key(
                            version,
                            platform,
                        ) ==> j == i
                }
        },
        !has_key(v.builds(), build_key(version, platform)) ==> v.artifact_of(version, platform) is None,
{
    lemma_lookup_first(v.builds(), build_key(version, platform));
}

/// `lookup` finds the first entry with the key, and nothing when no entry
/// has it.
pub proof fn lemma_lookup_first<V>(s: Seq<(String, V)>, k: Seq<char>)
    ensures
        !has_key(s, k) ==> lookup(s, k) is None,
        has_key(s, k) ==> exists|i: int|
            {
                &&& 0 <= i < s.len()
                &&& s[i].0@ == k
                &&& lookup(s, k) == Some(s[i].1)
                &&& forall|j: int| 0 <= j < i ==> s[j].0@ != k
            },
    decreases s.len(),
{
    if s.len() > 0 {
        lemma_lookup_first(s.drop_first(), k);
        if s[0].0@ != k {
            if has_key(s, k) {
                let i = choose|i: int| 0 <= i < s.len() && s[i].0@ == k;
                assert(s.drop_first()[i - 1].0@ == k);
                let i2 = choose|i2: int|
                    {
                        &&& 0 <= i2 < s.drop_first().len()
                        &&& s.drop_first()[i2].0@ == k
                        &&& lookup(s.drop_first(), k) == Some(s.drop_first()[i2].1)
                        &&& forall|j: int| 0 <= j < i2 ==> s.drop_first()[j].0@ != k
                    };
                assert(s[i2 + 1] == s.drop_first()[i2]);
                assert forall|j: int| 0 <= j < i2 + 1 implies s[j].0@ != k by {
                    if j > 0 {
                        assert(s[j] == s.drop_first()[j - 1]);
                    }
                }
            } else {
                assert forall|i: int| 0 <= i < s.drop_first().len() implies s.drop_first()[i].0@ != k by {
                    assert(s.drop_first()[i] == s[i + 1]);
                }
            }
        }
    }
}

/// Decides the next step of resolving the compiler binary of `version` for
/// `platform`, cached under `bin_dir`. `manifest` is the manifest fetched in
/// this session, if any, and `cached` whether the binary is already on disk.
///
/// A cached binary is used as it is: no manifest fetch and no download. A
/// build is downloaded from the first of its mirrors.
pub fn resolve_step(
    manifest: &Option<CompilerVersions>,
    bin_dir: &str,
    version: &str,
    platform: &Platform,
    cached: bool,
) -> (r: Result<ResolveAction, Error>)
    ensures
        ({
            let path = joined(bin_dir@, binary_name(version@));
            if cached {
                r matches Ok(ResolveAction::Ready { path: p }) && p@ == path
            } else {
                match manifest {
                    None => r matches Ok(ResolveAction::FetchManifest),
                    Some(m) => match m.artifact_of(version@, *platform) {
                        None => r == Err::<ResolveAction, Error>(Error::VersionNotFound),
                        Some(a) => if a.urls@.len() == 0 {
                            r == Err::<ResolveAction, Error>(Error::NetworkError)
                        } else {
                            r matches Ok(ResolveAction::Download { url: u, path: p }) && u@
                                == a.urls@[0]@ && p@ == path
                        },
                    },
                }
            }
        }),
{
    let path = solc_path(bin_dir, version);
    if cached {
        return Ok(ResolveAction::Ready { path });
    }
    match manifest {
        None => Ok(ResolveAction::FetchManifest),
        Some(m) => {
            let artifact = m.resolve(version, platform)?;
            if artifact.urls.len() == 0 {
                return Err(Error::NetworkError);
            }
            let url = artifact.urls[0].clone();
            Ok(ResolveAction::Download { url, path })
        },
    }
}

} // verus!
