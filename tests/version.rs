use snapper::version::{resolve_step, REGISTER_BASE_URL};
use snapper::{Artifact, CompilerVersions, Error, Platform, ResolveAction};

fn pair(a: &str, b: &str) -> (String, String) {
    (a.to_string(), b.to_string())
}

fn sample() -> CompilerVersions {
    CompilerVersions::load_from(
        "https://example.org",
        vec![
            pair("0.8.17", "solc-linux-amd64-v0.8.17+commit.8df45f5f"),
            pair("0.8.18", "solc-linux-amd64-v0.8.18+commit.87f61d96"),
        ],
        vec![pair("0.8.17", "solc-windows-amd64-v0.8.17+commit.8df45f5f.exe")],
        vec![],
    )
    .unwrap()
}

fn artifact(urls: &[&str]) -> Artifact {
    Artifact {
        urls: urls.iter().map(|u| u.to_string()).collect(),
        keccak256: Some("0xabc".to_string()),
        sha256: Some("0xdef".to_string()),
    }
}

#[test]
fn test_load() {
    let versions = CompilerVersions::load(
        vec![pair("0.8.17", "solc-linux-amd64-v0.8.17+commit.8df45f5f")],
        vec![pair("0.8.17", "solc-windows-amd64-v0.8.17+commit.8df45f5f.exe")],
        vec![pair("0.8.17", "solc-macosx-amd64-v0.8.17+commit.8df45f5f")],
    )
    .unwrap();

    println!("{:?}", versions);
}

#[test]
fn load_uses_the_default_base() {
    let versions =
        CompilerVersions::load(vec![pair("0.8.17", "solc-linux")], vec![], vec![]).unwrap();
    let a = versions.resolve("0.8.17", &Platform::LinuxAmd64).unwrap();
    assert_eq!(a.urls, vec![format!("{}/linux-amd64/solc-linux", REGISTER_BASE_URL)]);
    assert_eq!(a.keccak256, None);
    assert_eq!(a.sha256, None);
}

#[test]
fn duplicate_versions_are_rejected() {
    let r = CompilerVersions::load_from(
        "https://example.org",
        vec![pair("0.8.17", "a"), pair("0.8.17", "b")],
        vec![],
        vec![],
    );
    assert!(matches!(r, Err(Error::ParseError)));
    let r = CompilerVersions::from_builds(vec![
        ("0.8.17-linux-amd64".to_string(), artifact(&["a"])),
        ("0.8.17-linux-amd64".to_string(), artifact(&["b"])),
    ]);
    assert!(matches!(r, Err(Error::ParseError)));
}

#[test]
fn present_pairs_resolve_to_their_artifact() {
    let v = sample();
    assert_eq!(
        v.resolve("0.8.18", &Platform::LinuxAmd64).unwrap().urls,
        vec!["https://example.org/linux-amd64/solc-linux-amd64-v0.8.18+commit.87f61d96".to_string()]
    );
    assert_eq!(
        v.resolve("0.8.17", &Platform::WindowsAmd64).unwrap().urls,
        vec!["https://example.org/windows-amd64/solc-windows-amd64-v0.8.17+commit.8df45f5f.exe"
            .to_string()]
    );
    let m = CompilerVersions::from_builds(vec![
        ("0.8.20-macos-amd64".to_string(), artifact(&["https://a", "https://b"])),
        ("0.8.20-linux-amd64".to_string(), artifact(&["https://c"])),
    ])
    .unwrap();
    assert_eq!(m.resolve("0.8.20", &Platform::MacOSAmd64), Ok(&artifact(&["https://a", "https://b"])));
}

#[test]
fn absent_pairs_are_version_not_found() {
    let v = sample();
    assert_eq!(v.resolve("0.8.18", &Platform::WindowsAmd64), Err(Error::VersionNotFound));
    assert_eq!(v.resolve("0.8.17", &Platform::MacOSAmd64), Err(Error::VersionNotFound));
    assert_eq!(v.resolve("0.8.1", &Platform::LinuxAmd64), Err(Error::VersionNotFound));
    assert_eq!(v.resolve("", &Platform::LinuxAmd64), Err(Error::VersionNotFound));
}

#[test]
fn list_url_per_platform() {
    assert_eq!(
        CompilerVersions::list_url("https://binaries.soliditylang.org", &Platform::MacOSAmd64),
        "https://binaries.soliditylang.org/macos-amd64/list.json"
    );
}

#[test]
fn cached_binary_needs_no_network() {
    let r = resolve_step(&None, "target/bin", "0.8.17", &Platform::LinuxAmd64, true);
    match r {
        Ok(ResolveAction::Ready { path }) => assert_eq!(path, "target/bin/solc-v0.8.17"),
        other => panic!("unexpected {:?}", other),
    }
    let m = Some(sample());
    let r = resolve_step(&m, "target/bin", "9.9.9", &Platform::LinuxAmd64, true);
    assert!(matches!(r, Ok(ResolveAction::Ready { .. })));
}

#[test]
fn missing_binary_fetches_manifest_then_downloads() {
    let r = resolve_step(&None, "bin/", "0.8.17", &Platform::LinuxAmd64, false);
    assert!(matches!(r, Ok(ResolveAction::FetchManifest)));
    let m = Some(sample());
    let r = resolve_step(&m, "bin/", "0.8.17", &Platform::LinuxAmd64, false);
    match r {
        Ok(ResolveAction::Download { url, path }) => {
            assert_eq!(
                url,
                "https://example.org/linux-amd64/solc-linux-amd64-v0.8.17+commit.8df45f5f"
            );
            assert_eq!(path, "bin/solc-v0.8.17");
        }
        other => panic!("unexpected {:?}", other),
    }
    let r = resolve_step(&m, "bin", "0.8.17", &Platform::MacOSAmd64, false);
    assert!(matches!(r, Err(Error::VersionNotFound)));
}

#[test]
fn download_takes_the_first_mirror() {
    let m = Some(
        CompilerVersions::from_builds(vec![
            ("0.8.20-linux-amd64".to_string(), artifact(&["https://first", "https://second"])),
            ("0.8.21-linux-amd64".to_string(), artifact(&[])),
        ])
        .unwrap(),
    );
    match resolve_step(&m, "bin", "0.8.20", &Platform::LinuxAmd64, false) {
        Ok(ResolveAction::Download { url, .. }) => assert_eq!(url, "https://first"),
        other => panic!("unexpected {:?}", other),
    }
    let r = resolve_step(&m, "bin", "0.8.21", &Platform::LinuxAmd64, false);
    assert!(matches!(r, Err(Error::NetworkError)));
}
