use mocha::artifact::Artifact;
use mocha::error::Error;
use mocha::package::{Manifest, Package};

fn owned(items: &[&str]) -> Vec<String> {
    items.iter().map(|s| s.to_string()).collect()
}

fn full_manifest() -> Manifest {
    Manifest {
        source: "https://example/repo".to_string(),
        dependencies: owned(&["libc", "zlib"]),
        features: owned(&["tls", "cli"]),
        artifacts: vec![
            Artifact::Bin { name: "foo".to_string(), rename_to: Some("bar".to_string()) },
            Artifact::Bin { name: "baz".to_string(), rename_to: None },
            Artifact::Sym { name: "cc".to_string(), points_to: "gcc".to_string() },
        ],
        beta_artifacts: vec![("lib zstd".to_string(), owned(&["lib/a.c"]))],
    }
}

#[test]
fn package_keeps_every_field() {
    let package = Package::new("demo".to_string(), full_manifest()).unwrap();
    let manifest = full_manifest();
    assert_eq!(package.name(), "demo");
    assert_eq!(package.source(), manifest.source);
    assert_eq!(package.dependencies(), manifest.dependencies);
    assert_eq!(package.features(), manifest.features);
    assert_eq!(package.artifacts(), manifest.artifacts);
    assert_eq!(package.beta_artifacts(), manifest.beta_artifacts);
}

#[test]
fn package_needs_a_name() {
    assert!(Package::new(String::new(), full_manifest()).is_none());
    assert!(Package::new("x".to_string(), full_manifest()).is_some());
}

#[test]
fn manifest_without_optional_fields_has_them_empty() {
    let manifest = Manifest::new(
        "https://example/repo".to_string(),
        owned(&["libc"]),
        vec![Artifact::Bin { name: "tool".to_string(), rename_to: None }],
    );
    assert_eq!(manifest.source, "https://example/repo");
    assert_eq!(manifest.dependencies, owned(&["libc"]));
    assert_eq!(manifest.artifacts, vec![Artifact::Bin { name: "tool".to_string(), rename_to: None }]);
    assert!(manifest.features.is_empty());
    assert!(manifest.beta_artifacts.is_empty());
}

#[test]
fn from_path_names_the_package_by_the_file_stem() {
    let loaded = Package::from_path("/etc/mocha/ripgrep.yaml", "text", Ok(full_manifest()));
    let package = loaded.unwrap().unwrap();
    assert_eq!(package.name(), "ripgrep");
    assert_eq!(package.source(), "https://example/repo");
    assert_eq!(package.dependencies(), owned(&["libc", "zlib"]));
    assert_eq!(package.features(), owned(&["tls", "cli"]));
    assert_eq!(package.artifacts(), full_manifest().artifacts);
    assert_eq!(package.beta_artifacts(), full_manifest().beta_artifacts);
}

#[test]
fn from_path_takes_the_stem_not_the_path() {
    let relative = Package::from_path("specs/zstd.spec.yml", "", Ok(full_manifest()));
    assert_eq!(relative.unwrap().unwrap().name(), "zstd.spec");
    let bare = Package::from_path("fd", "", Ok(full_manifest()));
    assert_eq!(bare.unwrap().unwrap().name(), "fd");
    let hidden = Package::from_path("dir/.hidden", "", Ok(full_manifest()));
    assert_eq!(hidden.unwrap().unwrap().name(), ".hidden");
}

#[test]
fn from_path_reports_undecodable_text() {
    let loaded = Package::from_path(
        "manifests/broken.yaml",
        "source: [",
        Err("did not find expected node content".to_string()),
    );
    assert_eq!(
        loaded.unwrap().unwrap_err(),
        Error::SpecParse {
            name: "broken".to_string(),
            content: "source: [".to_string(),
            cause: "did not find expected node content".to_string(),
        }
    );
}

#[test]
fn from_path_without_a_file_stem_gives_nothing() {
    assert!(Package::from_path("/", "", Ok(full_manifest())).is_none());
    assert!(Package::from_path("", "", Ok(full_manifest())).is_none());
    assert!(Package::from_path("dir/..", "", Ok(full_manifest())).is_none());
    assert!(Package::from_path("..", "", Err("bad".to_string())).is_none());
}

#[test]
fn deserialize_spec_keeps_name_text_and_cause() {
    assert_eq!(
        Error::deserialize_spec("pkg", "a: b", "missing field `source`".to_string()),
        Error::SpecParse {
            name: "pkg".to_string(),
            content: "a: b".to_string(),
            cause: "missing field `source`".to_string(),
        }
    );
}

#[test]
fn installed_name_prefers_the_new_name() {
    let renamed = Artifact::Bin { name: "foo".to_string(), rename_to: Some("bar".to_string()) };
    let plain = Artifact::Bin { name: "foo".to_string(), rename_to: None };
    let link = Artifact::Sym { name: "cc".to_string(), points_to: "gcc".to_string() };
    assert_eq!(renamed.installed_name(), "bar");
    assert_eq!(plain.installed_name(), "foo");
    assert_eq!(link.installed_name(), "cc");
}
