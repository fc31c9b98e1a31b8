use osv::{Manifest, ManifestPackage, PackageError};

fn pkg(name: &str, version: &str, ecosystem: &str) -> ManifestPackage {
    ManifestPackage {
        name: name.to_owned(),
        version: version.to_owned(),
        ecosystem: ecosystem.parse().unwrap(),
    }
}

#[test]
fn iter_yields_every_package_in_order() {
    let items = vec![
        Ok(pkg("async-trait", "0.1.89", "crates.io")),
        Err(PackageError::Extraction("unreadable".to_string())),
        Ok(pkg("zstd-sys", "2.0.16+zstd.1.5.7", "crates.io")),
    ];
    let manifest = Manifest::new(items.clone());
    assert_eq!(manifest.len(), 3);
    assert!(!manifest.is_empty());
    let mut it = manifest.iter();
    let mut seen = Vec::new();
    while let Some(item) = it.next() {
        seen.push(item);
    }
    assert_eq!(seen, items);
    assert_eq!(it.next(), None);
}

#[test]
fn empty_manifest() {
    let manifest = Manifest::new(vec![]);
    assert_eq!(manifest.len(), 0);
    assert!(manifest.is_empty());
    assert_eq!(manifest.iter().next(), None);
}
