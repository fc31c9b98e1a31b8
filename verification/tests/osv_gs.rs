use osv::osv_gs::{osv_archive_url, osv_modified_id_csv_url, osv_record_url};
use osv::{EcosystemParseError, OsvGsEcosystem, OsvGsEcosystems};

const ALL: &[(OsvGsEcosystem, &str)] = &[
    (OsvGsEcosystem::AlmaLinux, "AlmaLinux"),
    (OsvGsEcosystem::Alpaquita, "Alpaquita"),
    (OsvGsEcosystem::Alpine, "Alpine"),
    (OsvGsEcosystem::Android, "Android"),
    (OsvGsEcosystem::BellSoftHardenedContainers, "BellSoft Hardened Containers"),
    (OsvGsEcosystem::Bitnami, "Bitnami"),
    (OsvGsEcosystem::Cran, "CRAN"),
    (OsvGsEcosystem::Chainguard, "Chainguard"),
    (OsvGsEcosystem::CleanStart, "CleanStart"),
    (OsvGsEcosystem::Debian, "Debian"),
    (OsvGsEcosystem::Echo, "Echo"),
    (OsvGsEcosystem::Ghc, "GHC"),
    (OsvGsEcosystem::Git, "GIT"),
    (OsvGsEcosystem::Gsd, "GSD"),
    (OsvGsEcosystem::GitHubActions, "GitHub Actions"),
    (OsvGsEcosystem::Go, "Go"),
    (OsvGsEcosystem::Hackage, "Hackage"),
    (OsvGsEcosystem::Hex, "Hex"),
    (OsvGsEcosystem::Julia, "Julia"),
    (OsvGsEcosystem::Linux, "Linux"),
    (OsvGsEcosystem::Mageia, "Mageia"),
    (OsvGsEcosystem::Maven, "Maven"),
    (OsvGsEcosystem::MinimOS, "MinimOS"),
    (OsvGsEcosystem::NuGet, "NuGet"),
    (OsvGsEcosystem::OssFuzz, "OSS-Fuzz"),
    (OsvGsEcosystem::Packagist, "Packagist"),
    (OsvGsEcosystem::Pub, "Pub"),
    (OsvGsEcosystem::PyPI, "PyPI"),
    (OsvGsEcosystem::RedHat, "Red Hat"),
    (OsvGsEcosystem::RockyLinux, "Rocky Linux"),
    (OsvGsEcosystem::Root, "Root"),
    (OsvGsEcosystem::RubyGems, "RubyGems"),
    (OsvGsEcosystem::Suse, "SUSE"),
    (OsvGsEcosystem::SwiftURL, "SwiftURL"),
    (OsvGsEcosystem::Uvi, "UVI"),
    (OsvGsEcosystem::Ubuntu, "Ubuntu"),
    (OsvGsEcosystem::VSCode, "VSCode"),
    (OsvGsEcosystem::Wolfi, "Wolfi"),
    (OsvGsEcosystem::CratesIo, "crates.io"),
    (OsvGsEcosystem::Npm, "npm"),
    (OsvGsEcosystem::Opam, "opam"),
    (OsvGsEcosystem::OpenEuler, "openEuler"),
    (OsvGsEcosystem::OpenSUSE, "openSUSE"),
];

#[test]
fn osv_gs_ecosystems_display() {
    assert_eq!(OsvGsEcosystems::all().to_string(), "all");
    assert_eq!(OsvGsEcosystems::all().add(OsvGsEcosystem::Go).to_string(), "[Go]");
    assert_eq!(
        OsvGsEcosystems::all()
            .add(OsvGsEcosystem::CratesIo)
            .add(OsvGsEcosystem::Npm)
            .to_string(),
        "[crates.io,npm]"
    );
}

#[test]
fn gs_ecosystem_names_roundtrip() {
    assert_eq!(ALL.len(), 43);
    for &(e, name) in ALL {
        assert_eq!(e.as_str(), name);
        assert_eq!(name.parse::<OsvGsEcosystem>(), Ok(e));
    }
    assert_eq!(
        OsvGsEcosystem::from_name("Azure Linux"),
        Err(EcosystemParseError::VariantNotFound)
    );
}

#[test]
fn empty_set_means_all() {
    let all = OsvGsEcosystems::all();
    assert!(all.is_all());
    assert!(all.iter().is_empty());
    assert_eq!(OsvGsEcosystems::default(), all);
    let some = all.add(OsvGsEcosystem::PyPI);
    assert!(!some.is_all());
    assert_eq!(some.iter(), vec![OsvGsEcosystem::PyPI]);
}

#[test]
fn adding_twice_selects_once() {
    let set = OsvGsEcosystems::all()
        .add(OsvGsEcosystem::CratesIo)
        .add(OsvGsEcosystem::Julia)
        .add(OsvGsEcosystem::CratesIo);
    assert_eq!(set.iter(), vec![OsvGsEcosystem::CratesIo, OsvGsEcosystem::Julia]);
    assert!(set.contains(OsvGsEcosystem::Julia));
    assert!(!set.contains(OsvGsEcosystem::Go));
}

#[test]
fn sets_compare_regardless_of_order() {
    let a = OsvGsEcosystems::all().add(OsvGsEcosystem::Go).add(OsvGsEcosystem::Npm);
    let b = OsvGsEcosystems::all().add(OsvGsEcosystem::Npm).add(OsvGsEcosystem::Go);
    let c = OsvGsEcosystems::all().add(OsvGsEcosystem::Npm);
    assert_eq!(a, b);
    assert_ne!(a, c);
    assert_ne!(c, OsvGsEcosystems::all());
    assert_eq!(a.clone(), a);
}

#[test]
fn bucket_urls() {
    assert_eq!(
        osv_archive_url(None),
        "https://storage.googleapis.com/osv-vulnerabilities/all.zip"
    );
    assert_eq!(
        osv_archive_url(Some(OsvGsEcosystem::CratesIo)),
        "https://storage.googleapis.com/osv-vulnerabilities/crates.io/all.zip"
    );
    assert_eq!(
        osv_modified_id_csv_url(None),
        "https://storage.googleapis.com/osv-vulnerabilities/modified_id.csv"
    );
    assert_eq!(
        osv_modified_id_csv_url(Some(OsvGsEcosystem::RedHat)),
        "https://storage.googleapis.com/osv-vulnerabilities/Red Hat/modified_id.csv"
    );
    assert_eq!(
        osv_record_url(OsvGsEcosystem::Julia, "JLSEC-2025-329"),
        "https://storage.googleapis.com/osv-vulnerabilities/Julia/JLSEC-2025-329.json"
    );
}
