use osv::ecosystem::Ecosystem;
use osv::{EcosystemParseError, EcosystemWithSuffix};

const ALL: &[(Ecosystem, &str)] = &[
    (Ecosystem::AlmaLinux, "AlmaLinux"),
    (Ecosystem::Alpaquita, "Alpaquita"),
    (Ecosystem::Alpine, "Alpine"),
    (Ecosystem::Android, "Android"),
    (Ecosystem::AzureLinux, "Azure Linux"),
    (Ecosystem::BellSoftHardenedContainers, "BellSoft Hardened Containers"),
    (Ecosystem::Bioconductor, "Bioconductor"),
    (Ecosystem::Bitnami, "Bitnami"),
    (Ecosystem::Chainguard, "Chainguard"),
    (Ecosystem::CleanStart, "CleanStart"),
    (Ecosystem::ConanCenter, "ConanCenter"),
    (Ecosystem::Cran, "CRAN"),
    (Ecosystem::CratesIo, "crates.io"),
    (Ecosystem::Debian, "Debian"),
    (Ecosystem::DockerHardenedImages, "Docker Hardened Images"),
    (Ecosystem::Echo, "Echo"),
    (Ecosystem::FreeBSD, "FreeBSD"),
    (Ecosystem::Ghc, "GHC"),
    (Ecosystem::GitHubActions, "GitHub Actions"),
    (Ecosystem::Go, "Go"),
    (Ecosystem::Hackage, "Hackage"),
    (Ecosystem::Hex, "Hex"),
    (Ecosystem::Julia, "Julia"),
    (Ecosystem::Kubernetes, "Kubernetes"),
    (Ecosystem::Linux, "Linux"),
    (Ecosystem::Mageia, "Mageia"),
    (Ecosystem::Maven, "Maven"),
    (Ecosystem::MinimOS, "MinimOS"),
    (Ecosystem::Npm, "npm"),
    (Ecosystem::NuGet, "NuGet"),
    (Ecosystem::Opam, "opam"),
    (Ecosystem::OpenEuler, "openEuler"),
    (Ecosystem::OpenSUSE, "openSUSE"),
    (Ecosystem::OssFuzz, "OSS-Fuzz"),
    (Ecosystem::Packagist, "Packagist"),
    (Ecosystem::PhotonOS, "Photon OS"),
    (Ecosystem::Pub, "Pub"),
    (Ecosystem::PyPI, "PyPI"),
    (Ecosystem::RedHat, "Red Hat"),
    (Ecosystem::RockyLinux, "Rocky Linux"),
    (Ecosystem::Root, "Root"),
    (Ecosystem::RubyGems, "RubyGems"),
    (Ecosystem::Suse, "SUSE"),
    (Ecosystem::SwiftURL, "SwiftURL"),
    (Ecosystem::Ubuntu, "Ubuntu"),
    (Ecosystem::VSCode, "VSCode"),
    (Ecosystem::Wolfi, "Wolfi"),
    (Ecosystem::Git, "GIT"),
];

// Roundtrip: the canonical OSV string names the variant, and parsing recovers it.
#[test]
fn display_and_parse_roundtrip() {
    assert_eq!(ALL.len(), 48);
    for &(expected, osv_string) in ALL {
        let eco_from_str: Ecosystem = osv_string.parse().unwrap();
        assert_eq!(expected, eco_from_str);
        assert_eq!(expected.as_str(), osv_string);

        let ews_from_str: EcosystemWithSuffix = osv_string.parse().unwrap();
        assert_eq!(ews_from_str.ecosystem(), expected);
        assert_eq!(ews_from_str.suffix(), None);
        assert_eq!(ews_from_str.to_string(), osv_string);
    }
}

#[test]
fn ecosystem_names_are_distinct() {
    for (i, &(a, na)) in ALL.iter().enumerate() {
        for &(b, nb) in &ALL[i + 1..] {
            assert_ne!(a, b);
            assert_ne!(na, nb);
        }
    }
}

#[test]
fn unknown_ecosystem_is_rejected() {
    assert_eq!(Ecosystem::from_name("Crates.io"), Err(EcosystemParseError::VariantNotFound));
    assert_eq!(Ecosystem::from_name(""), Err(EcosystemParseError::VariantNotFound));
    assert_eq!(Ecosystem::from_name("npm "), Err(EcosystemParseError::VariantNotFound));
    assert!("Debianx:10".parse::<EcosystemWithSuffix>().is_err());
    assert!(":10".parse::<EcosystemWithSuffix>().is_err());
}

#[test]
fn suffix_is_kept_after_first_colon() {
    let ews: EcosystemWithSuffix = "Debian:10".parse().unwrap();
    assert_eq!(ews.ecosystem(), Ecosystem::Debian);
    assert_eq!(ews.suffix(), Some("10"));
    assert_eq!(ews.to_string(), "Debian:10");

    let ews = EcosystemWithSuffix::parse("Alpine:v3.16:main").unwrap();
    assert_eq!(ews.ecosystem(), Ecosystem::Alpine);
    assert_eq!(ews.suffix(), Some("v3.16:main"));
    assert_eq!(ews.to_string(), "Alpine:v3.16:main");

    let ews = EcosystemWithSuffix::parse("Ubuntu:").unwrap();
    assert_eq!(ews.suffix(), Some(""));
    assert_eq!(ews.to_string(), "Ubuntu:");
}

#[test]
fn suffixed_value_roundtrip() {
    for &(_, name) in ALL {
        for suffix in ["", "10", "Pro:18.04:LTS"] {
            let text = format!("{name}:{suffix}");
            let ews = EcosystemWithSuffix::parse(&text).unwrap();
            assert_eq!(ews.to_string(), text);
            let again = EcosystemWithSuffix::parse(&ews.to_string()).unwrap();
            assert_eq!(again, ews);
            assert_eq!(again.clone(), ews);
        }
    }
}
