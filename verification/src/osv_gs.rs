//! The ecosystems of the OSV Google Cloud Storage bucket, sets of them, and the bucket's URLs.
use vstd::prelude::*;

use crate::ecosystem::EcosystemParseError;
use crate::text::{join, join_strs, lemma_join_concat, name_key, str_eq};

verus! {

/// A single OSV ecosystem as the Google Storage bucket names it.
/// See <https://storage.googleapis.com/osv-vulnerabilities/ecosystems.txt>
#[derive(Debug, Clone, Copy, PartialEq, Eq, Hash, Structural)]
pub enum OsvGsEcosystem {
    /// `AlmaLinux`
    AlmaLinux,
    /// `Alpaquita`
    Alpaquita,
    /// `Alpine`
    Alpine,
    /// `Android`
    Android,
    /// `BellSoft Hardened Containers`
    BellSoftHardenedContainers,
    /// `Bitnami`
    Bitnami,
    /// `CRAN`
    Cran,
    /// `Chainguard`
    Chainguard,
    /// `CleanStart`
    CleanStart,
    /// `Debian`
    Debian,
    /// `Echo`
    Echo,
    /// `GHC`
    Ghc,
    /// `GIT`
    Git,
    /// `GSD`
    Gsd,
    /// `GitHub Actions`
    GitHubActions,
    /// `Go`
    Go,
    /// `Hackage`
    Hackage,
    /// `Hex`
    Hex,
    /// `Julia`
    Julia,
    /// `Linux`
    Linux,
    /// `Mageia`
    Mageia,
    /// `Maven`
    Maven,
    /// `MinimOS`
    MinimOS,
    /// `NuGet`
    NuGet,
    /// `OSS-Fuzz`
    OssFuzz,
    /// `Packagist`
    Packagist,
    /// `Pub`
    Pub,
    /// `PyPI`
    PyPI,
    /// `Red Hat`
    RedHat,
    /// `Rocky Linux`
    RockyLinux,
    /// `Root`
    Root,
    /// `RubyGems`
    RubyGems,
    /// `SUSE`
    Suse,
    /// `SwiftURL`
    SwiftURL,
    /// `UVI`
    Uvi,
    /// `Ubuntu`
    Ubuntu,
    /// `VSCode`
    VSCode,
    /// `Wolfi`
    Wolfi,
    /// `crates.io`
    CratesIo,
    /// `npm`
    Npm,
    /// `opam`
    Opam,
    /// `openEuler`
    OpenEuler,
    /// `openSUSE`
    OpenSUSE,
}

/// The canonical name of each [`OsvGsEcosystem`] variant.
pub open spec fn gs_ecosystem_name(e: OsvGsEcosystem) -> Seq<char> {
    match e {
        OsvGsEcosystem::AlmaLinux => "AlmaLinux"@,
        OsvGsEcosystem::Alpaquita => "Alpaquita"@,
        OsvGsEcosystem::Alpine => "Alpine"@,
        OsvGsEcosystem::Android => "Android"@,
        OsvGsEcosystem::BellSoftHardenedContainers => "BellSoft Hardened Containers"@,
        OsvGsEcosystem::Bitnami => "Bitnami"@,
        OsvGsEcosystem::Cran => "CRAN"@,
        OsvGsEcosystem::Chainguard => "Chainguard"@,
        OsvGsEcosystem::CleanStart => "CleanStart"@,
        OsvGsEcosystem::Debian => "Debian"@,
        OsvGsEcosystem::Echo => "Echo"@,
        OsvGsEcosystem::Ghc => "GHC"@,
        OsvGsEcosystem::Git => "GIT"@,
        OsvGsEcosystem::Gsd => "GSD"@,
        OsvGsEcosystem::GitHubActions => "GitHub Actions"@,
        OsvGsEcosystem::Go => "Go"@,
        OsvGsEcosystem::Hackage => "Hackage"@,
        OsvGsEcosystem::Hex => "Hex"@,
        OsvGsEcosystem::Julia => "Julia"@,
        OsvGsEcosystem::Linux => "Linux"@,
        OsvGsEcosystem::Mageia => "Mageia"@,
        OsvGsEcosystem::Maven => "Maven"@,
        OsvGsEcosystem::MinimOS => "MinimOS"@,
        OsvGsEcosystem::NuGet => "NuGet"@,
        OsvGsEcosystem::OssFuzz => "OSS-Fuzz"@,
        OsvGsEcosystem::Packagist => "Packagist"@,
        OsvGsEcosystem::Pub => "Pub"@,
        OsvGsEcosystem::PyPI => "PyPI"@,
        OsvGsEcosystem::RedHat => "Red Hat"@,
        OsvGsEcosystem::RockyLinux => "Rocky Linux"@,
        OsvGsEcosystem::Root => "Root"@,
        OsvGsEcosystem::RubyGems => "RubyGems"@,
        OsvGsEcosystem::Suse => "SUSE"@,
        OsvGsEcosystem::SwiftURL => "SwiftURL"@,
        OsvGsEcosystem::Uvi => "UVI"@,
        OsvGsEcosystem::Ubuntu => "Ubuntu"@,
        OsvGsEcosystem::VSCode => "VSCode"@,
        OsvGsEcosystem::Wolfi => "Wolfi"@,
        OsvGsEcosystem::CratesIo => "crates.io"@,
        OsvGsEcosystem::Npm => "npm"@,
        OsvGsEcosystem::Opam => "opam"@,
        OsvGsEcosystem::OpenEuler => "openEuler"@,
        OsvGsEcosystem::OpenSUSE => "openSUSE"@,
    }
}

/// Length, first and last character of a name: these tell all names of [`OsvGsEcosystem`] apart.
spec fn gs_ecosystem_name_key(e: OsvGsEcosystem) -> (int, char, char) {
    match e {
        OsvGsEcosystem::AlmaLinux => (9int, 'A', 'x'),
        OsvGsEcosystem::Alpaquita => (9int, 'A', 'a'),
        OsvGsEcosystem::Alpine => (6int, 'A', 'e'),
        OsvGsEcosystem::Android => (7int, 'A', 'd'),
        OsvGsEcosystem::BellSoftHardenedContainers => (28int, 'B', 's'),
        OsvGsEcosystem::Bitnami => (7int, 'B', 'i'),
        OsvGsEcosystem::Cran => (4int, 'C', 'N'),
        OsvGsEcosystem::Chainguard => (10int, 'C', 'd'),
        OsvGsEcosystem::CleanStart => (10int, 'C', 't'),
        OsvGsEcosystem::Debian => (6int, 'D', 'n'),
        OsvGsEcosystem::Echo => (4int, 'E', 'o'),
        OsvGsEcosystem::Ghc => (3int, 'G', 'C'),
        OsvGsEcosystem::Git => (3int, 'G', 'T'),
        OsvGsEcosystem::Gsd => (3int, 'G', 'D'),
        OsvGsEcosystem::GitHubActions => (14int, 'G', 's'),
        OsvGsEcosystem::Go => (2int, 'G', 'o'),
        OsvGsEcosystem::Hackage => (7int, 'H', 'e'),
        OsvGsEcosystem::Hex => (3int, 'H', 'x'),
        OsvGsEcosystem::Julia => (5int, 'J', 'a'),
        OsvGsEcosystem::Linux => (5int, 'L', 'x'),
        OsvGsEcosystem::Mageia => (6int, 'M', 'a'),
        OsvGsEcosystem::Maven => (5int, 'M', 'n'),
        OsvGsEcosystem::MinimOS => (7int, 'M', 'S'),
        OsvGsEcosystem::NuGet => (5int, 'N', 't'),
        OsvGsEcosystem::OssFuzz => (8int, 'O', 'z'),
        OsvGsEcosystem::Packagist => (9int, 'P', 't'),
        OsvGsEcosystem::Pub => (3int, 'P', 'b'),
        OsvGsEcosystem::PyPI => (4int, 'P', 'I'),
        OsvGsEcosystem::RedHat => (7int, 'R', 't'),
        OsvGsEcosystem::RockyLinux => (11int, 'R', 'x'),
        OsvGsEcosystem::Root => (4int, 'R', 't'),
        OsvGsEcosystem::RubyGems => (8int, 'R', 's'),
        OsvGsEcosystem::Suse => (4int, 'S', 'E'),
        OsvGsEcosystem::SwiftURL => (8int, 'S', 'L'),
        OsvGsEcosystem::Uvi => (3int, 'U', 'I'),
        OsvGsEcosystem::Ubuntu => (6int, 'U', 'u'),
        OsvGsEcosystem::VSCode => (6int, 'V', 'e'),
        OsvGsEcosystem::Wolfi => (5int, 'W', 'i'),
        OsvGsEcosystem::CratesIo => (9int, 'c', 'o'),
        OsvGsEcosystem::Npm => (3int, 'n', 'm'),
        OsvGsEcosystem::Opam => (4int, 'o', 'm'),
        OsvGsEcosystem::OpenEuler => (9int, 'o', 'r'),
        OsvGsEcosystem::OpenSUSE => (8int, 'o', 'E'),
    }
}

proof fn lemma_gs_ecosystem_name_facts(e: OsvGsEcosystem)
    ensures
        name_key(gs_ecosystem_name(e)) == gs_ecosystem_name_key(e),
        forall|i: int| 0 <= i < gs_ecosystem_name(e).len() ==> gs_ecosystem_name(e)[i] != ':' && gs_ecosystem_name(e)[i] != '/',
{
    match e {
        OsvGsEcosystem::AlmaLinux => {
            reveal_strlit("AlmaLinux");
        },
        OsvGsEcosystem::Alpaquita => {
            reveal_strlit("Alpaquita");
        },
        OsvGsEcosystem::Alpine => {
            reveal_strlit("Alpine");
        },
        OsvGsEcosystem::Android => {
            reveal_strlit("Android");
        },
        OsvGsEcosystem::BellSoftHardenedContainers => {
            reveal_strlit("BellSoft Hardened Containers");
        },
        OsvGsEcosystem::Bitnami => {
            reveal_strlit("Bitnami");
        },
        OsvGsEcosystem::Cran => {
            reveal_strlit("CRAN");
        },
        OsvGsEcosystem::Chainguard => {
            reveal_strlit("Chainguard");
        },
        OsvGsEcosystem::CleanStart => {
            reveal_strlit("CleanStart");
        },
        OsvGsEcosystem::Debian => {
            reveal_strlit("Debian");
        },
        OsvGsEcosystem::Echo => {
            reveal_strlit("Echo");
        },
        OsvGsEcosystem::Ghc => {
            reveal_strlit("GHC");
        },
        OsvGsEcosystem::Git => {
            reveal_strlit("GIT");
        },
        OsvGsEcosystem::Gsd => {
            reveal_strlit("GSD");
        },
        OsvGsEcosystem::GitHubActions => {
            reveal_strlit("GitHub Actions");
        },
        OsvGsEcosystem::Go => {
            reveal_strlit("Go");
        },
        OsvGsEcosystem::Hackage => {
            reveal_strlit("Hackage");
        },
        OsvGsEcosystem::Hex => {
            reveal_strlit("Hex");
        },
        OsvGsEcosystem::Julia => {
            reveal_strlit("Julia");
        },
        OsvGsEcosystem::Linux => {
            reveal_strlit("Linux");
        },
        OsvGsEcosystem::Mageia => {
            reveal_strlit("Mageia");
        },
        OsvGsEcosystem::Maven => {
            reveal_strlit("Maven");
        },
        OsvGsEcosystem::MinimOS => {
            reveal_strlit("MinimOS");
        },
        OsvGsEcosystem::NuGet => {
            reveal_strlit("NuGet");
        },
        OsvGsEcosystem::OssFuzz => {
            reveal_strlit("OSS-Fuzz");
        },
        OsvGsEcosystem::Packagist => {
            reveal_strlit("Packagist");
        },
        OsvGsEcosystem::Pub => {
            reveal_strlit("Pub");
        },
        OsvGsEcosystem::PyPI => {
            reveal_strlit("PyPI");
        },
        OsvGsEcosystem::RedHat => {
            reveal_strlit("Red Hat");
        },
        OsvGsEcosystem::RockyLinux => {
            reveal_strlit("Rocky Linux");
        },
        OsvGsEcosystem::Root => {
            reveal_strlit("Root");
        },
        OsvGsEcosystem::RubyGems => {
            reveal_strlit("RubyGems");
        },
        OsvGsEcosystem::Suse => {
            reveal_strlit("SUSE");
        },
        OsvGsEcosystem::SwiftURL => {
            reveal_strlit("SwiftURL");
        },
        OsvGsEcosystem::Uvi => {
            reveal_strlit("UVI");
        },
        OsvGsEcosystem::Ubuntu => {
            reveal_strlit("Ubuntu");
        },
        OsvGsEcosystem::VSCode => {
            reveal_strlit("VSCode");
        },
        OsvGsEcosystem::Wolfi => {
            reveal_strlit("Wolfi");
        },
        OsvGsEcosystem::CratesIo => {
            reveal_strlit("crates.io");
        },
        OsvGsEcosystem::Npm => {
            reveal_strlit("npm");
        },
        OsvGsEcosystem::Opam => {
            reveal_strlit("opam");
        },
        OsvGsEcosystem::OpenEuler => {
            reveal_strlit("openEuler");
        },
        OsvGsEcosystem::OpenSUSE => {
            reveal_strlit("openSUSE");
        },
    }
}

/// The ecosystem whose bucket name is `s`, if any.
pub open spec fn parse_gs_ecosystem(s: Seq<char>) -> Option<OsvGsEcosystem> {
    if exists|e: OsvGsEcosystem| gs_ecosystem_name(e) == s {
        Some(choose|e: OsvGsEcosystem| gs_ecosystem_name(e) == s)
    } else {
        None
    }
}

/// No two bucket ecosystems share a name.
pub proof fn lemma_gs_ecosystem_name_injective(a: OsvGsEcosystem, b: OsvGsEcosystem)
    ensures
        gs_ecosystem_name(a) == gs_ecosystem_name(b) ==> a == b,
{
    lemma_gs_ecosystem_name_facts(a);
    lemma_gs_ecosystem_name_facts(b);
}

/// Parsing the name of a bucket ecosystem gives that ecosystem back.
pub proof fn lemma_gs_ecosystem_roundtrip(e: OsvGsEcosystem)
    ensures
        parse_gs_ecosystem(gs_ecosystem_name(e)) == Some(e),
{
    let c = choose|c: OsvGsEcosystem| gs_ecosystem_name(c) == gs_ecosystem_name(e);
    lemma_gs_ecosystem_name_injective(c, e);
}

/// No bucket ecosystem name holds a `'/'`.
pub proof fn lemma_gs_ecosystem_name_has_no_slash(e: OsvGsEcosystem)
    ensures
        forall|i: int| 0 <= i < gs_ecosystem_name(e).len() ==> gs_ecosystem_name(e)[i] != '/',
{
    lemma_gs_ecosystem_name_facts(e);
}

impl OsvGsEcosystem {
    /// The bucket name of the ecosystem (e.g. `"crates.io"`).
    pub fn as_str(self) -> (s: &'static str)
        ensures
            s@ == gs_ecosystem_name(self),
    {
        match self {
            OsvGsEcosystem::AlmaLinux => "AlmaLinux",
            OsvGsEcosystem::Alpaquita => "Alpaquita",
            OsvGsEcosystem::Alpine => "Alpine",
            OsvGsEcosystem::Android => "Android",
            OsvGsEcosystem::BellSoftHardenedContainers => "BellSoft Hardened Containers",
            OsvGsEcosystem::Bitnami => "Bitnami",
            OsvGsEcosystem::Cran => "CRAN",
            OsvGsEcosystem::Chainguard => "Chainguard",
            OsvGsEcosystem::CleanStart => "CleanStart",
            OsvGsEcosystem::Debian => "Debian",
            OsvGsEcosystem::Echo => "Echo",
            OsvGsEcosystem::Ghc => "GHC",
            OsvGsEcosystem::Git => "GIT",
            OsvGsEcosystem::Gsd => "GSD",
            OsvGsEcosystem::GitHubActions => "GitHub Actions",
            OsvGsEcosystem::Go => "Go",
            OsvGsEcosystem::Hackage => "Hackage",
            OsvGsEcosystem::Hex => "Hex",
            OsvGsEcosystem::Julia => "Julia",
            OsvGsEcosystem::Linux => "Linux",
            OsvGsEcosystem::Mageia => "Mageia",
            OsvGsEcosystem::Maven => "Maven",
            OsvGsEcosystem::MinimOS => "MinimOS",
            OsvGsEcosystem::NuGet => "NuGet",
            OsvGsEcosystem::OssFuzz => "OSS-Fuzz",
            OsvGsEcosystem::Packagist => "Packagist",
            OsvGsEcosystem::Pub => "Pub",
            OsvGsEcosystem::PyPI => "PyPI",
            OsvGsEcosystem::RedHat => "Red Hat",
            OsvGsEcosystem::RockyLinux => "Rocky Linux",
            OsvGsEcosystem::Root => "Root",
            OsvGsEcosystem::RubyGems => "RubyGems",
            OsvGsEcosystem::Suse => "SUSE",
            OsvGsEcosystem::SwiftURL => "SwiftURL",
            OsvGsEcosystem::Uvi => "UVI",
            OsvGsEcosystem::Ubuntu => "Ubuntu",
            OsvGsEcosystem::VSCode => "VSCode",
            OsvGsEcosystem::Wolfi => "Wolfi",
            OsvGsEcosystem::CratesIo => "crates.io",
            OsvGsEcosystem::Npm => "npm",
            OsvGsEcosystem::Opam => "opam",
            OsvGsEcosystem::OpenEuler => "openEuler",
            OsvGsEcosystem::OpenSUSE => "openSUSE",
        }
    }

    /// Parses a bucket ecosystem name.
    ///
    /// # Errors
    /// - [`EcosystemParseError::VariantNotFound`] if `s` is the name of no bucket ecosystem.
    pub fn from_name(s: &str) -> (r: Result<OsvGsEcosystem, EcosystemParseError>)
        ensures
            match r {
                Ok(e) => parse_gs_ecosystem(s@) == Some(e),
                Err(_) => parse_gs_ecosystem(s@) is None,
            },
    {
        let r = Self::find_by_name(s);
        proof {
            if let Ok(e) = r {
                let c = choose|c: OsvGsEcosystem| gs_ecosystem_name(c) == s@;
                lemma_gs_ecosystem_name_injective(c, e);
            }
        }
        r
    }

    fn find_by_name(s: &str) -> (r: Result<OsvGsEcosystem, EcosystemParseError>)
        ensures
            match r {
                Ok(e) => gs_ecosystem_name(e) == s@,
                Err(_) => forall|e: OsvGsEcosystem| gs_ecosystem_name(e) != s@,
            },
    {
        if str_eq(s, "AlmaLinux") {
            return Ok(OsvGsEcosystem::AlmaLinux);
        }
        if str_eq(s, "Alpaquita") {
            return Ok(OsvGsEcosystem::Alpaquita);
        }
        if str_eq(s, "Alpine") {
            return Ok(OsvGsEcosystem::Alpine);
        }
        if str_eq(s, "Android") {
            return Ok(OsvGsEcosystem::Android);
        }
        if str_eq(s, "BellSoft Hardened Containers") {
            return Ok(OsvGsEcosystem::BellSoftHardenedContainers);
        }
        if str_eq(s, "Bitnami") {
            return Ok(OsvGsEcosystem::Bitnami);
        }
        if str_eq(s, "CRAN") {
            return Ok(OsvGsEcosystem::Cran);
        }
        if str_eq(s, "Chainguard") {
            return Ok(OsvGsEcosystem::Chainguard);
        }
        if str_eq(s, "CleanStart") {
            return Ok(OsvGsEcosystem::CleanStart);
        }
        if str_eq(s, "Debian") {
            return Ok(OsvGsEcosystem::Debian);
        }
        if str_eq(s, "Echo") {
            return Ok(OsvGsEcosystem::Echo);
        }
        if str_eq(s, "GHC") {
            return Ok(OsvGsEcosystem::Ghc);
        }
        if str_eq(s, "GIT") {
            return Ok(OsvGsEcosystem::Git);
        }
        if str_eq(s, "GSD") {
            return Ok(OsvGsEcosystem::Gsd);
        }
        if str_eq(s, "GitHub Actions") {
            return Ok(OsvGsEcosystem::GitHubActions);
        }
        if str_eq(s, "Go") {
            return Ok(OsvGsEcosystem::Go);
        }
        if str_eq(s, "Hackage") {
            return Ok(OsvGsEcosystem::Hackage);
        }
        if str_eq(s, "Hex") {
            return Ok(OsvGsEcosystem::Hex);
        }
        if str_eq(s, "Julia") {
            return Ok(OsvGsEcosystem::Julia);
        }
        if str_eq(s, "Linux") {
            return Ok(OsvGsEcosystem::Linux);
        }
        if str_eq(s, "Mageia") {
            return Ok(OsvGsEcosystem::Mageia);
        }
        if str_eq(s, "Maven") {
            return Ok(OsvGsEcosystem::Maven);
        }
        if str_eq(s, "MinimOS") {
            return Ok(OsvGsEcosystem::MinimOS);
        }
        if str_eq(s, "NuGet") {
            return Ok(OsvGsEcosystem::NuGet);
        }
        if str_eq(s, "OSS-Fuzz") {
            return Ok(OsvGsEcosystem::OssFuzz);
        }
        if str_eq(s, "Packagist") {
            return Ok(OsvGsEcosystem::Packagist);
        }
        if str_eq(s, "Pub") {
            return Ok(OsvGsEcosystem::Pub);
        }
        if str_eq(s, "PyPI") {
            return Ok(OsvGsEcosystem::PyPI);
        }
        if str_eq(s, "Red Hat") {
            return Ok(OsvGsEcosystem::RedHat);
        }
        if str_eq(s, "Rocky Linux") {
            return Ok(OsvGsEcosystem::RockyLinux);
        }
        if str_eq(s, "Root") {
            return Ok(OsvGsEcosystem::Root);
        }
        if str_eq(s, "RubyGems") {
            return Ok(OsvGsEcosystem::RubyGems);
        }
        if str_eq(s, "SUSE") {
            return Ok(OsvGsEcosystem::Suse);
        }
        if str_eq(s, "SwiftURL") {
            return Ok(OsvGsEcosystem::SwiftURL);
        }
        if str_eq(s, "UVI") {
            return Ok(OsvGsEcosystem::Uvi);
        }
        if str_eq(s, "Ubuntu") {
            return Ok(OsvGsEcosystem::Ubuntu);
        }
        if str_eq(s, "VSCode") {
            return Ok(OsvGsEcosystem::VSCode);
        }
        if str_eq(s, "Wolfi") {
            return Ok(OsvGsEcosystem::Wolfi);
        }
        if str_eq(s, "crates.io") {
            return Ok(OsvGsEcosystem::CratesIo);
        }
        if str_eq(s, "npm") {
            return Ok(OsvGsEcosystem::Npm);
        }
        if str_eq(s, "opam") {
            return Ok(OsvGsEcosystem::Opam);
        }
        if str_eq(s, "openEuler") {
            return Ok(OsvGsEcosystem::OpenEuler);
        }
        if str_eq(s, "openSUSE") {
            return Ok(OsvGsEcosystem::OpenSUSE);
        }
        Err(EcosystemParseError::VariantNotFound)
    }
}

impl core::str::FromStr for OsvGsEcosystem {
    type Err = EcosystemParseError;

    fn from_str(s: &str) -> (r: Result<Self, Self::Err>)
        ensures
            match r {
                Ok(e) => parse_gs_ecosystem(s@) == Some(e),
                Err(_) => parse_gs_ecosystem(s@) is None,
            },
    {
        OsvGsEcosystem::from_name(s)
    }
}


/// A set of OSV ecosystems to target.
///
/// An empty set means **all** ecosystems. Use [`OsvGsEcosystems::add`] to restrict the set to
/// specific ecosystems.
///
/// The set is held as a list in which each ecosystem occurs once, in the order in which it was
/// added: vstd specifies `HashSet` only for keys known to obey its key model (integers and the
/// like, not a derived `Hash`), and the order in which a `HashSet` is walked is left open, while
/// [`OsvGsEcosystems::iter`] and [`OsvGsEcosystems::to_string`] give a stated order.
#[derive(Debug)]
pub struct OsvGsEcosystems(Vec<OsvGsEcosystem>);

impl View for OsvGsEcosystems {
    type V = Set<OsvGsEcosystem>;

    closed spec fn view(&self) -> Set<OsvGsEcosystem> {
        self.0@.to_set()
    }
}

/// The text form of a set listed in the given order: `"all"` for the empty set,
/// `"[<name>,<name>,...]"` otherwise.
pub open spec fn targets_text(listing: Seq<OsvGsEcosystem>) -> Seq<char> {
    if listing.len() == 0 {
        "all"@
    } else {
        "["@ + join(listing.map_values(|e: OsvGsEcosystem| gs_ecosystem_name(e)), ","@) + "]"@
    }
}

/// The text of two selections listed one after the other: the names of the first and of the
/// second, between one pair of brackets, with a comma between every two neighbouring names.
pub proof fn lemma_targets_text_concat(a: Seq<OsvGsEcosystem>, b: Seq<OsvGsEcosystem>)
    requires
        a.len() > 0,
        b.len() > 0,
    ensures
        targets_text(a + b) == targets_text(a).drop_last() + ","@ + targets_text(b).drop_first(),
{
    let f = |e: OsvGsEcosystem| gs_ecosystem_name(e);
    let na = a.map_values(f);
    let nb = b.map_values(f);
    assert((a + b).map_values(f) =~= na + nb);
    lemma_join_concat(na, nb, ","@);
    reveal_strlit("[");
    reveal_strlit("]");
    let ja = join(na, ","@);
    let jb = join(nb, ","@);
    assert(("["@ + ja + "]"@).drop_last() =~= "["@ + ja);
    assert(("["@ + jb + "]"@).drop_first() =~= jb + "]"@);
    assert("["@ + (ja + ","@ + jb) + "]"@ =~= "["@ + ja + ","@ + (jb + "]"@));
}

impl OsvGsEcosystems {
    #[verifier::type_invariant]
    spec fn each_once(self) -> bool {
        self.0@.no_duplicates()
    }

    /// The selected ecosystems in the order in which [`OsvGsEcosystems::iter`] yields them.
    pub closed spec fn listing(&self) -> Seq<OsvGsEcosystem> {
        self.0@
    }

    /// Creates an empty ecosystem set, meaning **all** ecosystems are targeted.
    pub fn all() -> (r: OsvGsEcosystems)
        ensures
            r@ == Set::<OsvGsEcosystem>::empty(),
            r.listing() == Seq::<OsvGsEcosystem>::empty(),
    {
        let r = OsvGsEcosystems(Vec::new());
        assert(r@ =~= Set::<OsvGsEcosystem>::empty());
        r
    }

    /// Returns `true` if no specific ecosystems have been selected, meaning all ecosystems are
    /// targeted.
    pub fn is_all(&self) -> (r: bool)
        ensures
            r == (self@ == Set::<OsvGsEcosystem>::empty()),
            r == (self.listing().len() == 0),
    {
        proof {
            if self.0@.len() > 0 {
                assert(self@.contains(self.0@[0]));
            } else {
                assert(self@ =~= Set::<OsvGsEcosystem>::empty());
            }
        }
        self.0.len() == 0
    }

    /// The explicitly selected ecosystems, each once; empty when [`OsvGsEcosystems::is_all`]
    /// is `true`.
    pub fn iter(&self) -> (r: Vec<OsvGsEcosystem>)
        ensures
            r@ == self.listing(),
            r@.no_duplicates(),
            r@.to_set() == self@,
    {
        proof {
            use_type_invariant(self);
        }
        self.0.clone()
    }

    /// Whether `e` is selected.
    pub fn contains(&self, e: OsvGsEcosystem) -> (r: bool)
        ensures
            r == self@.contains(e),
    {
        let mut i: usize = 0;
        while i < self.0.len()
            invariant
                i <= self.0@.len(),
                forall|j: int| 0 <= j < i ==> self.0@[j] != e,
            decreases self.0@.len() - i,
        {
            if self.0[i] == e {
                return true;
            }
            i = i + 1;
        }
        false
    }

    /// Adds an [`OsvGsEcosystem`] to the set. Once at least one ecosystem is added, only the
    /// ecosystems explicitly listed are targeted: the implicit "all ecosystems" behaviour no
    /// longer applies.
    pub fn add(self, ecosystem: OsvGsEcosystem) -> (r: OsvGsEcosystems)
        ensures
            r@ == self@.insert(ecosystem),
            r@ != Set::<OsvGsEcosystem>::empty(),
            self@.contains(ecosystem) ==> r.listing() == self.listing(),
            !self@.contains(ecosystem) ==> r.listing() == self.listing().push(ecosystem),
    {
        proof {
            use_type_invariant(&self);
        }
        let found = self.contains(ecosystem);
        let ghost before = self.0@;
        let r = if found {
            self
        } else {
            let mut v = self.0;
            v.push(ecosystem);
            assert(v@.no_duplicates()) by {
                assert(!before.contains(ecosystem));
            }
            assert forall|x: OsvGsEcosystem| v@.contains(x) <==> before.contains(x) || x == ecosystem by {
                if before.contains(x) {
                    let k = choose|k: int| 0 <= k < before.len() && before[k] == x;
                    assert(v@[k] == x);
                }
                if v@.contains(x) && x != ecosystem {
                    let k = choose|k: int| 0 <= k < v@.len() && v@[k] == x;
                    assert(before[k] == x);
                }
                assert(v@[before.len() as int] == ecosystem);
            }
            OsvGsEcosystems(v)
        };
        assert(r@ =~= self@.insert(ecosystem));
        assert(r@.contains(ecosystem));
        r
    }

    /// The text form: `"all"` when all ecosystems are targeted, otherwise the selected names
    /// between brackets, separated by commas (e.g. `"[Go]"`).
    pub fn to_string(&self) -> (r: String)
        ensures
            r@ == targets_text(self.listing()),
    {
        if self.0.len() == 0 {
            return String::from_str("all");
        }
        let mut names: Vec<&str> = Vec::new();
        let mut i: usize = 0;
        while i < self.0.len()
            invariant
                i <= self.0@.len(),
                names@.len() == i,
                forall|j: int| 0 <= j < i ==> #[trigger] names@[j]@ == gs_ecosystem_name(self.0@[j]),
            decreases self.0@.len() - i,
        {
            names.push(self.0[i].as_str());
            i = i + 1;
        }
        assert(names@.map_values(|s: &str| s@) =~= self.0@.map_values(
            |e: OsvGsEcosystem| gs_ecosystem_name(e),
        ));
        let mut r = String::from_str("[");
        r.append(join_strs(&names, ",").as_str());
        r.append("]");
        r
    }
}

impl Clone for OsvGsEcosystems {
    fn clone(&self) -> (r: OsvGsEcosystems)
        ensures
            r@ == self@,
            r.listing() == self.listing(),
    {
        proof {
            use_type_invariant(self);
        }
        OsvGsEcosystems(self.0.clone())
    }
}

impl Default for OsvGsEcosystems {
    fn default() -> (r: OsvGsEcosystems)
        ensures
            r@ == Set::<OsvGsEcosystem>::empty(),
    {
        OsvGsEcosystems::all()
    }
}

impl PartialEq for OsvGsEcosystems {
    /// Two sets are equal when they select the same ecosystems, whatever the order of selection.
    fn eq(&self, other: &OsvGsEcosystems) -> (r: bool) {
        proof {
            use_type_invariant(self);
            use_type_invariant(other);
        }
        if self.0.len() != other.0.len() {
            proof {
                self.0@.unique_seq_to_set();
                other.0@.unique_seq_to_set();
            }
            return false;
        }
        let mut i: usize = 0;
        while i < self.0.len()
            invariant
                i <= self.0@.len(),
                forall|j: int| 0 <= j < i ==> other@.contains(#[trigger] self.0@[j]),
            decreases self.0@.len() - i,
        {
            if !other.contains(self.0[i]) {
                assert(self@.contains(self.0@[i as int]));
                return false;
            }
            i = i + 1;
        }
        proof {
            self.0@.unique_seq_to_set();
            other.0@.unique_seq_to_set();
            assert(self@.subset_of(other@));
            vstd::set_lib::lemma_subset_equality(self@, other@);
        }
        true
    }
}

impl vstd::std_specs::cmp::PartialEqSpecImpl for OsvGsEcosystems {
    open spec fn obeys_eq_spec() -> bool {
        true
    }

    open spec fn eq_spec(&self, other: &OsvGsEcosystems) -> bool {
        self@ == other@
    }
}

impl Eq for OsvGsEcosystems {
}

/// The root URL of the OSV Google Cloud Storage bucket.
pub open spec fn osv_storage_url() -> Seq<char> {
    "https://storage.googleapis.com/osv-vulnerabilities"@
}

/// URL of the zip archive of all records of `ecosystem`, or of all ecosystems.
pub fn osv_archive_url(ecosystem: Option<OsvGsEcosystem>) -> (r: String)
    ensures
        r@ == match ecosystem {
            Some(e) => osv_storage_url() + "/"@ + gs_ecosystem_name(e) + "/all.zip"@,
            None => osv_storage_url() + "/all.zip"@,
        },
{
    let mut r = String::from_str("https://storage.googleapis.com/osv-vulnerabilities");
    if let Some(e) = ecosystem {
        r.append("/");
        r.append(e.as_str());
    }
    r.append("/all.zip");
    r
}

/// URL of the `modified_id.csv` index of `ecosystem`, or of all ecosystems.
pub fn osv_modified_id_csv_url(ecosystem: Option<OsvGsEcosystem>) -> (r: String)
    ensures
        r@ == match ecosystem {
            Some(e) => osv_storage_url() + "/"@ + gs_ecosystem_name(e) + "/modified_id.csv"@,
            None => osv_storage_url() + "/modified_id.csv"@,
        },
{
    let mut r = String::from_str("https://storage.googleapis.com/osv-vulnerabilities");
    if let Some(e) = ecosystem {
        r.append("/");
        r.append(e.as_str());
    }
    r.append("/modified_id.csv");
    r
}

/// URL of the JSON file of the record at `record_path` within `ecosystem`.
pub fn osv_record_url(ecosystem: OsvGsEcosystem, record_path: &str) -> (r: String)
    ensures
        r@ == osv_storage_url() + "/"@ + gs_ecosystem_name(ecosystem) + "/"@ + record_path@
            + ".json"@,
{
    let mut r = String::from_str("https://storage.googleapis.com/osv-vulnerabilities");
    r.append("/");
    r.append(ecosystem.as_str());
    r.append("/");
    r.append(record_path);
    r.append(".json");
    r
}

} // verus!
