//! OSV ecosystems, as named by the OSV schema, optionally with a suffix (e.g. `"Debian:10"`).
use vstd::prelude::*;

use crate::text::{first_index_of, is_first_index, lemma_first_index_unique, name_key, split_once, split_once_char, str_eq};

verus! {

/// Error returned when a string names no known ecosystem.
#[derive(Debug, Clone, Copy, PartialEq, Eq, Structural)]
pub enum EcosystemParseError {
    /// The string matches no variant.
    VariantNotFound,
}

/// An OSV ecosystem, as defined by the OSV schema.
/// See <https://github.com/ossf/osv-schema/blob/main/validation/schema.json>
#[derive(Debug, Clone, Copy, PartialEq, Eq, Hash, Structural)]
pub enum Ecosystem {
    /// `AlmaLinux`
    AlmaLinux,
    /// `Alpaquita`
    Alpaquita,
    /// `Alpine`
    Alpine,
    /// `Android`
    Android,
    /// `Azure Linux`
    AzureLinux,
    /// `BellSoft Hardened Containers`
    BellSoftHardenedContainers,
    /// `Bioconductor`
    Bioconductor,
    /// `Bitnami`
    Bitnami,
    /// `Chainguard`
    Chainguard,
    /// `CleanStart`
    CleanStart,
    /// `ConanCenter`
    ConanCenter,
    /// `CRAN`
    Cran,
    /// `crates.io`
    CratesIo,
    /// `Debian`
    Debian,
    /// `Docker Hardened Images`
    DockerHardenedImages,
    /// `Echo`
    Echo,
    /// `FreeBSD`
    FreeBSD,
    /// `GHC`
    Ghc,
    /// `GitHub Actions`
    GitHubActions,
    /// `Go`
    Go,
    /// `Hackage`
    Hackage,
    /// `Hex`
    Hex,
    /// `Julia`
    Julia,
    /// `Kubernetes`
    Kubernetes,
    /// `Linux`
    Linux,
    /// `Mageia`
    Mageia,
    /// `Maven`
    Maven,
    /// `MinimOS`
    MinimOS,
    /// `npm`
    Npm,
    /// `NuGet`
    NuGet,
    /// `opam`
    Opam,
    /// `openEuler`
    OpenEuler,
    /// `openSUSE`
    OpenSUSE,
    /// `OSS-Fuzz`
    OssFuzz,
    /// `Packagist`
    Packagist,
    /// `Photon OS`
    PhotonOS,
    /// `Pub`
    Pub,
    /// `PyPI`
    PyPI,
    /// `Red Hat`
    RedHat,
    /// `Rocky Linux`
    RockyLinux,
    /// `Root`
    Root,
    /// `RubyGems`
    RubyGems,
    /// `SUSE`
    Suse,
    /// `SwiftURL`
    SwiftURL,
    /// `Ubuntu`
    Ubuntu,
    /// `VSCode`
    VSCode,
    /// `Wolfi`
    Wolfi,
    /// `GIT`
    Git,
}

/// The canonical name of each [`Ecosystem`] variant.
pub open spec fn ecosystem_name(e: Ecosystem) -> Seq<char> {
    match e {
        Ecosystem::AlmaLinux => "AlmaLinux"@,
        Ecosystem::Alpaquita => "Alpaquita"@,
        Ecosystem::Alpine => "Alpine"@,
        Ecosystem::Android => "Android"@,
        Ecosystem::AzureLinux => "Azure Linux"@,
        Ecosystem::BellSoftHardenedContainers => "BellSoft Hardened Containers"@,
        Ecosystem::Bioconductor => "Bioconductor"@,
        Ecosystem::Bitnami => "Bitnami"@,
        Ecosystem::Chainguard => "Chainguard"@,
        Ecosystem::CleanStart => "CleanStart"@,
        Ecosystem::ConanCenter => "ConanCenter"@,
        Ecosystem::Cran => "CRAN"@,
        Ecosystem::CratesIo => "crates.io"@,
        Ecosystem::Debian => "Debian"@,
        Ecosystem::DockerHardenedImages => "Docker Hardened Images"@,
        Ecosystem::Echo => "Echo"@,
        Ecosystem::FreeBSD => "FreeBSD"@,
        Ecosystem::Ghc => "GHC"@,
        Ecosystem::GitHubActions => "GitHub Actions"@,
        Ecosystem::Go => "Go"@,
        Ecosystem::Hackage => "Hackage"@,
        Ecosystem::Hex => "Hex"@,
        Ecosystem::Julia => "Julia"@,
        Ecosystem::Kubernetes => "Kubernetes"@,
        Ecosystem::Linux => "Linux"@,
        Ecosystem::Mageia => "Mageia"@,
        Ecosystem::Maven => "Maven"@,
        Ecosystem::MinimOS => "MinimOS"@,
        Ecosystem::Npm => "npm"@,
        Ecosystem::NuGet => "NuGet"@,
        Ecosystem::Opam => "opam"@,
        Ecosystem::OpenEuler => "openEuler"@,
        Ecosystem::OpenSUSE => "openSUSE"@,
        Ecosystem::OssFuzz => "OSS-Fuzz"@,
        Ecosystem::Packagist => "Packagist"@,
        Ecosystem::PhotonOS => "Photon OS"@,
        Ecosystem::Pub => "Pub"@,
        Ecosystem::PyPI => "PyPI"@,
        Ecosystem::RedHat => "Red Hat"@,
        Ecosystem::RockyLinux => "Rocky Linux"@,
        Ecosystem::Root => "Root"@,
        Ecosystem::RubyGems => "RubyGems"@,
        Ecosystem::Suse => "SUSE"@,
        Ecosystem::SwiftURL => "SwiftURL"@,
        Ecosystem::Ubuntu => "Ubuntu"@,
        Ecosystem::VSCode => "VSCode"@,
        Ecosystem::Wolfi => "Wolfi"@,
        Ecosystem::Git => "GIT"@,
    }
}

/// Length, first and last character of a name: these tell all names of [`Ecosystem`] apart.
spec fn ecosystem_name_key(e: Ecosystem) -> (int, char, char) {
    match e {
        Ecosystem::AlmaLinux => (9int, 'A', 'x'),
        Ecosystem::Alpaquita => (9int, 'A', 'a'),
        Ecosystem::Alpine => (6int, 'A', 'e'),
        Ecosystem::Android => (7int, 'A', 'd'),
        Ecosystem::AzureLinux => (11int, 'A', 'x'),
        Ecosystem::BellSoftHardenedContainers => (28int, 'B', 's'),
        Ecosystem::Bioconductor => (12int, 'B', 'r'),
        Ecosystem::Bitnami => (7int, 'B', 'i'),
        Ecosystem::Chainguard => (10int, 'C', 'd'),
        Ecosystem::CleanStart => (10int, 'C', 't'),
        Ecosystem::ConanCenter => (11int, 'C', 'r'),
        Ecosystem::Cran => (4int, 'C', 'N'),
        Ecosystem::CratesIo => (9int, 'c', 'o'),
        Ecosystem::Debian => (6int, 'D', 'n'),
        Ecosystem::DockerHardenedImages => (22int, 'D', 's'),
        Ecosystem::Echo => (4int, 'E', 'o'),
        Ecosystem::FreeBSD => (7int, 'F', 'D'),
        Ecosystem::Ghc => (3int, 'G', 'C'),
        Ecosystem::GitHubActions => (14int, 'G', 's'),
        Ecosystem::Go => (2int, 'G', 'o'),
        Ecosystem::Hackage => (7int, 'H', 'e'),
        Ecosystem::Hex => (3int, 'H', 'x'),
        Ecosystem::Julia => (5int, 'J', 'a'),
        Ecosystem::Kubernetes => (10int, 'K', 's'),
        Ecosystem::Linux => (5int, 'L', 'x'),
        Ecosystem::Mageia => (6int, 'M', 'a'),
        Ecosystem::Maven => (5int, 'M', 'n'),
        Ecosystem::MinimOS => (7int, 'M', 'S'),
        Ecosystem::Npm => (3int, 'n', 'm'),
        Ecosystem::NuGet => (5int, 'N', 't'),
        Ecosystem::Opam => (4int, 'o', 'm'),
        Ecosystem::OpenEuler => (9int, 'o', 'r'),
        Ecosystem::OpenSUSE => (8int, 'o', 'E'),
        Ecosystem::OssFuzz => (8int, 'O', 'z'),
        Ecosystem::Packagist => (9int, 'P', 't'),
        Ecosystem::PhotonOS => (9int, 'P', 'S'),
        Ecosystem::Pub => (3int, 'P', 'b'),
        Ecosystem::PyPI => (4int, 'P', 'I'),
        Ecosystem::RedHat => (7int, 'R', 't'),
        Ecosystem::RockyLinux => (11int, 'R', 'x'),
        Ecosystem::Root => (4int, 'R', 't'),
        Ecosystem::RubyGems => (8int, 'R', 's'),
        Ecosystem::Suse => (4int, 'S', 'E'),
        Ecosystem::SwiftURL => (8int, 'S', 'L'),
        Ecosystem::Ubuntu => (6int, 'U', 'u'),
        Ecosystem::VSCode => (6int, 'V', 'e'),
        Ecosystem::Wolfi => (5int, 'W', 'i'),
        Ecosystem::Git => (3int, 'G', 'T'),
    }
}

proof fn lemma_ecosystem_name_facts(e: Ecosystem)
    ensures
        name_key(ecosystem_name(e)) == ecosystem_name_key(e),
        forall|i: int| 0 <= i < ecosystem_name(e).len() ==> ecosystem_name(e)[i] != ':' && ecosystem_name(e)[i] != '/',
{
    match e {
        Ecosystem::AlmaLinux => {
            reveal_strlit("AlmaLinux");
        },
        Ecosystem::Alpaquita => {
            reveal_strlit("Alpaquita");
        },
        Ecosystem::Alpine => {
            reveal_strlit("Alpine");
        },
        Ecosystem::Android => {
            reveal_strlit("Android");
        },
        Ecosystem::AzureLinux => {
            reveal_strlit("Azure Linux");
        },
        Ecosystem::BellSoftHardenedContainers => {
            reveal_strlit("BellSoft Hardened Containers");
        },
        Ecosystem::Bioconductor => {
            reveal_strlit("Bioconductor");
        },
        Ecosystem::Bitnami => {
            reveal_strlit("Bitnami");
        },
        Ecosystem::Chainguard => {
            reveal_strlit("Chainguard");
        },
        Ecosystem::CleanStart => {
            reveal_strlit("CleanStart");
        },
        Ecosystem::ConanCenter => {
            reveal_strlit("ConanCenter");
        },
        Ecosystem::Cran => {
            reveal_strlit("CRAN");
        },
        Ecosystem::CratesIo => {
            reveal_strlit("crates.io");
        },
        Ecosystem::Debian => {
            reveal_strlit("Debian");
        },
        Ecosystem::DockerHardenedImages => {
            reveal_strlit("Docker Hardened Images");
        },
        Ecosystem::Echo => {
            reveal_strlit("Echo");
        },
        Ecosystem::FreeBSD => {
            reveal_strlit("FreeBSD");
        },
        Ecosystem::Ghc => {
            reveal_strlit("GHC");
        },
        Ecosystem::GitHubActions => {
            reveal_strlit("GitHub Actions");
        },
        Ecosystem::Go => {
            reveal_strlit("Go");
        },
        Ecosystem::Hackage => {
            reveal_strlit("Hackage");
        },
        Ecosystem::Hex => {
            reveal_strlit("Hex");
        },
        Ecosystem::Julia => {
            reveal_strlit("Julia");
        },
        Ecosystem::Kubernetes => {
            reveal_strlit("Kubernetes");
        },
        Ecosystem::Linux => {
            reveal_strlit("Linux");
        },
        Ecosystem::Mageia => {
            reveal_strlit("Mageia");
        },
        Ecosystem::Maven => {
            reveal_strlit("Maven");
        },
        Ecosystem::MinimOS => {
            reveal_strlit("MinimOS");
        },
        Ecosystem::Npm => {
            reveal_strlit("npm");
        },
        Ecosystem::NuGet => {
            reveal_strlit("NuGet");
        },
        Ecosystem::Opam => {
            reveal_strlit("opam");
        },
        Ecosystem::OpenEuler => {
            reveal_strlit("openEuler");
        },
        Ecosystem::OpenSUSE => {
            reveal_strlit("openSUSE");
        },
        Ecosystem::OssFuzz => {
            reveal_strlit("OSS-Fuzz");
        },
        Ecosystem::Packagist => {
            reveal_strlit("Packagist");
        },
        Ecosystem::PhotonOS => {
            reveal_strlit("Photon OS");
        },
        Ecosystem::Pub => {
            reveal_strlit("Pub");
        },
        Ecosystem::PyPI => {
            reveal_strlit("PyPI");
        },
        Ecosystem::RedHat => {
            reveal_strlit("Red Hat");
        },
        Ecosystem::RockyLinux => {
            reveal_strlit("Rocky Linux");
        },
        Ecosystem::Root => {
            reveal_strlit("Root");
        },
        Ecosystem::RubyGems => {
            reveal_strlit("RubyGems");
        },
        Ecosystem::Suse => {
            reveal_strlit("SUSE");
        },
        Ecosystem::SwiftURL => {
            reveal_strlit("SwiftURL");
        },
        Ecosystem::Ubuntu => {
            reveal_strlit("Ubuntu");
        },
        Ecosystem::VSCode => {
            reveal_strlit("VSCode");
        },
        Ecosystem::Wolfi => {
            reveal_strlit("Wolfi");
        },
        Ecosystem::Git => {
            reveal_strlit("GIT");
        },
    }
}

/// The ecosystem whose canonical name is `s`, if any.
pub open spec fn parse_ecosystem(s: Seq<char>) -> Option<Ecosystem> {
    if exists|e: Ecosystem| ecosystem_name(e) == s {
        Some(choose|e: Ecosystem| ecosystem_name(e) == s)
    } else {
        None
    }
}

/// No two ecosystems share a name.
pub proof fn lemma_ecosystem_name_injective(a: Ecosystem, b: Ecosystem)
    ensures
        ecosystem_name(a) == ecosystem_name(b) ==> a == b,
{
    lemma_ecosystem_name_facts(a);
    lemma_ecosystem_name_facts(b);
}

/// Parsing the name of an ecosystem gives that ecosystem back.
pub proof fn lemma_ecosystem_roundtrip(e: Ecosystem)
    ensures
        parse_ecosystem(ecosystem_name(e)) == Some(e),
{
    let c = choose|c: Ecosystem| ecosystem_name(c) == ecosystem_name(e);
    lemma_ecosystem_name_injective(c, e);
}

/// A name that parses is the name of the ecosystem it parses to.
pub proof fn lemma_parse_ecosystem_name(s: Seq<char>)
    ensures
        parse_ecosystem(s) matches Some(e) ==> ecosystem_name(e) == s,
{
}

impl Ecosystem {
    /// The canonical OSV name of the ecosystem (e.g. `"crates.io"`).
    pub fn as_str(self) -> (s: &'static str)
        ensures
            s@ == ecosystem_name(self),
    {
        match self {
            Ecosystem::AlmaLinux => "AlmaLinux",
            Ecosystem::Alpaquita => "Alpaquita",
            Ecosystem::Alpine => "Alpine",
            Ecosystem::Android => "Android",
            Ecosystem::AzureLinux => "Azure Linux",
            Ecosystem::BellSoftHardenedContainers => "BellSoft Hardened Containers",
            Ecosystem::Bioconductor => "Bioconductor",
            Ecosystem::Bitnami => "Bitnami",
            Ecosystem::Chainguard => "Chainguard",
            Ecosystem::CleanStart => "CleanStart",
            Ecosystem::ConanCenter => "ConanCenter",
            Ecosystem::Cran => "CRAN",
            Ecosystem::CratesIo => "crates.io",
            Ecosystem::Debian => "Debian",
            Ecosystem::DockerHardenedImages => "Docker Hardened Images",
            Ecosystem::Echo => "Echo",
            Ecosystem::FreeBSD => "FreeBSD",
            Ecosystem::Ghc => "GHC",
            Ecosystem::GitHubActions => "GitHub Actions",
            Ecosystem::Go => "Go",
            Ecosystem::Hackage => "Hackage",
            Ecosystem::Hex => "Hex",
            Ecosystem::Julia => "Julia",
            Ecosystem::Kubernetes => "Kubernetes",
            Ecosystem::Linux => "Linux",
            Ecosystem::Mageia => "Mageia",
            Ecosystem::Maven => "Maven",
            Ecosystem::MinimOS => "MinimOS",
            Ecosystem::Npm => "npm",
            Ecosystem::NuGet => "NuGet",
            Ecosystem::Opam => "opam",
            Ecosystem::OpenEuler => "openEuler",
            Ecosystem::OpenSUSE => "openSUSE",
            Ecosystem::OssFuzz => "OSS-Fuzz",
            Ecosystem::Packagist => "Packagist",
            Ecosystem::PhotonOS => "Photon OS",
            Ecosystem::Pub => "Pub",
            Ecosystem::PyPI => "PyPI",
            Ecosystem::RedHat => "Red Hat",
            Ecosystem::RockyLinux => "Rocky Linux",
            Ecosystem::Root => "Root",
            Ecosystem::RubyGems => "RubyGems",
            Ecosystem::Suse => "SUSE",
            Ecosystem::SwiftURL => "SwiftURL",
            Ecosystem::Ubuntu => "Ubuntu",
            Ecosystem::VSCode => "VSCode",
            Ecosystem::Wolfi => "Wolfi",
            Ecosystem::Git => "GIT",
        }
    }

    /// Parses a canonical OSV ecosystem name.
    ///
    /// # Errors
    /// - [`EcosystemParseError::VariantNotFound`] if `s` is the name of no ecosystem.
    pub fn from_name(s: &str) -> (r: Result<Ecosystem, EcosystemParseError>)
        ensures
            match r {
                Ok(e) => parse_ecosystem(s@) == Some(e),
                Err(_) => parse_ecosystem(s@) is None,
            },
    {
        let r = Self::find_by_name(s);
        proof {
            if let Ok(e) = r {
                let c = choose|c: Ecosystem| ecosystem_name(c) == s@;
                lemma_ecosystem_name_injective(c, e);
            }
        }
        r
    }

    fn find_by_name(s: &str) -> (r: Result<Ecosystem, EcosystemParseError>)
        ensures
            match r {
                Ok(e) => ecosystem_name(e) == s@,
                Err(_) => forall|e: Ecosystem| ecosystem_name(e) != s@,
            },
    {
        if str_eq(s, "AlmaLinux") {
            return Ok(Ecosystem::AlmaLinux);
        }
        if str_eq(s, "Alpaquita") {
            return Ok(Ecosystem::Alpaquita);
        }
        if str_eq(s, "Alpine") {
            return Ok(Ecosystem::Alpine);
        }
        if str_eq(s, "Android") {
            return Ok(Ecosystem::Android);
        }
        if str_eq(s, "Azure Linux") {
            return Ok(Ecosystem::AzureLinux);
        }
        if str_eq(s, "BellSoft Hardened Containers") {
            return Ok(Ecosystem::BellSoftHardenedContainers);
        }
        if str_eq(s, "Bioconductor") {
            return Ok(Ecosystem::Bioconductor);
        }
        if str_eq(s, "Bitnami") {
            return Ok(Ecosystem::Bitnami);
        }
        if str_eq(s, "Chainguard") {
            return Ok(Ecosystem::Chainguard);
        }
        if str_eq(s, "CleanStart") {
            return Ok(Ecosystem::CleanStart);
        }
        if str_eq(s, "ConanCenter") {
            return Ok(Ecosystem::ConanCenter);
        }
        if str_eq(s, "CRAN") {
            return Ok(Ecosystem::Cran);
        }
        if str_eq(s, "crates.io") {
            return Ok(Ecosystem::CratesIo);
        }
        if str_eq(s, "Debian") {
            return Ok(Ecosystem::Debian);
        }
        if str_eq(s, "Docker Hardened Images") {
            return Ok(Ecosystem::DockerHardenedImages);
        }
        if str_eq(s, "Echo") {
            return Ok(Ecosystem::Echo);
        }
        if str_eq(s, "FreeBSD") {
            return Ok(Ecosystem::FreeBSD);
        }
        if str_eq(s, "GHC") {
            return Ok(Ecosystem::Ghc);
        }
        if str_eq(s, "GitHub Actions") {
            return Ok(Ecosystem::GitHubActions);
        }
        if str_eq(s, "Go") {
            return Ok(Ecosystem::Go);
        }
        if str_eq(s, "Hackage") {
            return Ok(Ecosystem::Hackage);
        }
        if str_eq(s, "Hex") {
            return Ok(Ecosystem::Hex);
        }
        if str_eq(s, "Julia") {
            return Ok(Ecosystem::Julia);
        }
        if str_eq(s, "Kubernetes") {
            return Ok(Ecosystem::Kubernetes);
        }
        if str_eq(s, "Linux") {
            return Ok(Ecosystem::Linux);
        }
        if str_eq(s, "Mageia") {
            return Ok(Ecosystem::Mageia);
        }
        if str_eq(s, "Maven") {
            return Ok(Ecosystem::Maven);
        }
        if str_eq(s, "MinimOS") {
            return Ok(Ecosystem::MinimOS);
        }
        if str_eq(s, "npm") {
            return Ok(Ecosystem::Npm);
        }
        if str_eq(s, "NuGet") {
            return Ok(Ecosystem::NuGet);
        }
        if str_eq(s, "opam") {
            return Ok(Ecosystem::Opam);
        }
        if str_eq(s, "openEuler") {
            return Ok(Ecosystem::OpenEuler);
        }
        if str_eq(s, "openSUSE") {
            return Ok(Ecosystem::OpenSUSE);
        }
        if str_eq(s, "OSS-Fuzz") {
            return Ok(Ecosystem::OssFuzz);
        }
        if str_eq(s, "Packagist") {
            return Ok(Ecosystem::Packagist);
        }
        if str_eq(s, "Photon OS") {
            return Ok(Ecosystem::PhotonOS);
        }
        if str_eq(s, "Pub") {
            return Ok(Ecosystem::Pub);
        }
        if str_eq(s, "PyPI") {
            return Ok(Ecosystem::PyPI);
        }
        if str_eq(s, "Red Hat") {
            return Ok(Ecosystem::RedHat);
        }
        if str_eq(s, "Rocky Linux") {
            return Ok(Ecosystem::RockyLinux);
        }
        if str_eq(s, "Root") {
            return Ok(Ecosystem::Root);
        }
        if str_eq(s, "RubyGems") {
            return Ok(Ecosystem::RubyGems);
        }
        if str_eq(s, "SUSE") {
            return Ok(Ecosystem::Suse);
        }
        if str_eq(s, "SwiftURL") {
            return Ok(Ecosystem::SwiftURL);
        }
        if str_eq(s, "Ubuntu") {
            return Ok(Ecosystem::Ubuntu);
        }
        if str_eq(s, "VSCode") {
            return Ok(Ecosystem::VSCode);
        }
        if str_eq(s, "Wolfi") {
            return Ok(Ecosystem::Wolfi);
        }
        if str_eq(s, "GIT") {
            return Ok(Ecosystem::Git);
        }
        Err(EcosystemParseError::VariantNotFound)
    }
}

impl core::str::FromStr for Ecosystem {
    type Err = EcosystemParseError;

    fn from_str(s: &str) -> (r: Result<Self, Self::Err>)
        ensures
            match r {
                Ok(e) => parse_ecosystem(s@) == Some(e),
                Err(_) => parse_ecosystem(s@) is None,
            },
    {
        Ecosystem::from_name(s)
    }
}


/// Ecosystem name, optionally with a suffix (e.g. `"Debian:10"`).
#[derive(Debug, PartialEq, Eq, Hash)]
pub struct EcosystemWithSuffix(Ecosystem, Option<String>);

impl View for EcosystemWithSuffix {
    /// The ecosystem and the characters of the suffix, if any.
    type V = (Ecosystem, Option<Seq<char>>);

    closed spec fn view(&self) -> (Ecosystem, Option<Seq<char>>) {
        (
            self.0,
            match self.1 {
                Some(s) => Some(s@),
                None => None,
            },
        )
    }
}

/// The text of an ecosystem with its optional suffix: `"<ecosystem>"` or `"<ecosystem>:<suffix>"`.
pub open spec fn suffixed_text(v: (Ecosystem, Option<Seq<char>>)) -> Seq<char> {
    match v.1 {
        Some(x) => ecosystem_name(v.0) + seq![':'] + x,
        None => ecosystem_name(v.0),
    }
}

/// What `s` parses to: the part before the first `':'` names the ecosystem, the rest is the
/// suffix; without a `':'` the whole string names the ecosystem.
pub open spec fn parse_suffixed(s: Seq<char>) -> Option<(Ecosystem, Option<Seq<char>>)> {
    match split_once(s, ':') {
        Some((name, suffix)) => match parse_ecosystem(name) {
            Some(e) => Some((e, Some(suffix))),
            None => None,
        },
        None => match parse_ecosystem(s) {
            Some(e) => Some((e, None)),
            None => None,
        },
    }
}

/// Parsing the text of an ecosystem with suffix gives the same value back.
pub proof fn lemma_suffixed_roundtrip(v: (Ecosystem, Option<Seq<char>>))
    ensures
        parse_suffixed(suffixed_text(v)) == Some(v),
{
    let name = ecosystem_name(v.0);
    let t = suffixed_text(v);
    lemma_ecosystem_name_facts(v.0);
    lemma_ecosystem_roundtrip(v.0);
    match v.1 {
        Some(x) => {
            assert(t[name.len() as int] == ':');
            assert(is_first_index(t, ':', name.len() as int));
            lemma_first_index_unique(t, ':', name.len() as int);
            assert(t.subrange(0, name.len() as int) =~= name);
            assert(t.subrange(name.len() as int + 1, t.len() as int) =~= x);
        },
        None => {
            crate::text::lemma_first_index_none(t, ':');
        },
    }
}

/// A string that parses is exactly the text of what it parses to.
pub proof fn lemma_parsed_suffixed_text(s: Seq<char>)
    ensures
        parse_suffixed(s) matches Some(v) ==> suffixed_text(v) == s,
{
    match first_index_of(s, ':') {
        Some(i) => {
            let k = choose|k: int| is_first_index(s, ':', k);
            assert(is_first_index(s, ':', k));
            if parse_suffixed(s) is Some {
                lemma_parse_ecosystem_name(s.subrange(0, i));
                assert(s =~= s.subrange(0, i) + seq![':'] + s.subrange(i + 1, s.len() as int));
            }
        },
        None => {
            lemma_parse_ecosystem_name(s);
        },
    }
}

impl EcosystemWithSuffix {
    /// Returns the [`Ecosystem`] variant, without the suffix.
    pub fn ecosystem(&self) -> (e: Ecosystem)
        ensures
            e == self@.0,
    {
        self.0
    }

    /// Returns the optional suffix component (e.g. `"10"` for `"Debian:10"`),
    /// or `None` if no suffix is present.
    pub fn suffix(&self) -> (r: Option<&str>)
        ensures
            match r {
                Some(x) => self@.1 == Some(x@),
                None => self@.1 is None,
            },
    {
        match &self.1 {
            Some(s) => Some(s.as_str()),
            None => None,
        }
    }

    /// The text form: `"<ecosystem>"` or `"<ecosystem>:<suffix>"`.
    pub fn to_string(&self) -> (r: String)
        ensures
            r@ == suffixed_text(self@),
    {
        let mut r = String::from_str(self.0.as_str());
        if let Some(suffix) = &self.1 {
            proof {
                reveal_strlit(":");
            }
            r.append(":");
            r.append(suffix.as_str());
        }
        r
    }

    /// Parses `"<ecosystem>"` or `"<ecosystem>:<suffix>"`; the suffix starts after the
    /// first `':'`.
    ///
    /// # Errors
    /// - [`EcosystemParseError::VariantNotFound`] if the ecosystem part names no ecosystem.
    pub fn parse(s: &str) -> (r: Result<EcosystemWithSuffix, EcosystemParseError>)
        ensures
            match r {
                Ok(v) => parse_suffixed(s@) == Some(v@),
                Err(_) => parse_suffixed(s@) is None,
            },
    {
        match split_once_char(s, ':') {
            Some((name, suffix)) => {
                let e = Ecosystem::from_name(name)?;
                Ok(EcosystemWithSuffix(e, Some(String::from_str(suffix))))
            },
            None => {
                let e = Ecosystem::from_name(s)?;
                Ok(EcosystemWithSuffix(e, None))
            },
        }
    }
}

impl Clone for EcosystemWithSuffix {
    fn clone(&self) -> (r: EcosystemWithSuffix)
        ensures
            r == *self,
    {
        let suffix = match &self.1 {
            Some(s) => Some(s.clone()),
            None => None,
        };
        EcosystemWithSuffix(self.0, suffix)
    }
}

impl core::str::FromStr for EcosystemWithSuffix {
    type Err = EcosystemParseError;

    fn from_str(s: &str) -> (r: Result<Self, Self::Err>)
        ensures
            match r {
                Ok(v) => parse_suffixed(s@) == Some(v@),
                Err(_) => parse_suffixed(s@) is None,
            },
    {
        EcosystemWithSuffix::parse(s)
    }
}

} // verus!
