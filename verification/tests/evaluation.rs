use osv::evaluation::{event_version, included_in_ranges, needs_comparison, range_contains};
use osv::package::Package as ManifestPackage;
use osv::types::Package;
use osv::{evaluate, Affected, Event, Outcome, Range, RangeComparisons, RangeType, VersionCmp, VersionError};

fn introduced(v: &str) -> Event {
    Event::Introduced { introduced: v.to_string() }
}

fn fixed(v: &str) -> Event {
    Event::Fixed { fixed: v.to_string() }
}

fn last_affected(v: &str) -> Event {
    Event::LastAffected { last_affected: v.to_string() }
}

fn limit(v: &str) -> Event {
    Event::Limit { limit: v.to_string() }
}

/// A dotted-numbers comparison, standing in for the ecosystem-aware version parser.
fn compare(a: &str, b: &str) -> Outcome {
    let parse = |s: &str| -> Result<Vec<u64>, VersionError> {
        s.split('.')
            .map(|p| p.parse::<u64>().map_err(|_| VersionError::Parse(format!("bad version {s}"))))
            .collect()
    };
    let (a, b) = (parse(a)?, parse(b)?);
    Ok(match a.cmp(&b) {
        std::cmp::Ordering::Less => VersionCmp::Less,
        std::cmp::Ordering::Equal => VersionCmp::Equal,
        std::cmp::Ordering::Greater => VersionCmp::Greater,
    })
}

fn outcomes(version: &str, events: &[Event]) -> Vec<Outcome> {
    events
        .iter()
        .map(|e| {
            if needs_comparison(e) {
                compare(version, event_version(e))
            } else {
                Ok(VersionCmp::Incomparable)
            }
        })
        .collect()
}

/// The comparisons between the versions of the events.
fn between(events: &[Event]) -> Vec<Vec<VersionCmp>> {
    events
        .iter()
        .map(|a| {
            events
                .iter()
                .map(|b| {
                    if needs_comparison(a) && needs_comparison(b) {
                        compare(event_version(a), event_version(b)).unwrap_or(VersionCmp::Incomparable)
                    } else {
                        VersionCmp::Incomparable
                    }
                })
                .collect()
        })
        .collect()
}

fn comparisons(version: &str, events: &[Event]) -> RangeComparisons {
    RangeComparisons { with_version: outcomes(version, events), between: between(events) }
}

fn no_comparisons() -> RangeComparisons {
    RangeComparisons { with_version: vec![], between: vec![] }
}

fn contains(version: &str, events: &[Event]) -> bool {
    let forward: Vec<Event> = events.to_vec();
    let backward: Vec<Event> = events.iter().rev().cloned().collect();
    let mut rotated: Vec<Event> = events.to_vec();
    if !rotated.is_empty() {
        rotated.rotate_left(1);
    }
    let r1 = range_contains(&forward, &comparisons(version, &forward)).unwrap();
    let r2 = range_contains(&backward, &comparisons(version, &backward)).unwrap();
    let r3 = range_contains(&rotated, &comparisons(version, &rotated)).unwrap();
    // The events may come in any order.
    assert_eq!(r1, r2);
    assert_eq!(r1, r3);
    r1
}

#[test]
fn range_contains_test() {
    assert!(!contains("1.5.0", &[]), "no events means no affected range");
    assert!(contains("1.5.0", &[introduced("1.0.0"), fixed("2.0.0")]), "inside window");
    assert!(contains("1.0.0", &[introduced("1.0.0"), fixed("2.0.0")]), "introduced inclusive");
    assert!(!contains("2.0.0", &[introduced("1.0.0"), fixed("2.0.0")]), "fixed exclusive");
    assert!(!contains("2.0.1", &[introduced("1.0.0"), fixed("2.0.0")]), "above fixed");
    assert!(!contains("0.9.0", &[introduced("1.0.0"), fixed("2.0.0")]), "below introduced");
    assert!(contains("0.9.0", &[introduced("0"), fixed("2.0.0")]), "introduced zero");
    assert!(contains("2.0.0", &[introduced("0"), last_affected("2.0.0")]), "last_affected inclusive");
    assert!(!contains("2.0.1", &[introduced("0"), last_affected("2.0.0")]), "above last_affected");
    assert!(contains("1.5.9", &[introduced("0"), limit("2.0.0")]), "inside limit window");
    assert!(!contains("2.0.1", &[introduced("0"), limit("2.0.0")]), "limit exclusive");
    assert!(!contains("2.0.0", &[introduced("0"), limit("2.0.0")]), "limit itself excluded");
}

#[test]
fn limit_bars_a_later_window() {
    let events = [introduced("0"), fixed("1.0.0"), introduced("3.0.0"), limit("2.0.0")];
    assert!(!contains("3.5.0", &events));
    assert!(contains("0.5.0", &events));
}

#[test]
fn later_introduced_reopens_the_window() {
    // Two windows, [1.0.0, 2.0.0) and [3.0.0, 4.0.0): in version order the second
    // `introduced` opens the window again.
    let events = [introduced("1.0.0"), fixed("2.0.0"), introduced("3.0.0"), fixed("4.0.0")];
    assert!(contains("3.5.0", &events));
    assert!(contains("1.5.0", &events));
    assert!(!contains("2.5.0", &events));
    assert!(!contains("4.0.0", &events));
    assert!(!contains("0.5.0", &events));
}

#[test]
fn several_patched_lines() {
    // Each supported release line got its own fix.
    let events = [
        introduced("0"),
        fixed("24.0.5"),
        introduced("25.0.0"),
        fixed("36.0.3"),
        introduced("37.0.0"),
        fixed("37.0.3"),
        introduced("38.0.0"),
        fixed("38.0.3"),
    ];
    assert!(contains("38.0.0", &events));
    assert!(!contains("38.0.3", &events));
    assert!(contains("24.0.4", &events));
    assert!(!contains("24.0.5", &events));
    assert!(!contains("36.5.0", &events));
    assert!(contains("37.0.2", &events));
}

#[test]
fn fix_and_introduction_of_one_version_leave_it_unaffected() {
    assert!(!contains("1.0.0", &[introduced("1.0.0"), fixed("1.0.0")]));
    assert!(!contains("1.5.0", &[introduced("1.0.0"), fixed("1.0.0")]));
}

#[test]
fn incomparable_versions_do_not_count() {
    let events = vec![introduced("1.0.0"), fixed("2.0.0")];
    let incomparable = RangeComparisons {
        with_version: vec![Ok(VersionCmp::Incomparable), Ok(VersionCmp::Incomparable)],
        between: between(&events),
    };
    assert_eq!(range_contains(&events, &incomparable), Ok(false));
    let opened = RangeComparisons {
        with_version: vec![Ok(VersionCmp::Greater), Ok(VersionCmp::Incomparable)],
        between: between(&events),
    };
    assert_eq!(range_contains(&events, &opened), Ok(true));
}

#[test]
fn first_failed_comparison_is_reported() {
    let events = vec![introduced("0"), fixed("x.y"), limit("also bad")];
    let comps = RangeComparisons {
        with_version: vec![
            Err(VersionError::Parse("never read".to_string())),
            Err(VersionError::Parse("fixed".to_string())),
            Err(VersionError::Parse("limit".to_string())),
        ],
        between: between(&events),
    };
    assert_eq!(range_contains(&events, &comps), Err(VersionError::Parse("fixed".to_string())));
}

fn range(range_type: RangeType, events: Vec<Event>) -> Range {
    Range { range_type, repo: None, events, database_specific: None }
}

fn affected(ecosystem: &str, name: &str, ranges: Vec<Range>, versions: Vec<&str>) -> Affected {
    Affected {
        package: Some(Package {
            ecosystem: ecosystem.parse().unwrap(),
            name: name.to_string(),
            purl: None,
        }),
        severity: vec![],
        ranges,
        versions: versions.into_iter().map(|v| v.to_string()).collect(),
        ecosystem_specific: None,
        database_specific: None,
    }
}

fn pkg(name: &str, version: &str, ecosystem: &str) -> ManifestPackage {
    ManifestPackage {
        name: name.to_owned(),
        version: version.to_owned(),
        ecosystem: ecosystem.parse().unwrap(),
    }
}

fn plan(p: &ManifestPackage, a: &Affected) -> Result<Vec<RangeComparisons>, VersionError> {
    compare(&p.version, "0")?;
    Ok(a.ranges.iter().map(|r| comparisons(&p.version, &r.events)).collect())
}

fn eval(p: &ManifestPackage, a: &Affected) -> Result<bool, VersionError> {
    evaluate(p, a, &plan(p, a))
}

#[test]
fn evaluate_window_of_one_range() {
    let vuln = affected(
        "crates.io",
        "serde",
        vec![range(RangeType::ECOSYSTEM, vec![introduced("1.0.0"), fixed("1.0.200")])],
        vec![],
    );
    assert_eq!(eval(&pkg("serde", "1.0.100", "crates.io"), &vuln), Ok(true));
    assert_eq!(eval(&pkg("serde", "1.0.200", "crates.io"), &vuln), Ok(false));
    assert_eq!(eval(&pkg("serde", "1.0.210", "crates.io"), &vuln), Ok(false));
    assert_eq!(eval(&pkg("serde", "0.9.0", "crates.io"), &vuln), Ok(false));
}

#[test]
fn evaluate_identity_checks() {
    let vuln = affected(
        "crates.io",
        "wasmtime",
        vec![range(RangeType::SEMVER, vec![introduced("0"), fixed("38.0.3")])],
        vec![],
    );
    assert_eq!(eval(&pkg("wasmtime", "38.0.0", "crates.io"), &vuln), Ok(true));
    assert_eq!(eval(&pkg("wasmtime", "38.0.3", "crates.io"), &vuln), Ok(false));
    assert_eq!(eval(&pkg("tokio", "38.0.0", "crates.io"), &vuln), Ok(false));
    assert_eq!(eval(&pkg("wasmtime", "38.0.0", "npm"), &vuln), Ok(false));

    let mut no_package = vuln.clone();
    no_package.package = None;
    assert_eq!(eval(&pkg("wasmtime", "38.0.0", "crates.io"), &no_package), Ok(false));
}

#[test]
fn evaluate_ignores_the_suffix() {
    let vuln = affected(
        "Debian:11",
        "openssl",
        vec![range(RangeType::ECOSYSTEM, vec![introduced("0"), fixed("3.0.9")])],
        vec![],
    );
    assert_eq!(eval(&pkg("openssl", "3.0.2", "Debian:12"), &vuln), Ok(true));
    assert_eq!(eval(&pkg("openssl", "3.0.2", "Debian"), &vuln), Ok(true));
}

#[test]
fn evaluate_without_constraints_affects_all_versions() {
    let vuln = affected("PyPI", "evil", vec![], vec![]);
    assert_eq!(evaluate(&pkg("evil", "not a version", "PyPI"), &vuln, &Err(VersionError::Parse("x".into()))), Ok(true));
}

#[test]
fn evaluate_listed_version_by_string() {
    let vuln = affected(
        "Go",
        "github.com/Tencent/WeKnora",
        vec![range(RangeType::SEMVER, vec![introduced("0"), fixed("0.2.5")])],
        vec!["v0.2.0-rc1", "0.2.0"],
    );
    assert_eq!(eval(&pkg("github.com/Tencent/WeKnora", "0.2.0", "Go"), &vuln), Ok(true));
    assert_eq!(eval(&pkg("github.com/Tencent/WeKnora", "0.3.0", "Go"), &vuln), Ok(false));
    // Listed versions match by string, before any parsing.
    assert_eq!(
        evaluate(
            &pkg("github.com/Tencent/WeKnora", "v0.2.0-rc1", "Go"),
            &vuln,
            &Err(VersionError::Parse("unparsable".into()))
        ),
        Ok(true)
    );
}

#[test]
fn evaluate_reports_unparsable_package_version() {
    let vuln = affected(
        "npm",
        "left-pad",
        vec![range(RangeType::SEMVER, vec![introduced("0"), fixed("1.3.0")])],
        vec![],
    );
    assert_eq!(
        eval(&pkg("left-pad", "one.two", "npm"), &vuln),
        Err(VersionError::Parse("bad version one.two".to_string()))
    );
}

#[test]
fn evaluate_skips_git_ranges() {
    let vuln = affected(
        "npm",
        "left-pad",
        vec![
            range(RangeType::GIT, vec![introduced("0"), fixed("deadbeef")]),
            range(RangeType::SEMVER, vec![introduced("1.0.0"), fixed("1.3.0")]),
        ],
        vec![],
    );
    // The GIT range gets no outcomes: it is never evaluated.
    let outcomes = Ok(vec![no_comparisons(), comparisons("1.1.0", &vuln.ranges[1].events)]);
    assert_eq!(evaluate(&pkg("left-pad", "1.1.0", "npm"), &vuln, &outcomes), Ok(true));
    let only_git = affected("npm", "left-pad", vec![vuln.ranges[0].clone()], vec![]);
    assert_eq!(included_in_ranges(&only_git.ranges, &vec![no_comparisons()]), Ok(false));
}

#[test]
fn first_matching_range_decides() {
    let ranges = vec![
        range(RangeType::ECOSYSTEM, vec![introduced("1.0.0"), fixed("2.0.0")]),
        range(RangeType::ECOSYSTEM, vec![introduced("1.0.0"), fixed("bad")]),
    ];
    let outs = vec![comparisons("1.5.0", &ranges[0].events), comparisons("1.5.0", &ranges[1].events)];
    // The first range holds the version: the failing second range is not reached.
    assert_eq!(included_in_ranges(&ranges, &outs), Ok(true));
    let outs = vec![comparisons("2.5.0", &ranges[0].events), comparisons("2.5.0", &ranges[1].events)];
    assert_eq!(
        included_in_ranges(&ranges, &outs),
        Err(VersionError::Parse("bad version bad".to_string()))
    );
}
