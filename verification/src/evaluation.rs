//! The evaluation algorithm of <https://ossf.github.io/osv-schema/#evaluation>: is a pinned
//! package affected by an OSV `affected` entry?
//!
//! Versions are compared by an ecosystem-aware version parser that lives outside this
//! library. The functions here take what it reported for each range: how the package version
//! compares with the version of each event, or why the comparison could not be made, and how
//! the versions of the events compare with each other, which puts the events in version order
//! as the schema's algorithm takes them.
use vstd::prelude::*;

use crate::package::Package;
use crate::types::{Affected, Event, Range, RangeType};
use crate::version::VersionError;

verus! {

/// How the version under evaluation compares with the version an event names.
#[derive(Debug, Clone, Copy, PartialEq, Eq, Structural)]
pub enum VersionCmp {
    /// The evaluated version is lower.
    Less,
    /// The versions are equal.
    Equal,
    /// The evaluated version is higher.
    Greater,
    /// The version parser cannot order the two versions.
    Incomparable,
}

/// What comparing the evaluated version with the version of one event gave: the ordering, or
/// the error of parsing the event's version.
pub type Outcome = Result<VersionCmp, VersionError>;

/// The version string or commit hash an event names.
pub open spec fn named_version(e: Event) -> Seq<char> {
    match e {
        Event::Introduced { introduced } => introduced@,
        Event::Fixed { fixed } => fixed@,
        Event::LastAffected { last_affected } => last_affected@,
        Event::Limit { limit } => limit@,
    }
}

/// The event is `introduced: "0"`, the beginning of all versions: it opens the affected window
/// without any comparison.
pub open spec fn is_introduced_zero(e: Event) -> bool {
    e is Introduced && named_version(e) == "0"@
}

/// The event's version must be parsed and compared.
pub open spec fn is_compared(e: Event) -> bool {
    !is_introduced_zero(e)
}

/// The compared version is at or above the event's version.
pub open spec fn at_or_above(o: Outcome) -> bool {
    o == Ok::<VersionCmp, VersionError>(VersionCmp::Greater) || o == Ok::<VersionCmp, VersionError>(
        VersionCmp::Equal,
    )
}

/// The event opens the affected window: an `introduced` at or below the version.
pub open spec fn opens_window(e: Event, o: Outcome) -> bool {
    e is Introduced && (is_introduced_zero(e) || at_or_above(o))
}

/// The event closes the affected window: a `fixed` at or below the version (exclusive bound),
/// or a `last_affected` below it (inclusive bound).
pub open spec fn closes_window(e: Event, o: Outcome) -> bool {
    (e is Fixed && at_or_above(o)) || (e is LastAffected && o == Ok::<VersionCmp, VersionError>(
        VersionCmp::Greater,
    ))
}

/// The event is a `limit` at or below the version (exclusive upper bound).
pub open spec fn hits_limit(e: Event, o: Outcome) -> bool {
    e is Limit && at_or_above(o)
}

/// What the version parser reported for the events of one range.
#[derive(Debug)]
pub struct RangeComparisons {
    /// `with_version[i]`: how the evaluated version compares with the version of event `i`, or
    /// the error of parsing the latter.
    pub with_version: Vec<Outcome>,
    /// `between[j][i]`: how the version of event `j` compares with the version of event `i`
    /// (`Incomparable` where either could not be parsed).
    pub between: Vec<Vec<VersionCmp>>,
}

/// The comparisons between the events of a range, as a matrix.
pub open spec fn between_view(c: RangeComparisons) -> Seq<Seq<VersionCmp>> {
    c.between@.map_values(|row: Vec<VersionCmp>| row@)
}

/// The comparisons fit a range of `n` events: one per event, and one per two events.
pub open spec fn comparisons_fit(n: int, c: RangeComparisons) -> bool {
    &&& c.with_version@.len() == n
    &&& c.between@.len() == n
    &&& forall|j: int| 0 <= j < n ==> #[trigger] c.between@[j]@.len() == n
}

/// Event `j` comes after event `i` once the events are sorted by version, the closing events
/// of a version after its opening ones: `introduced: "0"` comes first, and otherwise event `j`
/// is not below event `i`.
pub open spec fn follows(events: Seq<Event>, between: Seq<Seq<VersionCmp>>, j: int, i: int) -> bool {
    is_introduced_zero(events[i]) || between[j][i] != VersionCmp::Less
}

/// Event `j` closes again the window that event `i` opened.
pub open spec fn closes_after(
    events: Seq<Event>,
    outcomes: Seq<Outcome>,
    between: Seq<Seq<VersionCmp>>,
    j: int,
    i: int,
) -> bool {
    0 <= j < events.len() && closes_window(events[j], outcomes[j]) && follows(events, between, j, i)
}

/// Event `i` opens the window and no event after it in version order closes it again: it is
/// the greatest of the events at or below the version (a `last_affected` equal to the version
/// does not close the window).
pub open spec fn stays_open(
    events: Seq<Event>,
    outcomes: Seq<Outcome>,
    between: Seq<Seq<VersionCmp>>,
    i: int,
) -> bool {
    &&& 0 <= i < events.len()
    &&& opens_window(events[i], outcomes[i])
    &&& !exists|j: int| #[trigger] closes_after(events, outcomes, between, j, i)
}

/// The version lies inside the window that the events describe, in version order, whatever the
/// order of the list: some `introduced` at or below it is not followed by a `fixed` at or below
/// it or a `last_affected` below it, and no `limit` at or below it bars it.
pub open spec fn range_affected(events: Seq<Event>, outcomes: Seq<Outcome>, between: Seq<Seq<VersionCmp>>) -> bool {
    &&& exists|i: int| #[trigger] stays_open(events, outcomes, between, i)
    &&& !exists|i: int| 0 <= i < events.len() && hits_limit(events[i], outcomes[i])
}

/// The state after the first `n` events of the evaluation loop of the OSV schema: an
/// `introduced` at or below the version sets it, a `fixed` at or below it or a `last_affected`
/// below it clears it, other events leave it.
pub open spec fn toggled(events: Seq<Event>, outcomes: Seq<Outcome>, n: int) -> bool
    decreases n,
{
    if n <= 0 {
        false
    } else if opens_window(events[n - 1], outcomes[n - 1]) {
        true
    } else if closes_window(events[n - 1], outcomes[n - 1]) {
        false
    } else {
        toggled(events, outcomes, n - 1)
    }
}

/// The list is sorted by version as the OSV schema sorts events before its evaluation loop:
/// between an opening and a closing event, the one that [`follows`] comes later in the list.
pub open spec fn in_version_order(events: Seq<Event>, between: Seq<Seq<VersionCmp>>) -> bool {
    forall|i: int, j: int|
        0 <= i < events.len() && 0 <= j < events.len() && events[i] is Introduced && (
        events[j] is Fixed || events[j] is LastAffected) ==> (i < j <==> #[trigger] follows(
            events,
            between,
            j,
            i,
        ))
}

/// The comparison for event `i` was needed and failed.
pub open spec fn fails_at(events: Seq<Event>, outcomes: Seq<Outcome>, i: int) -> bool {
    0 <= i < events.len() && is_compared(events[i]) && outcomes[i] is Err
}

/// Event `i` is the first whose needed comparison failed.
pub open spec fn first_failure(events: Seq<Event>, outcomes: Seq<Outcome>, i: int) -> bool {
    fails_at(events, outcomes, i) && forall|j: int| 0 <= j < i ==> !fails_at(events, outcomes, j)
}

/// Some needed comparison failed.
pub open spec fn has_failure(events: Seq<Event>, outcomes: Seq<Outcome>) -> bool {
    exists|i: int| fails_at(events, outcomes, i)
}

/// What evaluating one range gives: the error of its first failed comparison, or whether the
/// version lies in its window.
pub open spec fn range_result(events: Seq<Event>, outcomes: Seq<Outcome>, between: Seq<Seq<VersionCmp>>) -> Result<
    bool,
    VersionError,
> {
    if exists|i: int| first_failure(events, outcomes, i) {
        let i = choose|i: int| first_failure(events, outcomes, i);
        Err(outcomes[i]->Err_0)
    } else {
        Ok(range_affected(events, outcomes, between))
    }
}

/// The comparisons fit each non-`GIT` range.
pub open spec fn outcomes_fit(ranges: Seq<Range>, outcomes: Seq<RangeComparisons>) -> bool {
    &&& outcomes.len() == ranges.len()
    &&& forall|k: int|
        0 <= k < ranges.len() && ranges[k].range_type != RangeType::GIT ==> comparisons_fit(
            ranges[k].events@.len() as int,
            #[trigger] outcomes[k],
        )
}

/// What evaluating the ranges from index `k` on gives: `GIT` ranges are skipped; the first
/// range that fails or holds the version decides; otherwise the version is not affected.
pub open spec fn ranges_result_from(ranges: Seq<Range>, outcomes: Seq<RangeComparisons>, k: int) -> Result<
    bool,
    VersionError,
>
    decreases ranges.len() - k,
{
    if k < 0 || k >= ranges.len() {
        Ok(false)
    } else if ranges[k].range_type == RangeType::GIT {
        ranges_result_from(ranges, outcomes, k + 1)
    } else {
        match range_result(ranges[k].events@, outcomes[k].with_version@, between_view(outcomes[k])) {
            Err(e) => Err(e),
            Ok(true) => Ok(true),
            Ok(false) => ranges_result_from(ranges, outcomes, k + 1),
        }
    }
}

/// The entry names the package: same ecosystem (the suffix is not compared) and same name.
pub open spec fn names_package(p: Package, affected: Affected) -> bool {
    affected.package matches Some(pkg) && pkg.ecosystem@.0 == p.ecosystem@.0 && pkg.name@ == p.name@
}

/// The OSV evaluation of package `p` against `affected`, given what the version parser
/// reported: the error of parsing the package version, or the comparisons for each range.
pub open spec fn evaluation(p: Package, affected: Affected, outcomes: Result<Seq<RangeComparisons>, VersionError>) -> Result<
    bool,
    VersionError,
> {
    if !names_package(p, affected) {
        Ok(false)
    } else if affected.versions@.len() == 0 && affected.ranges@.len() == 0 {
        Ok(true)
    } else if exists|i: int|
        0 <= i < affected.versions@.len() && #[trigger] affected.versions@[i]@ == p.version@ {
        Ok(true)
    } else {
        match outcomes {
            Err(e) => Err(e),
            Ok(o) => ranges_result_from(affected.ranges@, o, 0),
        }
    }
}

/// There is at most one first failure.
proof fn lemma_first_failure_unique(events: Seq<Event>, outcomes: Seq<Outcome>, i: int, j: int)
    requires
        first_failure(events, outcomes, i),
        first_failure(events, outcomes, j),
    ensures
        i == j,
{
}

/// `p` is a permutation of `0..n`.
pub open spec fn is_permutation(p: Seq<int>, n: int) -> bool {
    &&& p.len() == n
    &&& forall|k: int| 0 <= k < n ==> 0 <= #[trigger] p[k] < n
    &&& forall|k: int, l: int| 0 <= k < n && 0 <= l < n && k != l ==> #[trigger] p[k] != #[trigger] p[l]
    &&& forall|i: int| 0 <= i < n ==> #[trigger] reached(p, n, i)
}

/// Some position of the first `n` of `p` holds `i`.
pub open spec fn reached(p: Seq<int>, n: int, i: int) -> bool {
    exists|k: int| 0 <= k < n && #[trigger] p[k] == i
}

/// Evaluating a range does not depend on the order of its events: listing the events (with
/// their comparisons) in another order gives the same window and fails alike.
pub proof fn lemma_range_order_free(
    e1: Seq<Event>,
    o1: Seq<Outcome>,
    b1: Seq<Seq<VersionCmp>>,
    p: Seq<int>,
    e2: Seq<Event>,
    o2: Seq<Outcome>,
    b2: Seq<Seq<VersionCmp>>,
)
    requires
        o1.len() == e1.len(),
        is_permutation(p, e1.len() as int),
        e2.len() == e1.len(),
        o2.len() == e1.len(),
        forall|k: int| 0 <= k < e1.len() ==> e2[k] == e1[#[trigger] p[k]] && o2[k] == o1[p[k]],
        forall|k: int, l: int|
            0 <= k < e1.len() && 0 <= l < e1.len() ==> #[trigger] b2[k][l] == b1[p[k]][p[l]],
    ensures
        range_affected(e1, o1, b1) == range_affected(e2, o2, b2),
        has_failure(e1, o1) == has_failure(e2, o2),
{
    let n = e1.len() as int;
    if exists|i: int| #[trigger] stays_open(e1, o1, b1, i) {
        let i = choose|i: int| #[trigger] stays_open(e1, o1, b1, i);
        assert(reached(p, n, i));
        let k = choose|k: int| 0 <= k < n && #[trigger] p[k] == i;
        assert(stays_open(e2, o2, b2, k)) by {
            if exists|l: int| #[trigger] closes_after(e2, o2, b2, l, k) {
                let l = choose|l: int| #[trigger] closes_after(e2, o2, b2, l, k);
                assert(b2[l][k] == b1[p[l]][p[k]]);
                assert(closes_after(e1, o1, b1, p[l], i));
            }
        }
    }
    if exists|k: int| #[trigger] stays_open(e2, o2, b2, k) {
        let k = choose|k: int| #[trigger] stays_open(e2, o2, b2, k);
        let i = p[k];
        assert(stays_open(e1, o1, b1, i)) by {
            if exists|j: int| #[trigger] closes_after(e1, o1, b1, j, i) {
                let j = choose|j: int| #[trigger] closes_after(e1, o1, b1, j, i);
                assert(reached(p, n, j));
                let l = choose|l: int| 0 <= l < n && #[trigger] p[l] == j;
                assert(b2[l][k] == b1[p[l]][p[k]]);
                assert(closes_after(e2, o2, b2, l, k));
            }
        }
    }
    if exists|i: int| 0 <= i < n && hits_limit(e1[i], o1[i]) {
        let i = choose|i: int| 0 <= i < n && hits_limit(e1[i], o1[i]);
        assert(reached(p, n, i));
        let k = choose|k: int| 0 <= k < n && #[trigger] p[k] == i;
        assert(hits_limit(e2[k], o2[k]));
    }
    if exists|k: int| 0 <= k < n && hits_limit(e2[k], o2[k]) {
        let k = choose|k: int| 0 <= k < n && hits_limit(e2[k], o2[k]);
        assert(hits_limit(e1[p[k]], o1[p[k]]));
    }
    if has_failure(e1, o1) {
        let i = choose|i: int| fails_at(e1, o1, i);
        assert(reached(p, n, i));
        let k = choose|k: int| 0 <= k < n && #[trigger] p[k] == i;
        assert(fails_at(e2, o2, k));
    }
    if has_failure(e2, o2) {
        let k = choose|k: int| fails_at(e2, o2, k);
        assert(fails_at(e1, o1, p[k]));
    }
}

/// The evaluation loop has set the state after `n` events exactly when some opening event
/// among them is followed, within them, by no closing event.
proof fn lemma_toggled(events: Seq<Event>, outcomes: Seq<Outcome>, n: int)
    requires
        0 <= n <= events.len(),
        outcomes.len() == events.len(),
    ensures
        toggled(events, outcomes, n) <==> exists|i: int|
            0 <= i < n && #[trigger] opens_window(events[i], outcomes[i]) && forall|j: int|
                i < j < n ==> !#[trigger] closes_window(events[j], outcomes[j]),
    decreases n,
{
    if n > 0 {
        lemma_toggled(events, outcomes, n - 1);
        let m = n - 1;
        if opens_window(events[m], outcomes[m]) {
            assert(opens_window(events[m], outcomes[m]));
        } else if closes_window(events[m], outcomes[m]) {
            if exists|i: int|
                0 <= i < n && #[trigger] opens_window(events[i], outcomes[i]) && forall|j: int|
                    i < j < n ==> !#[trigger] closes_window(events[j], outcomes[j]) {
                let i = choose|i: int|
                    0 <= i < n && #[trigger] opens_window(events[i], outcomes[i]) && forall|j: int|
                        i < j < n ==> !#[trigger] closes_window(events[j], outcomes[j]);
                assert(i != m);
                assert(!closes_window(events[m], outcomes[m]));
            }
        } else {
            if exists|i: int|
                0 <= i < n && #[trigger] opens_window(events[i], outcomes[i]) && forall|j: int|
                    i < j < n ==> !#[trigger] closes_window(events[j], outcomes[j]) {
                let i = choose|i: int|
                    0 <= i < n && #[trigger] opens_window(events[i], outcomes[i]) && forall|j: int|
                        i < j < n ==> !#[trigger] closes_window(events[j], outcomes[j]);
                assert(i < m);
                assert(forall|j: int| i < j < m ==> !#[trigger] closes_window(events[j], outcomes[j]));
            }
            if exists|i: int|
                0 <= i < m && #[trigger] opens_window(events[i], outcomes[i]) && forall|j: int|
                    i < j < m ==> !#[trigger] closes_window(events[j], outcomes[j]) {
                let i = choose|i: int|
                    0 <= i < m && #[trigger] opens_window(events[i], outcomes[i]) && forall|j: int|
                        i < j < m ==> !#[trigger] closes_window(events[j], outcomes[j]);
                assert(forall|j: int| i < j < n ==> !#[trigger] closes_window(events[j], outcomes[j]));
            }
        }
    }
}

/// On events sorted by version, the evaluation loop of the OSV schema gives the window that
/// [`range_affected`] states: the range holds the version exactly when the loop ends in the
/// affected state and no limit bars it.
pub proof fn lemma_range_affected_is_schema_loop(
    events: Seq<Event>,
    outcomes: Seq<Outcome>,
    between: Seq<Seq<VersionCmp>>,
)
    requires
        outcomes.len() == events.len(),
        in_version_order(events, between),
    ensures
        range_affected(events, outcomes, between) == (toggled(events, outcomes, events.len() as int)
            && !exists|i: int| 0 <= i < events.len() && hits_limit(events[i], outcomes[i])),
{
    let n = events.len() as int;
    lemma_toggled(events, outcomes, n);
    if exists|i: int| #[trigger] stays_open(events, outcomes, between, i) {
        let i = choose|i: int| #[trigger] stays_open(events, outcomes, between, i);
        assert forall|j: int| i < j < n implies !#[trigger] closes_window(events[j], outcomes[j]) by {
            if closes_window(events[j], outcomes[j]) {
                assert(follows(events, between, j, i));
                assert(closes_after(events, outcomes, between, j, i));
            }
        }
        assert(opens_window(events[i], outcomes[i]));
    }
    if toggled(events, outcomes, n) {
        let i = choose|i: int|
            0 <= i < n && #[trigger] opens_window(events[i], outcomes[i]) && forall|j: int|
                i < j < n ==> !#[trigger] closes_window(events[j], outcomes[j]);
        assert(stays_open(events, outcomes, between, i)) by {
            if exists|j: int| #[trigger] closes_after(events, outcomes, between, j, i) {
                let j = choose|j: int| #[trigger] closes_after(events, outcomes, between, j, i);
                assert(follows(events, between, j, i));
                assert(i < j);
                assert(!closes_window(events[j], outcomes[j]));
            }
        }
    }
}

/// A range evaluates to an error exactly when some needed comparison failed.
pub proof fn lemma_range_result_fails(events: Seq<Event>, outcomes: Seq<Outcome>, between: Seq<Seq<VersionCmp>>)
    ensures
        range_result(events, outcomes, between) is Err <==> has_failure(events, outcomes),
{
    if has_failure(events, outcomes) {
        let i = choose|i: int| fails_at(events, outcomes, i);
        lemma_first_failure_exists(events, outcomes, i);
    }
}

/// Below a failure there is a first one.
proof fn lemma_first_failure_exists(events: Seq<Event>, outcomes: Seq<Outcome>, i: int)
    requires
        fails_at(events, outcomes, i),
    ensures
        exists|k: int| first_failure(events, outcomes, k),
    decreases i,
{
    if !first_failure(events, outcomes, i) {
        let j = choose|j: int| 0 <= j < i && fails_at(events, outcomes, j);
        lemma_first_failure_exists(events, outcomes, j);
    }
}

/// No needed comparison of a non-`GIT` range fails.
pub open spec fn no_failure(ranges: Seq<Range>, outcomes: Seq<RangeComparisons>) -> bool {
    forall|k: int|
        0 <= k < ranges.len() && ranges[k].range_type != RangeType::GIT ==> !has_failure(
            ranges[k].events@,
            #[trigger] outcomes[k].with_version@,
        )
}

/// Some non-`GIT` range from index `k` on holds the version.
pub open spec fn some_range_affected(ranges: Seq<Range>, outcomes: Seq<RangeComparisons>, k: int) -> bool {
    exists|m: int|
        k <= m < ranges.len() && ranges[m].range_type != RangeType::GIT && range_affected(
            ranges[m].events@,
            #[trigger] outcomes[m].with_version@,
            between_view(outcomes[m]),
        )
}

/// Without failures, the ranges from index `k` on hold the version exactly when one of them
/// does.
proof fn lemma_ranges_without_failure(ranges: Seq<Range>, outcomes: Seq<RangeComparisons>, k: int)
    requires
        0 <= k,
        no_failure(ranges, outcomes),
    ensures
        ranges_result_from(ranges, outcomes, k) == Ok::<bool, VersionError>(
            some_range_affected(ranges, outcomes, k),
        ),
    decreases ranges.len() - k,
{
    if k < ranges.len() {
        lemma_ranges_without_failure(ranges, outcomes, k + 1);
        if ranges[k].range_type != RangeType::GIT {
            let c = outcomes[k];
            lemma_range_result_fails(ranges[k].events@, c.with_version@, between_view(c));
            assert(!has_failure(ranges[k].events@, outcomes[k].with_version@));
        }
        if some_range_affected(ranges, outcomes, k) {
            let m = choose|m: int|
                k <= m < ranges.len() && ranges[m].range_type != RangeType::GIT && range_affected(
                    ranges[m].events@,
                    #[trigger] outcomes[m].with_version@,
                    between_view(outcomes[m]),
                );
            if m > k {
                assert(some_range_affected(ranges, outcomes, k + 1));
            }
        }
    }
}

/// When no needed comparison fails, the entry affects the package exactly when it names the
/// package and lists no constraint, lists its version, or has a non-`GIT` range that holds the
/// version.
pub proof fn lemma_evaluation_without_failure(
    p: Package,
    affected: Affected,
    outcomes: Seq<RangeComparisons>,
)
    requires
        no_failure(affected.ranges@, outcomes),
    ensures
        evaluation(p, affected, Ok(outcomes)) == Ok::<bool, VersionError>(
            names_package(p, affected) && ((affected.versions@.len() == 0 && affected.ranges@.len()
                == 0) || (exists|i: int|
                0 <= i < affected.versions@.len() && #[trigger] affected.versions@[i]@ == p.version@)
                || some_range_affected(affected.ranges@, outcomes, 0)),
        ),
{
    lemma_ranges_without_failure(affected.ranges@, outcomes, 0);
}

/// An entry affects only the package it names: without a package, or naming another ecosystem
/// or another name (compared as whole strings), it affects nothing; naming the package with no
/// constraint, or listing its version, it affects it whatever the version parser said.
pub proof fn lemma_evaluation_identity(
    p: Package,
    affected: Affected,
    outcomes: Result<Seq<RangeComparisons>, VersionError>,
)
    ensures
        affected.package is None ==> evaluation(p, affected, outcomes) == Ok::<bool, VersionError>(false),
        affected.package matches Some(pkg) && pkg.name@ != p.name@ ==> evaluation(p, affected, outcomes)
            == Ok::<bool, VersionError>(false),
        affected.package matches Some(pkg) && pkg.ecosystem@.0 != p.ecosystem@.0 ==> evaluation(
            p,
            affected,
            outcomes,
        ) == Ok::<bool, VersionError>(false),
        affected.package matches Some(pkg) && pkg.name@ == p.name@ && pkg.ecosystem@.0
            == p.ecosystem@.0 && ((affected.versions@.len() == 0 && affected.ranges@.len() == 0)
            || exists|i: int|
            0 <= i < affected.versions@.len() && #[trigger] affected.versions@[i]@ == p.version@)
            ==> evaluation(p, affected, outcomes) == Ok::<bool, VersionError>(true),
{
}

/// Evaluation reads only the ecosystem of a pinned package, not its suffix: two packages that
/// differ only in the suffix are evaluated alike.
pub proof fn lemma_evaluation_ignores_suffix(
    p1: Package,
    p2: Package,
    affected: Affected,
    outcomes: Result<Seq<RangeComparisons>, VersionError>,
)
    requires
        p1.name@ == p2.name@,
        p1.version@ == p2.version@,
        p1.ecosystem@.0 == p2.ecosystem@.0,
    ensures
        evaluation(p1, affected, outcomes) == evaluation(p2, affected, outcomes),
{
}

/// The version string or commit hash that `event` names.
pub fn event_version(event: &Event) -> (r: &str)
    ensures
        r@ == named_version(*event),
{
    match event {
        Event::Introduced { introduced } => introduced.as_str(),
        Event::Fixed { fixed } => fixed.as_str(),
        Event::LastAffected { last_affected } => last_affected.as_str(),
        Event::Limit { limit } => limit.as_str(),
    }
}

/// Whether the version that `event` names must be parsed and compared: every event but
/// `introduced: "0"`.
pub fn needs_comparison(event: &Event) -> (r: bool)
    ensures
        r == is_compared(*event),
{
    match event {
        Event::Introduced { introduced } => {
            proof {
                reveal_strlit("0");
            }
            !crate::text::str_eq(introduced.as_str(), "0")
        },
        _ => true,
    }
}

fn is_at_or_above(o: &Outcome) -> (r: bool)
    ensures
        r == at_or_above(*o),
{
    match o {
        Ok(VersionCmp::Greater) | Ok(VersionCmp::Equal) => true,
        _ => false,
    }
}

fn is_opening(e: &Event, o: &Outcome) -> (r: bool)
    ensures
        r == opens_window(*e, *o),
{
    match e {
        Event::Introduced { .. } => !needs_comparison(e) || is_at_or_above(o),
        _ => false,
    }
}

fn is_closing(e: &Event, o: &Outcome) -> (r: bool)
    ensures
        r == closes_window(*e, *o),
{
    match e {
        Event::Fixed { .. } => is_at_or_above(o),
        Event::LastAffected { .. } => match o {
            Ok(VersionCmp::Greater) => true,
            _ => false,
        },
        _ => false,
    }
}

/// Whether some event closes again the window that event `i` opened.
fn closed_after(events: &Vec<Event>, comps: &RangeComparisons, i: usize) -> (r: bool)
    requires
        i < events@.len(),
        comparisons_fit(events@.len() as int, *comps),
    ensures
        r == exists|j: int| #[trigger] closes_after(events@, comps.with_version@, between_view(*comps), j, i as int),
{
    let ghost b = between_view(*comps);
    let zero = !needs_comparison(&events[i]);
    let mut j: usize = 0;
    while j < events.len()
        invariant
            i < events@.len(),
            comparisons_fit(events@.len() as int, *comps),
            b == between_view(*comps),
            zero == is_introduced_zero(events@[i as int]),
            j <= events@.len(),
            forall|k: int| 0 <= k < j ==> !#[trigger] closes_after(events@, comps.with_version@, b, k, i as int),
        decreases events@.len() - j,
    {
        assert(b[j as int] == comps.between@[j as int]@);
        let below = match comps.between[j][i] {
            VersionCmp::Less => true,
            _ => false,
        };
        if is_closing(&events[j], &comps.with_version[j]) && (zero || !below) {
            assert(closes_after(events@, comps.with_version@, b, j as int, i as int));
            return true;
        }
        j = j + 1;
    }
    false
}

/// Returns `true` if the version is inside the window described by `events`.
///
/// <https://ossf.github.io/osv-schema/#evaluation>
///
/// The events are taken in version order, whatever the order of the list (see
/// [`lemma_range_affected_is_schema_loop`]): with `comps.with_version[i]` the comparison of the
/// version with the version of `events[i]` and `comps.between[j][i]` that of the versions of
/// `events[j]` and `events[i]`,
/// - `introduced` marks the start of an affected window (inclusive); the special value `"0"`
///   means the beginning of all versions and is not compared.
/// - `fixed` ends the window at this version (exclusive).
/// - `last_affected` ends the window after this version (inclusive).
/// - `limit` is an exclusive upper bound that applies whatever the other events say.
///
/// # Errors
/// - the error of the first event in the list whose version could not be parsed.
pub fn range_contains(events: &Vec<Event>, comps: &RangeComparisons) -> (r: Result<bool, VersionError>)
    requires
        comparisons_fit(events@.len() as int, *comps),
    ensures
        r == range_result(events@, comps.with_version@, between_view(*comps)),
{
    let ghost outcomes = comps.with_version@;
    let ghost b = between_view(*comps);
    let mut is_before_limits = true;
    let mut i: usize = 0;
    while i < events.len()
        invariant
            comparisons_fit(events@.len() as int, *comps),
            outcomes == comps.with_version@,
            i <= events@.len(),
            forall|j: int| 0 <= j < i ==> !fails_at(events@, outcomes, j),
            is_before_limits == !exists|j: int| 0 <= j < i && hits_limit(events@[j], outcomes[j]),
        decreases events@.len() - i,
    {
        let event = &events[i];
        let outcome = &comps.with_version[i];
        if needs_comparison(event) {
            if let Err(e) = outcome {
                proof {
                    assert(first_failure(events@, outcomes, i as int));
                    let k = choose|k: int| first_failure(events@, outcomes, k);
                    lemma_first_failure_unique(events@, outcomes, i as int, k);
                }
                return Err(e.clone());
            }
        }
        if let Event::Limit { .. } = event {
            if is_at_or_above(outcome) {
                is_before_limits = false;
            }
        }
        proof {
            let n = i + 1;
            assert(is_before_limits == !exists|j: int| 0 <= j < n && hits_limit(events@[j], outcomes[j]))
                by {
                if hits_limit(events@[i as int], outcomes[i as int]) {
                    assert(0 <= i < n);
                }
            }
        }
        i = i + 1;
    }
    proof {
        assert(!exists|k: int| first_failure(events@, outcomes, k));
    }
    let mut is_open = false;
    let mut i: usize = 0;
    while i < events.len()
        invariant
            comparisons_fit(events@.len() as int, *comps),
            outcomes == comps.with_version@,
            b == between_view(*comps),
            i <= events@.len(),
            is_open == exists|j: int| 0 <= j < i && #[trigger] stays_open(events@, outcomes, b, j),
        decreases events@.len() - i,
    {
        if is_opening(&events[i], &comps.with_version[i]) && !closed_after(events, comps, i) {
            assert(stays_open(events@, outcomes, b, i as int));
            is_open = true;
        }
        proof {
            let n = i + 1;
            assert(is_open == exists|j: int| 0 <= j < n && #[trigger] stays_open(events@, outcomes, b, j)) by {
                if stays_open(events@, outcomes, b, i as int) {
                    assert(0 <= i < n);
                }
            }
        }
        i = i + 1;
    }
    proof {
        assert(is_open == exists|j: int| #[trigger] stays_open(events@, outcomes, b, j));
    }
    Ok(is_before_limits && is_open)
}

/// Returns `true` if the version falls within any of the non-`GIT` ranges, with `outcomes[k]`
/// the comparisons for the events of `ranges[k]`. `GIT` ranges are skipped: their commit hashes
/// cannot be ordered as versions.
///
/// # Errors
/// - the error of the first failed comparison in the first range that fails before any range
///   holds the version.
pub fn included_in_ranges(ranges: &Vec<Range>, outcomes: &Vec<RangeComparisons>) -> (r: Result<
    bool,
    VersionError,
>)
    requires
        outcomes_fit(ranges@, outcomes@),
    ensures
        r == ranges_result_from(ranges@, outcomes@, 0),
{
    let mut k: usize = 0;
    while k < ranges.len()
        invariant
            outcomes_fit(ranges@, outcomes@),
            k <= ranges@.len(),
            ranges_result_from(ranges@, outcomes@, 0) == ranges_result_from(
                ranges@,
                outcomes@,
                k as int,
            ),
        decreases ranges@.len() - k,
    {
        let range = &ranges[k];
        if range.range_type != RangeType::GIT {
            assert(comparisons_fit(ranges@[k as int].events@.len() as int, outcomes@[k as int]));
            match range_contains(&range.events, &outcomes[k]) {
                Err(e) => {
                    return Err(e);
                },
                Ok(true) => {
                    return Ok(true);
                },
                Ok(false) => {},
            }
        }
        k = k + 1;
    }
    Ok(false)
}

/// Implements the evaluation algorithm from <https://ossf.github.io/osv-schema/#evaluation>:
/// whether package `p` is affected by `affected`.
///
/// - An entry without a package, or for another ecosystem (the suffix is not compared) or
///   another package name, does not affect `p`.
/// - An entry without versions and ranges affects every version.
/// - A version listed explicitly is affected (string equality).
/// - Otherwise the version is checked against the non-`GIT` ranges.
///
/// `outcomes` is what the version parser reported: the error of parsing `p.version`, or for
/// each range of `affected` the comparisons of `p.version` with the version of each event and
/// those between the versions of its events.
///
/// # Errors
/// - the package version could not be parsed, when the ranges must be checked;
/// - the error of the first failed comparison that decides.
pub fn evaluate(p: &Package, affected: &Affected, outcomes: &Result<Vec<RangeComparisons>, VersionError>) -> (r:
    Result<bool, VersionError>)
    requires
        outcomes matches Ok(o) ==> outcomes_fit(affected.ranges@, o@),
    ensures
        r == evaluation(
            *p,
            *affected,
            match outcomes {
                Ok(o) => Ok(o@),
                Err(e) => Err(*e),
            },
        ),
{
    let pkg = match &affected.package {
        Some(pkg) => pkg,
        None => {
            return Ok(false);
        },
    };
    if p.ecosystem.ecosystem() != pkg.ecosystem.ecosystem() {
        return Ok(false);
    }
    if pkg.name != p.name {
        return Ok(false);
    }
    // No version constraints means all versions are affected.
    if affected.versions.len() == 0 && affected.ranges.len() == 0 {
        return Ok(true);
    }
    // Check the explicit versions list by string equality.
    let mut i: usize = 0;
    while i < affected.versions.len()
        invariant
            i <= affected.versions@.len(),
            forall|j: int| 0 <= j < i ==> affected.versions@[j]@ != p.version@,
            names_package(*p, *affected),
            affected.versions@.len() != 0 || affected.ranges@.len() != 0,
        decreases affected.versions@.len() - i,
    {
        if affected.versions[i] == p.version {
            assert(affected.versions@[i as int]@ == p.version@);
            return Ok(true);
        }
        i = i + 1;
    }
    match outcomes {
        Err(e) => Err(e.clone()),
        Ok(o) => included_in_ranges(&affected.ranges, o),
    }
}

} // verus!
