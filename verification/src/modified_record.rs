//! Entries of the `modified_id.csv` index files of the OSV bucket, and what the database
//! learns from them: which records changed since a given instant, and the latest change.
//!
//! The files list `<iso modified date>,<ecosystem_dir>/<id>` (all-ecosystem index) or
//! `<iso modified date>,<id>` (per-ecosystem index), newest first.
//! <https://google.github.io/osv.dev/data/#downloading-recent-changes>
use vstd::prelude::*;

use crate::ecosystem::EcosystemParseError;
use crate::osv_gs::{
    gs_ecosystem_name, lemma_gs_ecosystem_name_has_no_slash, lemma_gs_ecosystem_roundtrip,
    parse_gs_ecosystem, OsvGsEcosystem,
};
use crate::text::{is_first_index, lemma_first_index_unique, split_once, split_once_char};
use crate::timestamp::{ts_le, ts_max, Timestamp};
use crate::types::OsvRecordId;

verus! {

/// A record of a CSV file, as the `csv` crate reads it.
#[verifier::external_type_specification]
#[verifier::external_body]
pub struct ExStringRecord(csv::StringRecord);

/// An error of the `csv` crate's reader.
#[verifier::external_type_specification]
#[verifier::external_body]
pub struct ExCsvError(csv::Error);

/// An error of chrono's date-time parser.
#[verifier::external_type_specification]
#[verifier::external_body]
pub struct ExChronoParseError(chrono::ParseError);

/// The fields of a CSV record.
pub uninterp spec fn record_fields(record: csv::StringRecord) -> Seq<Seq<char>>;

/// What a `csv` reader without a header row makes of `data`: one entry per record, in order,
/// holding the record's fields, or `None` where reading the record failed.
pub uninterp spec fn csv_records(data: Seq<u8>) -> Seq<Option<Seq<Seq<char>>>>;

/// What chrono parses `s` to as a `DateTime<Utc>`: whole seconds and subsecond nanoseconds.
pub uninterp spec fn parsed_utc(s: Seq<char>) -> Option<(i64, u32)>;

/// `csv::StringRecord::len`: the number of fields of the record.
#[verifier::external_body]
fn record_len(record: &csv::StringRecord) -> (n: usize)
    ensures
        n == record_fields(*record).len(),
{
    record.len()
}

/// `csv::StringRecord::get`: field `i` of the record, or `None` past the last field.
#[verifier::external_body]
fn record_get(record: &csv::StringRecord, i: usize) -> (r: Option<&str>)
    ensures
        match r {
            Some(f) => i < record_fields(*record).len() && f@ == record_fields(*record)[i as int],
            None => i >= record_fields(*record).len(),
        },
{
    record.get(i)
}

/// Reads every record of `data` with a reader from `csv::ReaderBuilder::new().has_headers(false)`
/// (through `csv::Reader::records`).
#[verifier::external_body]
fn read_csv_records(data: &[u8]) -> (r: Vec<Result<csv::StringRecord, csv::Error>>)
    ensures
        r@.len() == csv_records(data@).len(),
        forall|i: int|
            0 <= i < r@.len() ==> match #[trigger] r@[i] {
                Ok(record) => csv_records(data@)[i] == Some(record_fields(record)),
                Err(_) => csv_records(data@)[i] is None,
            },
{
    csv::ReaderBuilder::new().has_headers(false).from_reader(data).records().collect()
}

/// Reads the first record of `data` with a reader from
/// `csv::ReaderBuilder::new().has_headers(false)` (through `csv::Reader::records`).
#[verifier::external_body]
fn read_first_csv_record(data: &[u8]) -> (r: Option<Result<csv::StringRecord, csv::Error>>)
    ensures
        match r {
            None => csv_records(data@).len() == 0,
            Some(Ok(record)) => csv_records(data@).len() > 0 && csv_records(data@)[0] == Some(
                record_fields(record),
            ),
            Some(Err(_)) => csv_records(data@).len() > 0 && csv_records(data@)[0] is None,
        },
{
    csv::ReaderBuilder::new().has_headers(false).from_reader(data).records().next()
}

/// Parses `s` as chrono's `DateTime<Utc>` (`str::parse`), keeping its seconds and subsecond
/// nanoseconds.
#[verifier::external_body]
fn parse_utc(s: &str) -> (r: Result<Timestamp, chrono::ParseError>)
    ensures
        match r {
            Ok(t) => parsed_utc(s@) == Some((t.secs, t.nanos)),
            Err(_) => parsed_utc(s@) is None,
        },
{
    s.parse::<chrono::DateTime<chrono::Utc>>().map(
        |dt| Timestamp { secs: dt.timestamp(), nanos: dt.timestamp_subsec_nanos() },
    )
}

/// A single entry from a `modified_id.csv` index file.
#[derive(Debug, PartialEq, Eq)]
pub struct OsvModifiedRecord {
    /// Instant of the last modification.
    pub modified: Timestamp,
    /// Ecosystem the record belongs to.
    pub ecosystem: OsvGsEcosystem,
    /// Unique vulnerability identifier (e.g. `RUSTSEC-2024-0001`).
    pub id: OsvRecordId,
}

/// An index entry as plain values: modification instant, ecosystem, record id.
pub type ModifiedEntry = (Timestamp, OsvGsEcosystem, Seq<char>);

impl View for OsvModifiedRecord {
    type V = ModifiedEntry;

    open spec fn view(&self) -> ModifiedEntry {
        (self.modified, self.ecosystem, self.id@)
    }
}

/// Error returned by [`OsvModifiedRecord::try_from_csv_record`].
#[derive(Debug)]
pub enum ParseModifiedRecordErr {
    /// The CSV row did not have exactly 2 columns.
    WrongColumnCount(usize),
    /// The timestamp column (index 0) was absent.
    MissingTimestamp,
    /// The path column (index 1) was absent.
    MissingPath,
    /// The timestamp string could not be parsed as an RFC 3339 date-time.
    ParseTimestamp(chrono::ParseError),
    /// The ecosystem string did not match any known variant.
    ParseEcosystem(EcosystemParseError),
    /// The path column did not have the expected `<ecosystem>/<id>` format.
    InvalidPathFormat(String),
}

/// The entry that the fields of an index row stand for, read for `ecosystem` (a per-ecosystem
/// index: the second column is the id) or for all ecosystems (`None`: the second column is
/// `<ecosystem>/<id>`, split at the first `'/'`).
pub open spec fn modified_entry(fields: Seq<Seq<char>>, ecosystem: Option<OsvGsEcosystem>) -> Option<
    ModifiedEntry,
> {
    if fields.len() != 2 {
        None
    } else {
        match parsed_utc(fields[0]) {
            None => None,
            Some((secs, nanos)) => {
                let modified = Timestamp { secs, nanos };
                match ecosystem {
                    Some(e) => Some((modified, e, fields[1])),
                    None => match split_once(fields[1], '/') {
                        Some((dir, id)) => match parse_gs_ecosystem(dir) {
                            Some(e) => Some((modified, e, id)),
                            None => None,
                        },
                        None => None,
                    },
                }
            },
        }
    }
}

/// A row written for an entry reads back as that entry: `<date>,<ecosystem_dir>/<id>` in the
/// all-ecosystem index and `<date>,<id>` in the index of the ecosystem, whenever the date text
/// parses to the entry's instant (the id may itself hold `'/'`).
pub proof fn lemma_index_row_roundtrip(date: Seq<char>, e: OsvGsEcosystem, id: Seq<char>, t: Timestamp)
    requires
        parsed_utc(date) == Some((t.secs, t.nanos)),
    ensures
        modified_entry(seq![date, gs_ecosystem_name(e) + "/"@ + id], None) == Some((t, e, id)),
        modified_entry(seq![date, id], Some(e)) == Some((t, e, id)),
{
    let name = gs_ecosystem_name(e);
    let path = name + "/"@ + id;
    let fields = seq![date, path];
    assert(fields[0] == date && fields[1] == path);
    assert(seq![date, id][1] == id);
    reveal_strlit("/");
    lemma_gs_ecosystem_name_has_no_slash(e);
    lemma_gs_ecosystem_roundtrip(e);
    assert(path[name.len() as int] == '/');
    assert forall|j: int| 0 <= j < name.len() implies path[j] != '/' by {
        assert(path[j] == name[j]);
    }
    assert(is_first_index(path, '/', name.len() as int));
    lemma_first_index_unique(path, '/', name.len() as int);
    assert(path.subrange(0, name.len() as int) =~= name);
    assert(path.subrange(name.len() as int + 1, path.len() as int) =~= id);
}

/// `err` is the error of reading the row with `fields` for `ecosystem`: the first check that
/// fails names it.
pub open spec fn parse_error_matches(
    err: ParseModifiedRecordErr,
    fields: Seq<Seq<char>>,
    ecosystem: Option<OsvGsEcosystem>,
) -> bool {
    match err {
        ParseModifiedRecordErr::WrongColumnCount(n) => fields.len() != 2 && n == fields.len(),
        ParseModifiedRecordErr::ParseTimestamp(_) => fields.len() == 2 && parsed_utc(
            fields[0],
        ) is None,
        ParseModifiedRecordErr::ParseEcosystem(_) => {
            &&& fields.len() == 2
            &&& parsed_utc(fields[0]) is Some
            &&& ecosystem is None
            &&& split_once(fields[1], '/') matches Some((dir, _)) && parse_gs_ecosystem(dir) is None
        },
        ParseModifiedRecordErr::InvalidPathFormat(path) => {
            &&& fields.len() == 2
            &&& parsed_utc(fields[0]) is Some
            &&& ecosystem is None
            &&& split_once(fields[1], '/') is None
            &&& path@ == fields[1]
        },
        ParseModifiedRecordErr::MissingTimestamp => false,
        ParseModifiedRecordErr::MissingPath => false,
    }
}

impl OsvModifiedRecord {
    /// Reads an index row. The CSV format is `<iso modified date>,<ecosystem_dir>/<id>` for the
    /// all-ecosystem index, or `<iso modified date>,<id>` for a per-ecosystem index: with
    /// `ecosystem` `None` the row is read as the former, otherwise as the latter.
    ///
    /// # Errors
    /// - [`ParseModifiedRecordErr::WrongColumnCount`] if the row does not have two fields;
    /// - [`ParseModifiedRecordErr::ParseTimestamp`] if the first field is no date-time;
    /// - [`ParseModifiedRecordErr::ParseEcosystem`] if the ecosystem directory names no
    ///   ecosystem;
    /// - [`ParseModifiedRecordErr::InvalidPathFormat`] if the path holds no `'/'`.
    pub fn try_from_csv_record(record: &csv::StringRecord, ecosystem: Option<OsvGsEcosystem>) -> (r:
        Result<OsvModifiedRecord, ParseModifiedRecordErr>)
        ensures
            match r {
                Ok(m) => modified_entry(record_fields(*record), ecosystem) == Some(m@),
                Err(e) => modified_entry(record_fields(*record), ecosystem) is None
                    && parse_error_matches(e, record_fields(*record), ecosystem),
            },
    {
        let n = record_len(record);
        if n != 2 {
            return Err(ParseModifiedRecordErr::WrongColumnCount(n));
        }
        let timestamp_str = match record_get(record, 0) {
            Some(s) => s,
            None => {
                return Err(ParseModifiedRecordErr::MissingTimestamp);
            },
        };
        let path = match record_get(record, 1) {
            Some(s) => s,
            None => {
                return Err(ParseModifiedRecordErr::MissingPath);
            },
        };
        let modified = match parse_utc(timestamp_str) {
            Ok(t) => t,
            Err(e) => {
                return Err(ParseModifiedRecordErr::ParseTimestamp(e));
            },
        };
        if let Some(ecosystem) = ecosystem {
            Ok(OsvModifiedRecord { modified, ecosystem, id: String::from_str(path) })
        } else if let Some((ecosystem_str, id)) = split_once_char(path, '/') {
            match OsvGsEcosystem::from_name(ecosystem_str) {
                Ok(ecosystem) => Ok(OsvModifiedRecord { modified, ecosystem, id: String::from_str(id) }),
                Err(e) => Err(ParseModifiedRecordErr::ParseEcosystem(e)),
            }
        } else {
            Err(ParseModifiedRecordErr::InvalidPathFormat(String::from_str(path)))
        }
    }
}

/// Errors of reading what a `modified_id.csv` file tells.
#[derive(Debug)]
pub enum ModifiedIndexErr {
    /// A CSV parsing operation failed.
    Csv(csv::Error),
    /// A `modified_id.csv` row could not be parsed.
    ParseRecord(ParseModifiedRecordErr),
    /// The `modified_id.csv` file contained no rows.
    EmptyModifiedCsv,
}

/// The entry that an index row stands for, if the row was read and parses.
pub open spec fn row_entry(row: Option<Seq<Seq<char>>>, ecosystem: Option<OsvGsEcosystem>) -> Option<
    ModifiedEntry,
> {
    match row {
        Some(fields) => modified_entry(fields, ecosystem),
        None => None,
    }
}

/// `err` is the error of reading `row` for `ecosystem`.
pub open spec fn row_error_matches(
    err: ModifiedIndexErr,
    row: Option<Seq<Seq<char>>>,
    ecosystem: Option<OsvGsEcosystem>,
) -> bool {
    match err {
        ModifiedIndexErr::Csv(_) => row is None,
        ModifiedIndexErr::ParseRecord(p) => row matches Some(fields) && modified_entry(
            fields,
            ecosystem,
        ) is None && parse_error_matches(p, fields, ecosystem),
        ModifiedIndexErr::EmptyModifiedCsv => false,
    }
}

/// Where reading the rows stops: at the first row that fails or that was modified at or before
/// `since` (the rows are newest first), or after the last row.
pub open spec fn stop_index(
    rows: Seq<Option<Seq<Seq<char>>>>,
    ecosystem: Option<OsvGsEcosystem>,
    since: Timestamp,
) -> int
    decreases rows.len(),
{
    if rows.len() == 0 {
        0
    } else {
        match row_entry(rows[0], ecosystem) {
            None => 0,
            Some(m) => if ts_le(m.0, since) {
                0
            } else {
                1 + stop_index(rows.drop_first(), ecosystem, since)
            },
        }
    }
}

/// The entries of the first `k` rows.
pub open spec fn entries_of(
    rows: Seq<Option<Seq<Seq<char>>>>,
    ecosystem: Option<OsvGsEcosystem>,
    k: int,
) -> Seq<ModifiedEntry> {
    Seq::new(k as nat, |j: int| row_entry(rows[j], ecosystem).unwrap())
}

/// The latest of `since` and the modification instants of the entries.
pub open spec fn latest(since: Timestamp, entries: Seq<ModifiedEntry>) -> Timestamp
    decreases entries.len(),
{
    if entries.len() == 0 {
        since
    } else {
        ts_max(latest(since, entries.drop_last()), entries.last().0)
    }
}

/// Reading the rows stops at a row that fails.
pub open spec fn stops_on_failure(
    rows: Seq<Option<Seq<Seq<char>>>>,
    ecosystem: Option<OsvGsEcosystem>,
    since: Timestamp,
) -> bool {
    let k = stop_index(rows, ecosystem, since);
    k < rows.len() && row_entry(rows[k], ecosystem) is None
}

/// The rows before the stop all parse, and were modified after `since`; the stop is within the
/// rows.
pub proof fn lemma_stop_index(
    rows: Seq<Option<Seq<Seq<char>>>>,
    ecosystem: Option<OsvGsEcosystem>,
    since: Timestamp,
)
    ensures
        0 <= stop_index(rows, ecosystem, since) <= rows.len(),
        forall|j: int|
            0 <= j < stop_index(rows, ecosystem, since) ==> (#[trigger] row_entry(rows[j], ecosystem)
                matches Some(m) && !ts_le(m.0, since)),
        stop_index(rows, ecosystem, since) < rows.len() ==> (row_entry(
            rows[stop_index(rows, ecosystem, since)],
            ecosystem,
        ) matches Some(m) ==> ts_le(m.0, since)),
    decreases rows.len(),
{
    if rows.len() > 0 {
        lemma_stop_index(rows.drop_first(), ecosystem, since);
        assert forall|j: int| 0 < j < stop_index(rows, ecosystem, since) implies (#[trigger] row_entry(
            rows[j],
            ecosystem,
        ) matches Some(m) && !ts_le(m.0, since)) by {
            assert(rows[j] == rows.drop_first()[j - 1]);
        }
    }
}

/// The latest instant is at or after `since` and after every entry's modification.
pub proof fn lemma_latest_bounds(since: Timestamp, entries: Seq<ModifiedEntry>)
    ensures
        ts_le(since, latest(since, entries)),
        forall|j: int| 0 <= j < entries.len() ==> ts_le(#[trigger] entries[j].0, latest(since, entries)),
        latest(since, entries) == since || exists|j: int|
            0 <= j < entries.len() && #[trigger] entries[j].0 == latest(since, entries),
    decreases entries.len(),
{
    if entries.len() > 0 {
        lemma_latest_bounds(since, entries.drop_last());
        assert forall|j: int| 0 <= j < entries.len() implies ts_le(
            #[trigger] entries[j].0,
            latest(since, entries),
        ) by {
            if j < entries.len() - 1 {
                assert(entries[j] == entries.drop_last()[j]);
            }
        }
        let prev = latest(since, entries.drop_last());
        if prev != since && latest(since, entries) == prev {
            let j = choose|j: int| 0 <= j < entries.drop_last().len() && #[trigger] entries.drop_last()[j].0 == prev;
            assert(entries[j] == entries.drop_last()[j]);
        }
        if latest(since, entries) != prev {
            assert(entries[entries.len() - 1].0 == latest(since, entries));
        }
    }
}

/// Every entry collected since an instant was modified strictly after it, and the reported
/// latest change is at or after every collected entry and `since`.
pub proof fn lemma_collected_after_since(
    rows: Seq<Option<Seq<Seq<char>>>>,
    ecosystem: Option<OsvGsEcosystem>,
    since: Timestamp,
)
    ensures
        forall|j: int|
            0 <= j < stop_index(rows, ecosystem, since) ==> !ts_le(
                #[trigger] entries_of(rows, ecosystem, stop_index(rows, ecosystem, since))[j].0,
                since,
            ),
        forall|j: int|
            0 <= j < stop_index(rows, ecosystem, since) ==> ts_le(
                #[trigger] entries_of(rows, ecosystem, stop_index(rows, ecosystem, since))[j].0,
                latest(since, entries_of(rows, ecosystem, stop_index(rows, ecosystem, since))),
            ),
        ts_le(since, latest(since, entries_of(rows, ecosystem, stop_index(rows, ecosystem, since)))),
{
    lemma_stop_index(rows, ecosystem, since);
    let k = stop_index(rows, ecosystem, since);
    let entries = entries_of(rows, ecosystem, k);
    lemma_latest_bounds(since, entries);
    assert forall|j: int| 0 <= j < k implies !ts_le(#[trigger] entries[j].0, since) by {
        assert(row_entry(rows[j], ecosystem) is Some);
    }
}

/// The records read up to the stop were all modified strictly after `since`.
proof fn lemma_entries_after(
    entries: Seq<OsvModifiedRecord>,
    rows: Seq<Option<Seq<Seq<char>>>>,
    ecosystem: Option<OsvGsEcosystem>,
    since: Timestamp,
)
    requires
        entries.map_values(|m: OsvModifiedRecord| m@) == entries_of(
            rows,
            ecosystem,
            stop_index(rows, ecosystem, since),
        ),
    ensures
        forall|k: int| 0 <= k < entries.len() ==> !ts_le(#[trigger] entries[k].modified, since),
{
    lemma_stop_index(rows, ecosystem, since);
    lemma_collected_after_since(rows, ecosystem, since);
    let stop = stop_index(rows, ecosystem, since);
    let collected = entries_of(rows, ecosystem, stop);
    assert(entries.map_values(|m: OsvModifiedRecord| m@).len() == entries.len());
    assert forall|k: int| 0 <= k < entries.len() implies !ts_le(#[trigger] entries[k].modified, since) by {
        assert(entries.map_values(|m: OsvModifiedRecord| m@)[k] == entries[k]@);
        assert(collected[k] == entries[k]@);
        assert(!ts_le(collected[k].0, since));
    }
}

fn take_error(rows: Vec<Result<csv::StringRecord, csv::Error>>, i: usize) -> (e: csv::Error)
    requires
        i < rows@.len(),
        rows@[i as int] is Err,
    ensures
        rows@[i as int] == Err::<csv::StringRecord, csv::Error>(e),
{
    let mut rows = rows;
    match rows.swap_remove(i) {
        Err(e) => e,
        Ok(_) => vstd::pervasive::unreached(),
    }
}

/// Reads a `modified_id.csv` file for `ecosystem` (or the all-ecosystem index for `None`) and
/// returns every entry modified strictly after `since`, along with the latest modification
/// instant seen (`since` if there is none).
///
/// The file is sorted in reverse chronological order, so reading stops at the first entry
/// modified at or before `since`.
///
/// # Errors
/// - [`ModifiedIndexErr::Csv`] or [`ModifiedIndexErr::ParseRecord`] for the first row before
///   that stop that could not be read.
pub fn collect_entries_from_csv(data: &[u8], ecosystem: Option<OsvGsEcosystem>, since: Timestamp) -> (r:
    Result<(Timestamp, Vec<OsvModifiedRecord>), ModifiedIndexErr>)
    ensures
        ({
            let rows = csv_records(data@);
            let k = stop_index(rows, ecosystem, since);
            match r {
                Ok((last, entries)) => {
                    &&& !stops_on_failure(rows, ecosystem, since)
                    &&& entries@.map_values(|m: OsvModifiedRecord| m@) == entries_of(rows, ecosystem, k)
                    &&& last == latest(since, entries_of(rows, ecosystem, k))
                },
                Err(e) => stops_on_failure(rows, ecosystem, since) && row_error_matches(
                    e,
                    rows[k],
                    ecosystem,
                ),
            }
        }),
        modified_after(r, since),
{
    let rows = read_csv_records(data);
    let ghost spec_rows = csv_records(data@);
    let mut new_last_modified = since;
    let mut entries: Vec<OsvModifiedRecord> = Vec::new();
    let mut i: usize = 0;
    proof {
        lemma_stop_index(spec_rows, ecosystem, since);
    }
    while i < rows.len()
        invariant
            spec_rows == csv_records(data@),
            rows@.len() == spec_rows.len(),
            forall|j: int|
                0 <= j < rows@.len() ==> match #[trigger] rows@[j] {
                    Ok(record) => spec_rows[j] == Some(record_fields(record)),
                    Err(_) => spec_rows[j] is None,
                },
            i <= rows@.len(),
            i <= stop_index(spec_rows, ecosystem, since),
            0 <= stop_index(spec_rows, ecosystem, since) <= spec_rows.len(),
            forall|j: int|
                0 <= j < stop_index(spec_rows, ecosystem, since) ==> (#[trigger] row_entry(
                    spec_rows[j],
                    ecosystem,
                ) matches Some(m) && !ts_le(m.0, since)),
            stop_index(spec_rows, ecosystem, since) < spec_rows.len() ==> (row_entry(
                spec_rows[stop_index(spec_rows, ecosystem, since)],
                ecosystem,
            ) matches Some(m) ==> ts_le(m.0, since)),
            entries@.map_values(|m: OsvModifiedRecord| m@) == entries_of(spec_rows, ecosystem, i as int),
            new_last_modified == latest(since, entries_of(spec_rows, ecosystem, i as int)),
        decreases rows@.len() - i,
    {
        let record = match &rows[i] {
            Ok(record) => record,
            Err(_) => {
                assert(row_entry(spec_rows[i as int], ecosystem) is None);
                assert(stop_index(spec_rows, ecosystem, since) == i);
                let e = take_error(rows, i);
                return Err(ModifiedIndexErr::Csv(e));
            },
        };
        let entry = match OsvModifiedRecord::try_from_csv_record(record, ecosystem) {
            Ok(entry) => entry,
            Err(e) => {
                assert(spec_rows[i as int] == Some(record_fields(*record)));
                assert(row_entry(spec_rows[i as int], ecosystem) is None);
                assert(stop_index(spec_rows, ecosystem, since) == i);
                return Err(ModifiedIndexErr::ParseRecord(e));
            },
        };
        if entry.modified.le(&since) {
            assert(stop_index(spec_rows, ecosystem, since) == i);
            assert(entries_of(spec_rows, ecosystem, i as int) =~= entries_of(
                spec_rows,
                ecosystem,
                stop_index(spec_rows, ecosystem, since),
            ));
            proof {
                lemma_entries_after(entries@, spec_rows, ecosystem, since);
            }
            return Ok((new_last_modified, entries));
        }
        assert(i < stop_index(spec_rows, ecosystem, since));
        new_last_modified = new_last_modified.max(entry.modified);
        let ghost before = entries@;
        entries.push(entry);
        proof {
            let next = entries_of(spec_rows, ecosystem, i + 1);
            assert(next.drop_last() =~= entries_of(spec_rows, ecosystem, i as int));
            assert(entries@.map_values(|m: OsvModifiedRecord| m@) =~= next) by {
                assert(before.map_values(|m: OsvModifiedRecord| m@) == entries_of(
                    spec_rows,
                    ecosystem,
                    i as int,
                ));
                assert forall|j: int| 0 <= j < i + 1 implies entries@.map_values(
                    |m: OsvModifiedRecord| m@,
                )[j] == #[trigger] next[j] by {
                    if j < i {
                        assert(entries@[j] == before[j]);
                        assert(before.map_values(|m: OsvModifiedRecord| m@)[j] == entries_of(
                            spec_rows,
                            ecosystem,
                            i as int,
                        )[j]);
                    }
                }
            }
        }
        i = i + 1;
    }
    assert(stop_index(spec_rows, ecosystem, since) == i);
    proof {
        lemma_entries_after(entries@, spec_rows, ecosystem, since);
    }
    Ok((new_last_modified, entries))
}

/// Reads the first entry of a `modified_id.csv` file for `ecosystem` (or of the all-ecosystem
/// index for `None`) and returns its modification instant: the files are newest first, so this
/// is the latest change.
///
/// # Errors
/// - [`ModifiedIndexErr::EmptyModifiedCsv`] if the file holds no row;
/// - [`ModifiedIndexErr::Csv`] or [`ModifiedIndexErr::ParseRecord`] if its first row could not
///   be read.
pub fn first_modified_from_csv(data: &[u8], ecosystem: Option<OsvGsEcosystem>) -> (r: Result<
    Timestamp,
    ModifiedIndexErr,
>)
    ensures
        ({
            let rows = csv_records(data@);
            match r {
                Ok(t) => rows.len() > 0 && (row_entry(rows[0], ecosystem) matches Some(m) && m.0 == t),
                Err(ModifiedIndexErr::EmptyModifiedCsv) => rows.len() == 0,
                Err(e) => rows.len() > 0 && row_entry(rows[0], ecosystem) is None
                    && row_error_matches(e, rows[0], ecosystem),
            }
        }),
{
    let first = match read_first_csv_record(data) {
        None => {
            return Err(ModifiedIndexErr::EmptyModifiedCsv);
        },
        Some(Err(e)) => {
            return Err(ModifiedIndexErr::Csv(e));
        },
        Some(Ok(record)) => record,
    };
    match OsvModifiedRecord::try_from_csv_record(&first, ecosystem) {
        Ok(entry) => Ok(entry.modified),
        Err(e) => Err(ModifiedIndexErr::ParseRecord(e)),
    }
}


/// What one ecosystem's index gave: the latest instant and the new entries, or an error.
pub type Collected = Result<(Timestamp, Vec<OsvModifiedRecord>), ModifiedIndexErr>;

/// Folding the per-ecosystem results in order, starting from the latest instant `last` and the
/// entries gathered so far: `None` if some result is an error.
pub open spec fn merged(last: Timestamp, gathered: Seq<ModifiedEntry>, results: Seq<Collected>) -> Option<
    (Timestamp, Seq<ModifiedEntry>),
>
    decreases results.len(),
{
    if results.len() == 0 {
        Some((last, gathered))
    } else {
        match results[0] {
            Err(_) => None,
            Ok((t, v)) => merged(
                ts_max(last, t),
                gathered + v@.map_values(|m: OsvModifiedRecord| m@),
                results.drop_first(),
            ),
        }
    }
}

/// Folding stops at an error exactly when some result is one.
proof fn lemma_merged_fails(last: Timestamp, gathered: Seq<ModifiedEntry>, results: Seq<Collected>)
    ensures
        merged(last, gathered, results) is None <==> exists|i: int|
            0 <= i < results.len() && #[trigger] results[i] is Err,
    decreases results.len(),
{
    if results.len() > 0 {
        if let Ok((t, v)) = results[0] {
            lemma_merged_fails(
                ts_max(last, t),
                gathered + v@.map_values(|m: OsvModifiedRecord| m@),
                results.drop_first(),
            );
            if exists|i: int| 0 <= i < results.len() && #[trigger] results[i] is Err {
                let i = choose|i: int| 0 <= i < results.len() && #[trigger] results[i] is Err;
                assert(results.drop_first()[i - 1] is Err);
            }
            if exists|i: int|
                0 <= i < results.drop_first().len() && #[trigger] results.drop_first()[i] is Err {
                let i = choose|i: int|
                    0 <= i < results.drop_first().len() && #[trigger] results.drop_first()[i] is Err;
                assert(results[i + 1] is Err);
            }
        } else {
            assert(results[0] is Err);
        }
    }
}

/// Merging never moves the latest change back: the merged instant is at or after the starting
/// one and after every ecosystem's instant, and it is one of them.
pub proof fn lemma_merged_is_latest(last: Timestamp, gathered: Seq<ModifiedEntry>, results: Seq<Collected>)
    requires
        merged(last, gathered, results) is Some,
    ensures
        ts_le(last, merged(last, gathered, results).unwrap().0),
        forall|i: int|
            0 <= i < results.len() ==> (#[trigger] results[i] matches Ok((t, _)) ==> ts_le(
                t,
                merged(last, gathered, results).unwrap().0,
            )),
        merged(last, gathered, results).unwrap().0 == last || exists|i: int|
            0 <= i < results.len() && (#[trigger] results[i] matches Ok((t, _)) && t == merged(
                last,
                gathered,
                results,
            ).unwrap().0),
    decreases results.len(),
{
    if results.len() > 0 {
        if let Ok((t, v)) = results[0] {
            let next = ts_max(last, t);
            let more = gathered + v@.map_values(|m: OsvModifiedRecord| m@);
            let rest = results.drop_first();
            lemma_merged_is_latest(next, more, rest);
            let l = merged(last, gathered, results).unwrap().0;
            assert forall|i: int| 0 <= i < results.len() implies (#[trigger] results[i] matches Ok((
                u,
                _,
            )) ==> ts_le(u, l)) by {
                if i > 0 {
                    assert(results[i] == rest[i - 1]);
                }
            }
            if l != last && l != next {
                let j = choose|j: int|
                    0 <= j < rest.len() && (#[trigger] rest[j] matches Ok((u, _)) && u == l);
                assert(results[j + 1] == rest[j]);
            }
        }
    }
}

/// The entries of all the results, in order: those of the first result, then those of the
/// next, and so on.
pub open spec fn all_entries(results: Seq<Collected>) -> Seq<ModifiedEntry>
    decreases results.len(),
{
    if results.len() == 0 {
        Seq::empty()
    } else {
        let rest = all_entries(results.drop_first());
        match results[0] {
            Ok((_, v)) => v@.map_values(|m: OsvModifiedRecord| m@) + rest,
            Err(_) => rest,
        }
    }
}

/// Merging keeps every ecosystem's entries: the merged entries are those gathered before,
/// followed by the entries of every result, in order, whatever their instants.
pub proof fn lemma_merged_keeps_all_entries(last: Timestamp, gathered: Seq<ModifiedEntry>, results: Seq<Collected>)
    requires
        merged(last, gathered, results) is Some,
    ensures
        merged(last, gathered, results).unwrap().1 == gathered + all_entries(results),
    decreases results.len(),
{
    if results.len() == 0 {
        assert(gathered + all_entries(results) =~= gathered);
    } else if let Ok((t, v)) = results[0] {
        let added = v@.map_values(|m: OsvModifiedRecord| m@);
        lemma_merged_keeps_all_entries(ts_max(last, t), gathered + added, results.drop_first());
        assert(gathered + added + all_entries(results.drop_first()) =~= gathered + all_entries(
            results,
        ));
    }
}

/// Every entry of an ecosystem's result was modified strictly after `since` (an error holds
/// none).
pub open spec fn modified_after(c: Collected, since: Timestamp) -> bool {
    match c {
        Ok((_, v)) => forall|k: int| 0 <= k < v@.len() ==> !ts_le(#[trigger] v@[k].modified, since),
        Err(_) => true,
    }
}

/// Every merged entry was modified strictly after `since`, when every entry gathered so far
/// and every entry of every ecosystem's result was.
pub proof fn lemma_merged_entries_after(
    since: Timestamp,
    last: Timestamp,
    gathered: Seq<ModifiedEntry>,
    results: Seq<Collected>,
)
    requires
        merged(last, gathered, results) is Some,
        forall|k: int| 0 <= k < gathered.len() ==> !ts_le(#[trigger] gathered[k].0, since),
        forall|i: int| 0 <= i < results.len() ==> modified_after(#[trigger] results[i], since),
    ensures
        forall|k: int|
            0 <= k < merged(last, gathered, results).unwrap().1.len() ==> !ts_le(
                #[trigger] merged(last, gathered, results).unwrap().1[k].0,
                since,
            ),
    decreases results.len(),
{
    if results.len() > 0 {
        if let Ok((t, v)) = results[0] {
            let added = v@.map_values(|m: OsvModifiedRecord| m@);
            let more = gathered + added;
            let rest = results.drop_first();
            assert(modified_after(results[0], since));
            assert forall|k: int| 0 <= k < more.len() implies !ts_le(#[trigger] more[k].0, since) by {
                if k >= gathered.len() {
                    assert(more[k] == added[k - gathered.len()]);
                }
            }
            assert forall|i: int| 0 <= i < rest.len() implies modified_after(#[trigger] rest[i], since) by {
                assert(rest[i] == results[i + 1]);
            }
            lemma_merged_entries_after(since, ts_max(last, t), more, rest);
        }
    }
}

/// Merges what the indexes of several ecosystems gave, in order: the first error, or the latest
/// of `since` and their instants together with all their entries.
pub fn merge_collected(since: Timestamp, results: Vec<Collected>) -> (r: Collected)
    ensures
        match r {
            Ok((last, entries)) => {
                &&& merged(since, Seq::empty(), results@) == Some(
                    (last, entries@.map_values(|m: OsvModifiedRecord| m@)),
                )
                &&& entries@.map_values(|m: OsvModifiedRecord| m@) == all_entries(results@)
                &&& ts_le(since, last)
                &&& forall|i: int|
                    0 <= i < results@.len() ==> (#[trigger] results@[i] matches Ok((t, _)) ==> ts_le(
                        t,
                        last,
                    ))
            },
            Err(e) => merged(since, Seq::empty(), results@) is None && exists|i: int|
                #![trigger results@[i]]
                0 <= i < results@.len() && (results@[i] matches Err(x) && x == e) && forall|j: int|
                    0 <= j < i ==> #[trigger] results@[j] is Ok,
        },
{
    let ghost all = results@;
    let mut rest = results;
    let mut last = since;
    let mut entries: Vec<OsvModifiedRecord> = Vec::new();
    let ghost mut i: int = 0;
    proof {
        assert(all.subrange(0, all.len() as int) =~= all);
    }
    while rest.len() > 0
        invariant
            all == results@,
            0 <= i <= all.len(),
            rest@ == all.subrange(i, all.len() as int),
            forall|j: int| 0 <= j < i ==> #[trigger] all[j] is Ok,
            merged(since, Seq::empty(), all) == merged(
                last,
                entries@.map_values(|m: OsvModifiedRecord| m@),
                rest@,
            ),
        decreases rest@.len(),
    {
        let ghost before = rest@;
        let ghost gathered = entries@;
        let head = rest.remove(0);
        assert(rest@ =~= before.drop_first());
        assert(before[0] == all[i]);
        match head {
            Err(e) => {
                assert(all[i] matches Err(x) && x == e);
                assert(merged(last, entries@.map_values(|m: OsvModifiedRecord| m@), before) is None);
                return Err(e);
            },
            Ok((t, v)) => {
                let mut v = v;
                let ghost added = v@;
                last = last.max(t);
                entries.append(&mut v);
                assert(entries@.map_values(|m: OsvModifiedRecord| m@) =~= gathered.map_values(
                    |m: OsvModifiedRecord| m@,
                ) + added.map_values(|m: OsvModifiedRecord| m@));
            },
        }
        proof {
            i = i + 1;
            assert(rest@ =~= all.subrange(i, all.len() as int));
        }
    }
    proof {
        assert(merged(last, entries@.map_values(|m: OsvModifiedRecord| m@), rest@) == Some(
            (last, entries@.map_values(|m: OsvModifiedRecord| m@)),
        ));
        lemma_merged_keeps_all_entries(since, Seq::empty(), all);
        lemma_merged_is_latest(since, Seq::empty(), all);
        assert(Seq::<ModifiedEntry>::empty() + all_entries(all) =~= all_entries(all));
    }
    Ok((last, entries))
}

/// Folding latest instants in order from chrono's earliest instant: `None` if some result is
/// an error.
pub open spec fn latest_of(last: Timestamp, results: Seq<Result<Timestamp, ModifiedIndexErr>>) -> Option<
    Timestamp,
>
    decreases results.len(),
{
    if results.len() == 0 {
        Some(last)
    } else {
        match results[0] {
            Err(_) => None,
            Ok(t) => latest_of(ts_max(last, t), results.drop_first()),
        }
    }
}

/// The folded instant is the latest of the starting one and of every ecosystem's instant: at
/// or after each of them, and one of them.
pub proof fn lemma_latest_of_is_max(last: Timestamp, results: Seq<Result<Timestamp, ModifiedIndexErr>>)
    requires
        latest_of(last, results) is Some,
    ensures
        ts_le(last, latest_of(last, results).unwrap()),
        forall|i: int|
            0 <= i < results.len() ==> (#[trigger] results[i] matches Ok(t) ==> ts_le(
                t,
                latest_of(last, results).unwrap(),
            )),
        latest_of(last, results).unwrap() == last || exists|i: int|
            0 <= i < results.len() && (#[trigger] results[i] matches Ok(t) && t == latest_of(
                last,
                results,
            ).unwrap()),
    decreases results.len(),
{
    if results.len() > 0 {
        if let Ok(t) = results[0] {
            let next = ts_max(last, t);
            let rest = results.drop_first();
            lemma_latest_of_is_max(next, rest);
            let l = latest_of(last, results).unwrap();
            assert forall|i: int| 0 <= i < results.len() implies (#[trigger] results[i] matches Ok(
                u,
            ) ==> ts_le(u, l)) by {
                if i > 0 {
                    assert(results[i] == rest[i - 1]);
                }
            }
            if l != last && l != next {
                let j = choose|j: int| 0 <= j < rest.len() && (#[trigger] rest[j] matches Ok(u) && u == l);
                assert(results[j + 1] == rest[j]);
            }
        }
    }
}

/// The latest of the instants that the indexes of several ecosystems gave, starting from
/// chrono's earliest instant; the first error, in order, if any.
pub fn latest_modified(results: Vec<Result<Timestamp, ModifiedIndexErr>>) -> (r: Result<
    Timestamp,
    ModifiedIndexErr,
>)
    ensures
        match r {
            Ok(t) => latest_of(Timestamp::min_utc_spec(), results@) == Some(t),
            Err(e) => latest_of(Timestamp::min_utc_spec(), results@) is None && exists|i: int|
                #![trigger results@[i]]
                0 <= i < results@.len() && (results@[i] matches Err(x) && x == e) && forall|j: int|
                    0 <= j < i ==> #[trigger] results@[j] is Ok,
        },
{
    let ghost all = results@;
    let mut rest = results;
    let mut last = Timestamp::min_utc();
    let ghost mut i: int = 0;
    proof {
        assert(all.subrange(0, all.len() as int) =~= all);
    }
    while rest.len() > 0
        invariant
            all == results@,
            0 <= i <= all.len(),
            rest@ == all.subrange(i, all.len() as int),
            forall|j: int| 0 <= j < i ==> #[trigger] all[j] is Ok,
            latest_of(Timestamp::min_utc_spec(), all) == latest_of(last, rest@),
        decreases rest@.len(),
    {
        let ghost before = rest@;
        let head = rest.remove(0);
        assert(rest@ =~= before.drop_first());
        assert(before[0] == all[i]);
        match head {
            Err(e) => {
                assert(all[i] matches Err(x) && x == e);
                assert(latest_of(last, before) is None);
                return Err(e);
            },
            Ok(t) => {
                last = last.max(t);
            },
        }
        proof {
            i = i + 1;
            assert(rest@ =~= all.subrange(i, all.len() as int));
        }
    }
    Ok(last)
}

} // verus!
