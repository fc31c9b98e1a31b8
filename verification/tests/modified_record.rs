use csv::StringRecord;
use osv::modified_record::{collect_entries_from_csv, first_modified_from_csv, latest_modified, merge_collected};
use osv::{ModifiedIndexErr, OsvGsEcosystem, OsvModifiedRecord, ParseModifiedRecordErr, Timestamp};

fn ts(s: &str) -> Timestamp {
    let dt: chrono::DateTime<chrono::Utc> = s.parse().unwrap();
    Timestamp::new(dt.timestamp(), dt.timestamp_subsec_nanos())
}

#[test]
fn all_ecosystem_row() {
    let rec = StringRecord::from(vec!["2026-03-05T05:53:11Z", "crates.io/RUSTSEC-2026-0032"]);
    let m = OsvModifiedRecord::try_from_csv_record(&rec, None).unwrap();
    assert_eq!(m.modified, ts("2026-03-05T05:53:11Z"));
    assert_eq!(m.ecosystem, OsvGsEcosystem::CratesIo);
    assert_eq!(m.id, "RUSTSEC-2026-0032");
}

#[test]
fn per_ecosystem_row_keeps_the_whole_path() {
    let rec = StringRecord::from(vec!["2025-01-02T03:04:05.5Z", "JLSEC-2025-329"]);
    let m = OsvModifiedRecord::try_from_csv_record(&rec, Some(OsvGsEcosystem::Julia)).unwrap();
    assert_eq!(m.modified, Timestamp::new(1_735_787_045, 500_000_000));
    assert_eq!(m.ecosystem, OsvGsEcosystem::Julia);
    assert_eq!(m.id, "JLSEC-2025-329");
    let rec = StringRecord::from(vec!["2025-01-02T03:04:05Z", "a/b"]);
    let m = OsvModifiedRecord::try_from_csv_record(&rec, Some(OsvGsEcosystem::Go)).unwrap();
    assert_eq!(m.id, "a/b");
}

#[test]
fn row_errors() {
    let rec = StringRecord::from(vec!["2026-03-05T05:53:11Z"]);
    assert!(matches!(
        OsvModifiedRecord::try_from_csv_record(&rec, None),
        Err(ParseModifiedRecordErr::WrongColumnCount(1))
    ));
    let rec = StringRecord::from(vec!["a", "b", "c"]);
    assert!(matches!(
        OsvModifiedRecord::try_from_csv_record(&rec, None),
        Err(ParseModifiedRecordErr::WrongColumnCount(3))
    ));
    let rec = StringRecord::from(vec!["yesterday", "crates.io/X"]);
    assert!(matches!(
        OsvModifiedRecord::try_from_csv_record(&rec, None),
        Err(ParseModifiedRecordErr::ParseTimestamp(_))
    ));
    let rec = StringRecord::from(vec!["2026-03-05T05:53:11Z", "nope/X"]);
    assert!(matches!(
        OsvModifiedRecord::try_from_csv_record(&rec, None),
        Err(ParseModifiedRecordErr::ParseEcosystem(_))
    ));
    let rec = StringRecord::from(vec!["2026-03-05T05:53:11Z", "RUSTSEC-2026-0032"]);
    match OsvModifiedRecord::try_from_csv_record(&rec, None) {
        Err(ParseModifiedRecordErr::InvalidPathFormat(p)) => assert_eq!(p, "RUSTSEC-2026-0032"),
        other => panic!("unexpected {other:?}"),
    }
}

const INDEX: &str = "2026-03-06T10:00:00Z,crates.io/RUSTSEC-2026-0040\n\
2026-03-05T05:53:11Z,crates.io/RUSTSEC-2026-0032\n\
2026-03-04T00:00:00Z,PyPI/PYSEC-2026-1\n\
not a row\n";

#[test]
fn collect_stops_at_old_entries() {
    let since = ts("2026-03-05T00:00:00Z");
    let (last, entries) = collect_entries_from_csv(INDEX.as_bytes(), None, since).unwrap();
    assert_eq!(last, ts("2026-03-06T10:00:00Z"));
    let ids: Vec<&str> = entries.iter().map(|e| e.id.as_str()).collect();
    assert_eq!(ids, vec!["RUSTSEC-2026-0040", "RUSTSEC-2026-0032"]);
    for e in &entries {
        assert!(!e.modified.le(&since));
    }
}

#[test]
fn collect_with_nothing_new() {
    let since = ts("2026-03-07T00:00:00Z");
    let (last, entries) = collect_entries_from_csv(INDEX.as_bytes(), None, since).unwrap();
    assert_eq!(last, since);
    assert!(entries.is_empty());
    let (last, entries) = collect_entries_from_csv(b"", None, since).unwrap();
    assert_eq!(last, since);
    assert!(entries.is_empty());
}

#[test]
fn collect_reports_a_bad_row_before_the_stop() {
    let since = ts("2000-01-01T00:00:00Z");
    assert!(matches!(
        collect_entries_from_csv(INDEX.as_bytes(), None, since),
        Err(ModifiedIndexErr::Csv(_))
    ));
    let bad_date = "2026-03-06T10:00:00Z,crates.io/A\nlater,crates.io/B\n";
    assert!(matches!(
        collect_entries_from_csv(bad_date.as_bytes(), None, since),
        Err(ModifiedIndexErr::ParseRecord(ParseModifiedRecordErr::ParseTimestamp(_)))
    ));
}

#[test]
fn first_modified() {
    assert_eq!(
        first_modified_from_csv(INDEX.as_bytes(), None).unwrap(),
        ts("2026-03-06T10:00:00Z")
    );
    assert!(matches!(
        first_modified_from_csv(b"", None),
        Err(ModifiedIndexErr::EmptyModifiedCsv)
    ));
    assert!(matches!(
        first_modified_from_csv(b"2026-03-06T10:00:00Z\n", Some(OsvGsEcosystem::Go)),
        Err(ModifiedIndexErr::ParseRecord(ParseModifiedRecordErr::WrongColumnCount(1)))
    ));
}

fn rec(id: &str, modified: Timestamp) -> OsvModifiedRecord {
    OsvModifiedRecord { modified, ecosystem: OsvGsEcosystem::Npm, id: id.to_string() }
}

#[test]
fn merging_keeps_order_and_latest() {
    let since = Timestamp::new(100, 0);
    let merged = merge_collected(
        since,
        vec![
            Ok((Timestamp::new(150, 0), vec![rec("A", Timestamp::new(150, 0))])),
            Ok((since, vec![])),
            Ok((Timestamp::new(300, 1), vec![rec("B", Timestamp::new(300, 1)), rec("C", Timestamp::new(200, 0))])),
        ],
    )
    .unwrap();
    assert_eq!(merged.0, Timestamp::new(300, 1));
    let ids: Vec<&str> = merged.1.iter().map(|e| e.id.as_str()).collect();
    assert_eq!(ids, vec!["A", "B", "C"]);
    assert!(matches!(
        merge_collected(since, vec![Ok((since, vec![])), Err(ModifiedIndexErr::EmptyModifiedCsv)]),
        Err(ModifiedIndexErr::EmptyModifiedCsv)
    ));
    assert_eq!(merge_collected(since, vec![]).unwrap().0, since);
}

#[test]
fn latest_of_ecosystems() {
    assert_eq!(
        latest_modified(vec![Ok(Timestamp::new(5, 0)), Ok(Timestamp::new(9, 0)), Ok(Timestamp::new(7, 0))])
            .unwrap(),
        Timestamp::new(9, 0)
    );
    assert_eq!(latest_modified(vec![]).unwrap(), Timestamp::min_utc());
    assert!(matches!(
        latest_modified(vec![Ok(Timestamp::new(5, 0)), Err(ModifiedIndexErr::EmptyModifiedCsv)]),
        Err(ModifiedIndexErr::EmptyModifiedCsv)
    ));
}

#[test]
fn merging_never_moves_back() {
    let since = Timestamp::new(500, 0);
    let merged = merge_collected(
        since,
        vec![Ok((Timestamp::new(400, 0), vec![])), Ok((Timestamp::new(499, 999), vec![]))],
    )
    .unwrap();
    assert_eq!(merged.0, since);
    assert!(merged.1.is_empty());
}

#[test]
fn row_written_for_an_entry_reads_back() {
    let dt: chrono::DateTime<chrono::Utc> = "2024-11-30T23:59:58.25Z".parse().unwrap();
    let date = dt.to_rfc3339();
    for e in [OsvGsEcosystem::CratesIo, OsvGsEcosystem::Npm, OsvGsEcosystem::Julia] {
        let id = "GHSA-xxxx/with-slash";
        let all = StringRecord::from(vec![date.clone(), format!("{}/{id}", e.as_str())]);
        let m = OsvModifiedRecord::try_from_csv_record(&all, None).unwrap();
        assert_eq!((m.modified, m.ecosystem, m.id.as_str()), (ts("2024-11-30T23:59:58.25Z"), e, id));
        let one = StringRecord::from(vec![date.clone(), id.to_string()]);
        let m = OsvModifiedRecord::try_from_csv_record(&one, Some(e)).unwrap();
        assert_eq!((m.modified, m.ecosystem, m.id.as_str()), (ts("2024-11-30T23:59:58.25Z"), e, id));
    }
}
