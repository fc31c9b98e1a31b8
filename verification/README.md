# osv

Working with the [OSV (Open Source Vulnerabilities)](https://osv.dev) ecosystem: the record
types of the [OSV schema](https://ossf.github.io/osv-schema/), the evaluation of a pinned
package against an `affected` entry, and a local copy of the OSV database kept up to date
from <https://storage.googleapis.com/osv-vulnerabilities>.

## Layout

- `src/` is the library, verified with Verus. Every public function states what it returns
  in its contract, and the laws of the library are public proof functions beside it:
  - `ecosystem`, `osv_gs`: the ecosystem names of the schema and of the bucket, with their
    parse/print round trips, and the set of targeted ecosystems;
  - `evaluation`: the schema's evaluation algorithm, with the events of a range taken in
    version order, over the comparisons that the version parser reported (of the package
    version with each event, and of the events with each other);
  - `modified_record`: reading the `modified_id.csv` indexes, what a sync downloads and which
    instant it records;
  - `timestamp`: UTC instants, their order and their nanosecond form;
  - `db`, `downloader`: record file names, and the planning of ranged downloads;
  - `types`, `manifest`, `package`, `version`: the data the rest works on.
- `tests/` runs the library on concrete values.
- `app/` is the unverified rest: HTTP, files, archives and tasks (`OsvDb`, the downloaders),
  JSON through serde, and the bindings to the osv-scalibr version parser and manifest
  extractor, a C library built from Go.
