//! Layout of the on-disk OSV database: which names record files have, and which files are
//! records.
use vstd::prelude::*;

use crate::text::{find_char, str_eq};

verus! {

/// Name of the directory, within the database location, that holds the record files.
pub const RECORDS_DIRECTORY: &'static str = "records";

/// Extension of record files.
pub const OSV_RECORD_FILE_EXTENSION: &'static str = "json";

/// `id` is a plain file name: on Unix, `Path::components` reads it as a single normal component
/// equal to `id` (it is not empty, holds no `'/'`, and is neither `"."` nor `".."`).
pub open spec fn is_plain_file_name(id: Seq<char>) -> bool {
    &&& id.len() > 0
    &&& forall|i: int| 0 <= i < id.len() ==> id[i] != '/'
    &&& id != "."@
    &&& id != ".."@
}

/// The ids that name a record file are exactly those that are not empty, hold no `'/'` and
/// are neither `"."` nor `".."`: any other character, `':'` among them, may stand in an id.
pub proof fn lemma_plain_file_names(id: Seq<char>)
    ensures
        is_plain_file_name(id) <==> (id.len() > 0 && (forall|i: int| 0 <= i < id.len() ==> id[i] != '/')
            && id != "."@ && id != ".."@),
{
}

/// `i` is the position of the last `'.'` of `name`.
pub open spec fn is_last_dot(name: Seq<char>, i: int) -> bool {
    &&& 0 <= i < name.len()
    &&& name[i] == '.'
    &&& forall|j: int| i < j < name.len() ==> name[j] != '.'
}

/// The extension of a file name, as `Path::extension` documents it: the part after the last
/// `'.'`; none if there is no `'.'`, if the only `'.'` starts the name, or for `".."`.
pub open spec fn file_extension(name: Seq<char>) -> Option<Seq<char>> {
    if name == ".."@ {
        None
    } else if exists|i: int| is_last_dot(name, i) {
        let i = choose|i: int| is_last_dot(name, i);
        if i == 0 {
            None
        } else {
            Some(name.subrange(i + 1, name.len() as int))
        }
    } else {
        None
    }
}

/// The name of the file that holds the record `id` (`"<id>.json"`), or `None` when `id` is not
/// a plain file name, so that a lookup cannot leave the records directory.
pub fn record_file_name(id: &str) -> (r: Option<String>)
    ensures
        match r {
            Some(name) => is_plain_file_name(id@) && name@ == id@ + ".json"@,
            None => !is_plain_file_name(id@),
        },
        r is Some <==> (id@.len() > 0 && (forall|i: int| 0 <= i < id@.len() ==> id@[i] != '/')
            && id@ != "."@ && id@ != ".."@),
{
    proof {
        lemma_plain_file_names(id@);
    }
    if id.unicode_len() == 0 {
        return None;
    }
    if find_char(id, '/').is_some() {
        return None;
    }
    if str_eq(id, ".") || str_eq(id, "..") {
        return None;
    }
    let mut name = String::from_str(id);
    name.append(".json");
    Some(name)
}

/// Whether the file `name` in the records directory is a record file: its extension is
/// `"json"`.
pub fn is_record_file(name: &str) -> (r: bool)
    ensures
        r == (file_extension(name@) == Some("json"@)),
{
    if str_eq(name, "..") {
        return false;
    }
    let n = name.unicode_len();
    let mut k: usize = n;
    while k > 0
        invariant
            n == name@.len(),
            name@ != ".."@,
            k <= n,
            forall|j: int| k <= j < n ==> name@[j] != '.',
        decreases k,
    {
        if name.get_char(k - 1) == '.' {
            let i = k - 1;
            proof {
                assert(is_last_dot(name@, i as int));
                let c = choose|c: int| is_last_dot(name@, c);
                if c < i {
                    assert(name@[i as int] != '.');
                } else if i < c {
                    assert(name@[c] != '.');
                }
            }
            if i == 0 {
                return false;
            }
            let ext = name.substring_char(i + 1, n);
            return str_eq(ext, "json");
        }
        k = k - 1;
    }
    false
}

} // verus!
