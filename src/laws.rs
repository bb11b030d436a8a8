//! Properties of the store that relate several operations.

use vstd::prelude::*;
use crate::json::JsonValue;
use crate::record::{RecordView, Verdict};
use crate::store::{normalized_records, with_name_at};

verus! {

/// Loading what was saved gives back the same records, as long as no record
/// holds null annotations (those come back as an empty object).
pub proof fn lemma_reload_keeps_records(saved: Map<u64, RecordView>, loaded: Map<u64, RecordView>)
    requires
        forall|k: u64| #[trigger] saved.contains_key(k) ==> !(saved[k].custom_data is Null),
        normalized_records(loaded, saved),
    ensures
        loaded == saved,
{
    assert(loaded =~= saved);
}

/// After a load no record holds null annotations, and loading the result
/// again changes nothing.
pub proof fn lemma_normalize_fixed_point(
    file: Map<u64, RecordView>,
    once: Map<u64, RecordView>,
    twice: Map<u64, RecordView>,
)
    requires
        normalized_records(once, file),
        normalized_records(twice, once),
    ensures
        forall|k: u64| #[trigger] once.contains_key(k) ==> !(once[k].custom_data is Null),
        twice == once,
{
    assert forall|k: u64| #[trigger] once.contains_key(k) implies !(once[k].custom_data is Null) by {
        assert(once[k].normalized_from(file[k]));
    }
    assert(twice =~= once);
}

/// Seeing the same name twice records it once; a name not yet recorded goes
/// after the earlier ones, which keep their order.
pub proof fn lemma_update_name_twice(records: Map<u64, RecordView>, steamid: u64, name: Seq<char>)
    ensures
        with_name_at(with_name_at(records, steamid, name), steamid, name) == with_name_at(
            records,
            steamid,
            name,
        ),
        records.contains_key(steamid) ==> with_name_at(records, steamid, name)[steamid].previous_names.contains(name),
        records.contains_key(steamid) && records[steamid].previous_names.no_duplicates()
            ==> with_name_at(records, steamid, name)[steamid].previous_names.no_duplicates(),
        records.contains_key(steamid) && !records[steamid].previous_names.contains(name)
            ==> with_name_at(records, steamid, name)[steamid].previous_names
            == records[steamid].previous_names.push(name),
{
    if records.contains_key(steamid) {
        let r = records[steamid];
        let once = with_name_at(records, steamid, name);
        if !r.previous_names.contains(name) {
            assert(r.previous_names.push(name)[r.previous_names.len() as int] == name);
            assert(once[steamid].previous_names.contains(name));
            if r.previous_names.no_duplicates() {
                let s = r.previous_names.push(name);
                assert forall|i: int, j: int| 0 <= i < s.len() && 0 <= j < s.len() && i != j
                    implies s[i] != s[j] by {
                    if i < r.previous_names.len() && j < r.previous_names.len() {
                    } else if i < r.previous_names.len() {
                        assert(r.previous_names[i] == s[i]);
                    } else {
                        assert(r.previous_names[j] == s[j]);
                    }
                }
            }
        }
        assert(with_name_at(once, steamid, name) =~= once);
    }
}

/// Seeing a name for an identifier without a record creates none.
pub proof fn lemma_update_name_unknown(records: Map<u64, RecordView>, steamid: u64, name: Seq<char>)
    requires
        !records.contains_key(steamid),
    ensures
        with_name_at(records, steamid, name) == records,
{
}

/// A new record is empty; a verdict other than `Player`, or annotations that
/// are a non-empty object, array or string, make a record non-empty.
pub proof fn lemma_is_empty(r: RecordView)
    ensures
        r.verdict == Verdict::Player && r.custom_data.is_empty_object() ==> r.is_empty(),
        r.verdict != Verdict::Player ==> !r.is_empty(),
        (match r.custom_data {
            JsonValue::Object(m) => m@.len() > 0,
            JsonValue::Array(a) => a@.len() > 0,
            JsonValue::String(s) => s@.len() > 0,
            _ => false,
        }) ==> !r.is_empty(),
{
}

} // verus!
