//! The record store: identifier to record, bound to its backing file.

use std::collections::HashMap;
use vstd::prelude::*;
use vstd::std_specs::hash::spec_keys_iter;
use vstd::std_specs::iter::IteratorSpec;
use crate::record::{PlayerRecord, RecordView};

verus! {

broadcast use vstd::std_specs::hash::group_hash_axioms;

/// What a failed store operation ran into.
#[derive(Debug)]
pub enum StoreError {
    /// The backing file does not exist.
    NotFound { path: String },
    /// Reading or writing the file failed otherwise.
    Io { path: String, message: String },
    /// The file's content, or the records, could not be (de)serialised.
    Format { path: String, message: String },
    /// No configuration directory could be determined.
    DirectoryUnavailable { message: String },
}

/// All records, keyed by player identifier, and the file they are saved to.
#[derive(Debug)]
pub struct PlayerRecords {
    /// The file that `records` are saved to; not itself saved.
    pub path: String,
    pub records: HashMap<u64, PlayerRecord>,
}

/// The content of a `PlayerRecords`.
pub struct StoreView {
    pub path: Seq<char>,
    pub records: Map<u64, RecordView>,
}

pub open spec fn records_view(m: Map<u64, PlayerRecord>) -> Map<u64, RecordView> {
    m.map_values(|r: PlayerRecord| r@)
}

impl View for PlayerRecords {
    type V = StoreView;

    open spec fn view(&self) -> StoreView {
        StoreView { path: self.path@, records: records_view(self.records@) }
    }
}

/// `new` is `old` after the repair of a load, record by record.
pub open spec fn normalized_records(new: Map<u64, RecordView>, old: Map<u64, RecordView>) -> bool {
    &&& new.dom() == old.dom()
    &&& forall|k: u64| #[trigger] new.contains_key(k) ==> new[k].normalized_from(old[k])
}

/// `records` after `name` was seen for `steamid`: that record gains the name,
/// and no record is created.
pub open spec fn with_name_at(records: Map<u64, RecordView>, steamid: u64, name: Seq<char>) -> Map<
    u64,
    RecordView,
> {
    if records.contains_key(steamid) {
        records.insert(steamid, records[steamid].with_name(name))
    } else {
        records
    }
}

/// The name of the record file, in the configuration directory or, failing
/// that, in the working directory.
pub open spec fn spec_playerlist_file_name() -> Seq<char> {
    "playerlist.json"@
}

pub fn playerlist_file_name() -> (r: String)
    ensures
        r@ == spec_playerlist_file_name(),
{
    "playerlist.json".to_owned()
}

/// The path to save to, given what the configuration-directory lookup gave:
/// the located path, or the bare file name together with the lookup's error,
/// which the caller may report.
pub fn path_or_fallback(located: Result<String, StoreError>) -> (r: (String, Option<StoreError>))
    ensures
        match located {
            Ok(p) => r.0 == p && r.1 is None,
            Err(e) => r.0@ == spec_playerlist_file_name() && r.1 == Some(e),
        },
{
    match located {
        Ok(p) => (p, None),
        Err(e) => (playerlist_file_name(), Some(e)),
    }
}

fn key_list(m: &HashMap<u64, PlayerRecord>) -> (r: Vec<u64>)
    ensures
        r@.to_set() == m@.dom(),
        r@.no_duplicates(),
{
    let mut v: Vec<u64> = Vec::new();
    let ghost all = spec_keys_iter(m).remaining().unref();
    for k in it: m.keys()
        invariant
            all == it.seq().unref(),
            v@ == all.take(it.index() as int),
            it.index() <= all.len(),
    {
        v.push(*k);
        assert(v@ =~= all.take(it.index() as int + 1));
    }
    assert(v@ =~= all);
    v
}

fn normalize_all(m: &mut HashMap<u64, PlayerRecord>)
    ensures
        normalized_records(records_view(final(m)@), records_view(old(m)@)),
{
    let ids = key_list(m);
    let ghost m0 = m@;
    let mut i: usize = 0;
    while i < ids.len()
        invariant
            0 <= i <= ids.len(),
            ids@.to_set() == m0.dom(),
            ids@.no_duplicates(),
            m@.dom() == m0.dom(),
            forall|j: int| 0 <= j < i ==> (#[trigger] m@[ids@[j]])@.normalized_from(m0[ids@[j]]@),
            forall|k: u64| m0.contains_key(k) && !ids@.take(i as int).contains(k) ==> m@[k] == m0[k],
        decreases ids.len() - i,
    {
        let id = ids[i];
        assert(ids@.to_set().contains(id));
        assert(!ids@.take(i as int).contains(id)) by {
            if ids@.take(i as int).contains(id) {
                let j = choose|j: int| 0 <= j < i && ids@.take(i as int)[j] == id;
                assert(ids@[j] == ids@[i as int]);
            }
        }
        let ghost before = m@;
        match m.remove(&id) {
            Some(mut rec) => {
                rec.normalize();
                m.insert(id, rec);
            },
            None => {
                assert(false);
            },
        }
        assert(m@.dom() =~= m0.dom());
        assert forall|j: int| 0 <= j < i + 1 implies (#[trigger] m@[ids@[j]])@.normalized_from(m0[ids@[j]]@) by {
            if j < i {
                assert(ids@[j] != id);
            }
        }
        assert forall|k: u64| m0.contains_key(k) && !ids@.take(i + 1).contains(k) implies m@[k] == m0[k] by {
            assert(ids@.take(i + 1) =~= ids@.take(i as int).push(id));
            assert(ids@.take(i + 1)[i as int] == id);
            assert(k != id);
            assert(!ids@.take(i as int).contains(k));
        }
        i += 1;
    }
    assert forall|k: u64| #[trigger] records_view(m@).contains_key(k) implies records_view(m@)[k].normalized_from(records_view(m0)[k]) by {
        assert(ids@.to_set().contains(k));
        let j = choose|j: int| 0 <= j < ids@.len() && ids@[j] == k;
        assert(m@[ids@[j]]@.normalized_from(m0[ids@[j]]@));
    }
}

impl PlayerRecords {
    /// A store without records, bound to `path`.
    pub fn new(path: String) -> (r: Self)
        ensures
            r@.path == path@,
            r@.records == Map::<u64, RecordView>::empty(),
    {
        let r = PlayerRecords { path, records: HashMap::new() };
        assert(r@.records =~= Map::<u64, RecordView>::empty());
        r
    }

    /// The store read from `path`, given what reading and parsing the file
    /// gave. Records with null annotations get an empty object instead.
    pub fn load_from(path: String, parsed: Result<HashMap<u64, PlayerRecord>, StoreError>) -> (r:
        Result<Self, StoreError>)
        ensures
            match parsed {
                Ok(m) => {
                    &&& r is Ok
                    &&& r->Ok_0@.path == path@
                    &&& normalized_records(r->Ok_0@.records, records_view(m@))
                },
                Err(e) => r == Err::<Self, StoreError>(e),
            },
    {
        match parsed {
            Ok(m) => {
                let mut records = m;
                normalize_all(&mut records);
                Ok(PlayerRecords { path, records })
            },
            Err(e) => Err(e),
        }
    }

    /// What to do at startup with the outcome of loading `path`: keep the
    /// loaded store; start an empty one bound to `path` when the file does
    /// not exist; any other failure is returned, for the host to stop on
    /// rather than risk overwriting the file.
    pub fn load_or_create(path: String, loaded: Result<Self, StoreError>) -> (r: Result<
        Self,
        StoreError,
    >)
        ensures
            match loaded {
                Ok(s) => r == Ok::<Self, StoreError>(s),
                Err(StoreError::NotFound { .. }) => {
                    &&& r is Ok
                    &&& r->Ok_0@.path == path@
                    &&& r->Ok_0@.records == Map::<u64, RecordView>::empty()
                },
                Err(e) => r == Err::<Self, StoreError>(e),
            },
    {
        match loaded {
            Ok(s) => Ok(s),
            Err(StoreError::NotFound { .. }) => Ok(PlayerRecords::new(path)),
            Err(e) => Err(e),
        }
    }

    /// Binds the store to another file, leaving the records as they are.
    pub fn set_path(&mut self, path: String)
        ensures
            final(self)@.path == path@,
            final(self)@.records == old(self)@.records,
    {
        self.path = path;
    }

    /// The file the store is bound to.
    pub fn path(&self) -> (r: &String)
        ensures
            r@ == self@.path,
    {
        &self.path
    }

    /// Records a name seen for `steamid`: appended to its record's history
    /// unless already there. Without a record for `steamid` nothing changes.
    /// The time of the last manual change is left alone.
    pub fn update_name(&mut self, steamid: u64, name: String)
        ensures
            final(self)@.path == old(self)@.path,
            final(self)@.records == with_name_at(old(self)@.records, steamid, name@),
    {
        match self.records.remove(&steamid) {
            Some(mut record) => {
                record.add_name(name);
                self.records.insert(steamid, record);
                assert(self@.records =~= old(self)@.records.insert(
                    steamid,
                    old(self)@.records[steamid].with_name(name@),
                ));
            },
            None => {
                assert(self.records@ =~= old(self).records@);
            },
        }
    }

    /// The identifiers that have a record, each once, in no particular order.
    pub fn ids(&self) -> (r: Vec<u64>)
        ensures
            r@.to_set() == self@.records.dom(),
            r@.no_duplicates(),
    {
        key_list(&self.records)
    }

    pub fn get(&self, steamid: u64) -> (r: Option<&PlayerRecord>)
        ensures
            match r {
                Some(rec) => self@.records.contains_key(steamid) && rec@ == self@.records[steamid],
                None => !self@.records.contains_key(steamid),
            },
    {
        self.records.get(&steamid)
    }

    pub fn contains_key(&self, steamid: u64) -> (r: bool)
        ensures
            r == self@.records.contains_key(steamid),
    {
        self.records.contains_key(&steamid)
    }

    /// Stores `record` under `steamid`, returning the record it replaces.
    pub fn insert(&mut self, steamid: u64, record: PlayerRecord) -> (r: Option<PlayerRecord>)
        ensures
            final(self)@.path == old(self)@.path,
            final(self)@.records == old(self)@.records.insert(steamid, record@),
            match r {
                Some(prev) => old(self)@.records.contains_key(steamid) && prev@
                    == old(self)@.records[steamid],
                None => !old(self)@.records.contains_key(steamid),
            },
    {
        let r = self.records.insert(steamid, record);
        assert(self@.records =~= old(self)@.records.insert(steamid, record@));
        r
    }

    /// Takes the record of `steamid` out of the store.
    pub fn remove(&mut self, steamid: u64) -> (r: Option<PlayerRecord>)
        ensures
            final(self)@.path == old(self)@.path,
            final(self)@.records == old(self)@.records.remove(steamid),
            match r {
                Some(prev) => old(self)@.records.contains_key(steamid) && prev@
                    == old(self)@.records[steamid],
                None => !old(self)@.records.contains_key(steamid),
            },
    {
        let r = self.records.remove(&steamid);
        assert(self@.records =~= old(self)@.records.remove(steamid));
        r
    }

    /// The number of records.
    pub fn len(&self) -> (r: usize)
        ensures
            r == self@.records.len(),
    {
        assert(self@.records.dom() =~= self.records@.dom());
        self.records.len()
    }
}

} // verus!
