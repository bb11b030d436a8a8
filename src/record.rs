//! A player's record and its verdict.

use vstd::prelude::*;
use crate::json::{default_custom_data, JsonValue};
use crate::time::{default_date, Timestamp};

verus! {

/// How the user has classified a player.
#[derive(Clone, Copy, Debug, PartialEq, Eq, Structural)]
pub enum Verdict {
    Player,
    Bot,
    Suspicious,
    Cheater,
    Trusted,
}

impl Verdict {
    /// The verdict's name as written in the record file.
    pub open spec fn spec_name(self) -> Seq<char> {
        match self {
            Verdict::Player => "Player"@,
            Verdict::Bot => "Bot"@,
            Verdict::Suspicious => "Suspicious"@,
            Verdict::Cheater => "Cheater"@,
            Verdict::Trusted => "Trusted"@,
        }
    }

    pub fn to_string(&self) -> (r: String)
        ensures
            r@ == self.spec_name(),
    {
        match self {
            Verdict::Player => "Player".to_owned(),
            Verdict::Bot => "Bot".to_owned(),
            Verdict::Suspicious => "Suspicious".to_owned(),
            Verdict::Cheater => "Cheater".to_owned(),
            Verdict::Trusted => "Trusted".to_owned(),
        }
    }
}

impl Default for Verdict {
    fn default() -> (r: Self)
        ensures
            r == Verdict::Player,
    {
        Verdict::Player
    }
}

/// What is stored about one player.
#[derive(Debug)]
pub struct PlayerRecord {
    /// Free-form annotations of the host.
    pub custom_data: JsonValue,
    pub verdict: Verdict,
    /// Names seen for this player, oldest first, each at most once.
    pub previous_names: Vec<String>,
    /// Time of the last manual change made by the user.
    pub modified: Timestamp,
    pub created: Timestamp,
}

/// The content of a `PlayerRecord`, with names as character sequences.
pub struct RecordView {
    pub custom_data: JsonValue,
    pub verdict: Verdict,
    pub previous_names: Seq<Seq<char>>,
    pub modified: Timestamp,
    pub created: Timestamp,
}

pub open spec fn names_view(names: Seq<String>) -> Seq<Seq<char>> {
    names.map_values(|s: String| s@)
}

impl View for PlayerRecord {
    type V = RecordView;

    open spec fn view(&self) -> RecordView {
        RecordView {
            custom_data: self.custom_data,
            verdict: self.verdict,
            previous_names: names_view(self.previous_names@),
            modified: self.modified,
            created: self.created,
        }
    }
}

impl RecordView {
    /// The record holds nothing meaningful: a neutral verdict and blank annotations.
    pub open spec fn is_empty(self) -> bool {
        self.verdict == Verdict::Player && self.custom_data.is_blank()
    }

    /// The record after `name` has been observed: appended unless already listed.
    pub open spec fn with_name(self, name: Seq<char>) -> RecordView {
        if self.previous_names.contains(name) {
            self
        } else {
            RecordView { previous_names: self.previous_names.push(name), ..self }
        }
    }

    /// `self` is `old` after the repair of a load: null annotations become an
    /// empty object, and nothing else changes.
    pub open spec fn normalized_from(self, old: RecordView) -> bool {
        if old.custom_data is Null {
            &&& self.custom_data.is_empty_object()
            &&& self == RecordView { custom_data: self.custom_data, ..old }
        } else {
            self == old
        }
    }
}

fn contains_name(names: &Vec<String>, name: &String) -> (r: bool)
    ensures
        r == names_view(names@).contains(name@),
{
    let mut i: usize = 0;
    while i < names.len()
        invariant
            i <= names.len(),
            forall|j: int| 0 <= j < i ==> names@[j]@ != name@,
        decreases names.len() - i,
    {
        if names[i] == *name {
            assert(names_view(names@)[i as int] == name@);
            return true;
        }
        i += 1;
    }
    assert(!names_view(names@).contains(name@)) by {
        if names_view(names@).contains(name@) {
            let k = choose|k: int| 0 <= k < names_view(names@).len() && names_view(names@)[k] == name@;
            assert(names@[k]@ == name@);
        }
    }
    false
}

impl PlayerRecord {
    /// Returns true if the record does not hold any meaningful information.
    pub fn is_empty(&self) -> (r: bool)
        ensures
            r == self@.is_empty(),
    {
        self.verdict == Verdict::Player && self.custom_data.is_blank_value()
    }

    /// Adds `name` to the name history unless it is already there.
    pub fn add_name(&mut self, name: String)
        ensures
            final(self)@ == old(self)@.with_name(name@),
    {
        if !contains_name(&self.previous_names, &name) {
            let ghost before = self.previous_names@;
            self.previous_names.push(name);
            assert(names_view(self.previous_names@) =~= names_view(before).push(name@));
        }
    }

    /// Replaces null annotations by an empty object.
    pub fn normalize(&mut self)
        ensures
            final(self)@.normalized_from(old(self)@),
    {
        if self.custom_data.is_null() {
            self.custom_data = default_custom_data();
        }
    }
}

impl Default for PlayerRecord {
    /// A record made now: neutral verdict, empty annotations, no names.
    fn default() -> (r: Self)
        ensures
            r@.verdict == Verdict::Player,
            r@.custom_data.is_empty_object(),
            r@.previous_names.len() == 0,
            r@.created == r@.modified,
            r@.created.secs >= 0,
            r@.created.nanos < 1_000_000_000,
    {
        let now = default_date();
        PlayerRecord {
            custom_data: default_custom_data(),
            verdict: Verdict::Player,
            previous_names: Vec::new(),
            modified: now,
            created: now,
        }
    }
}

} // verus!
