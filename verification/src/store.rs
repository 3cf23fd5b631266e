use vstd::prelude::*;
use vstd::string::StrSliceExecFns;

use crate::coordinate::Coordinate;

verus! {

/// The persisted unit of the cache: a city name bound to the coordinate
/// the provider reported for it. Records are only ever appended; the
/// cache never mutates, expires or deletes an entry.
#[derive(Clone, Debug)]
pub struct CacheRecord {
    pub name: String,
    pub coordinate: Coordinate,
}

/// The one way an insert into the store can fail at the store's own
/// hand: the city already has a record, and the uniqueness constraint
/// rejects a second one.
#[derive(Clone, Copy, Debug, PartialEq, Eq, Structural)]
pub enum StoreError {
    DuplicateName,
}

/// Whether some record in `s` is keyed by `name` (exact match: names are
/// case- and whitespace-sensitive, no normalization).
pub open spec fn contains_city(s: Seq<(Seq<char>, Coordinate)>, name: Seq<char>) -> bool {
    exists|i: int| 0 <= i < s.len() && s[i].0 == name
}

/// An index of a record keyed by `name`; under `unique_names` it is the
/// only one.
pub open spec fn city_index(s: Seq<(Seq<char>, Coordinate)>, name: Seq<char>) -> int {
    choose|i: int| 0 <= i < s.len() && s[i].0 == name
}

/// The coordinate stored under `name` (meaningful when `contains_city`).
pub open spec fn coordinate_of(s: Seq<(Seq<char>, Coordinate)>, name: Seq<char>) -> Coordinate {
    s[city_index(s, name)].1
}

/// The uniqueness invariant of the cache: at most one record per
/// distinct city name.
pub open spec fn unique_names(s: Seq<(Seq<char>, Coordinate)>) -> bool {
    forall|i: int, j: int| 0 <= i < j < s.len() ==> s[i].0 != s[j].0
}

/// Up to `limit` names of the most recently inserted records, newest
/// first: the read-only recency projection behind the stats page.
pub open spec fn recent_names(s: Seq<(Seq<char>, Coordinate)>, limit: int) -> Seq<Seq<char>> {
    let n = if limit < 0 {
        0
    } else if limit <= s.len() {
        limit
    } else {
        s.len() as int
    };
    Seq::new(n as nat, |i: int| s[s.len() - 1 - i].0)
}

/// Exact textual equality, character by character: the cache key match
/// is case- and whitespace-sensitive.
fn str_eq(a: &str, b: &str) -> (r: bool)
    ensures
        r == (a@ == b@),
{
    let an = a.unicode_len();
    let bn = b.unicode_len();
    if an != bn {
        return false;
    }
    let mut i: usize = 0;
    while i < an
        invariant
            an == a@.len(),
            bn == b@.len(),
            an == bn,
            0 <= i <= an,
            forall|j: int| 0 <= j < i ==> a@[j] == b@[j],
        decreases an - i,
    {
        if a.get_char(i) != b.get_char(i) {
            return false;
        }
        i += 1;
    }
    proof {
        assert(a@ =~= b@);
    }
    true
}

/// A key-value store of cache records, kept in insertion order.
///
/// This is the library's own realization of the coordinate-store
/// contract: point lookup by exact name, insert of a new record under a
/// uniqueness constraint, and a newest-first listing of recent names. A
/// durable backend sitting on a relational table is expected to meet the
/// same contract.
#[derive(Debug)]
pub struct MemoryStore {
    records: Vec<CacheRecord>,
}

impl View for MemoryStore {
    type V = Seq<(Seq<char>, Coordinate)>;

    closed spec fn view(&self) -> Seq<(Seq<char>, Coordinate)> {
        self.records@.map(|i: int, r: CacheRecord| (r.name@, r.coordinate))
    }
}

impl MemoryStore {
    /// Well-formedness: the uniqueness invariant holds of the records.
    pub open spec fn wf(&self) -> bool {
        unique_names(self@)
    }

    /// An empty store.
    pub fn new() -> (s: MemoryStore)
        ensures
            s@ =~= Seq::<(Seq<char>, Coordinate)>::empty(),
            s.wf(),
    {
        MemoryStore { records: Vec::new() }
    }

    /// Point lookup by exact key equality: `Some` of the stored
    /// coordinate exactly when a record for `name` exists.
    pub fn get(&self, name: &str) -> (r: Option<Coordinate>)
        requires
            self.wf(),
        ensures
            match r {
                Some(c) => contains_city(self@, name@) && c == coordinate_of(self@, name@),
                None => !contains_city(self@, name@),
            },
    {
        let n = self.records.len();
        let mut i: usize = 0;
        while i < n
            invariant
                self.wf(),
                n == self.records.len(),
                0 <= i <= n,
                forall|j: int| 0 <= j < i ==> self@[j].0 != name@,
            decreases n - i,
        {
            if str_eq(self.records[i].name.as_str(), name) {
                proof {
                    assert(self@[i as int].0 == name@);
                    assert(contains_city(self@, name@));
                    let k = city_index(self@, name@);
                    assert(0 <= k < self@.len() && self@[k].0 == name@);
                    if k != i {
                        assert(self@[k].0 == self@[i as int].0);
                        assert(false);
                    }
                }
                return Some(self.records[i].coordinate);
            }
            i += 1;
        }
        None
    }

    /// Insert of a new record. The record is appended when the name is
    /// fresh; a second insert for the same name is rejected by the
    /// uniqueness constraint and leaves the store unchanged.
    pub fn put(&mut self, name: &str, coordinate: Coordinate) -> (r: Result<(), StoreError>)
        requires
            old(self).wf(),
        ensures
            final(self).wf(),
            contains_city(old(self)@, name@) ==> r == Err::<(), StoreError>(
                StoreError::DuplicateName,
            ) && final(self)@ == old(self)@,
            !contains_city(old(self)@, name@) ==> r == Ok::<(), StoreError>(()) && final(self)@
                =~= old(self)@.push((name@, coordinate)),
    {
        if self.get(name).is_some() {
            return Err(StoreError::DuplicateName);
        }
        let record = CacheRecord { name: name.to_owned(), coordinate };
        self.records.push(record);
        proof {
            let prev = old(self)@;
            let cur = self@;
            assert(cur =~= prev.push((name@, coordinate)));
            assert forall|i: int, j: int| 0 <= i < j < cur.len() implies cur[i].0 != cur[j].0 by {
                if j < prev.len() {
                    assert(prev[i].0 != prev[j].0);
                } else {
                    assert(cur[j].0 == name@);
                    assert(cur[i].0 == prev[i].0);
                    assert(!contains_city(prev, name@));
                    assert(prev[i].0 != name@);
                }
            }
        }
        Ok(())
    }

    /// Up to `limit` most recently inserted city names, newest first.
    pub fn list_recent(&self, limit: usize) -> (r: Vec<String>)
        ensures
            r.deep_view() =~= recent_names(self@, limit as int),
    {
        let n = self.records.len();
        let mut r: Vec<String> = Vec::new();
        let mut i: usize = 0;
        while i < limit && i < n
            invariant
                n == self.records.len(),
                0 <= i <= n,
                i <= limit,
                r@.len() == i,
                forall|j: int| 0 <= j < i ==> r.deep_view()[j] == self@[n - 1 - j].0,
            decreases n - i,
        {
            let ghost prev = r@;
            let ghost prev_dv = r.deep_view();
            let cloned = self.records[n - 1 - i].name.clone();
            r.push(cloned);
            proof {
                assert forall|j: int| 0 <= j < i + 1 implies r.deep_view()[j] == self@[n - 1
                    - j].0 by {
                    assert(r.deep_view()[j] == r@[j]@);
                    if j < i {
                        assert(prev_dv[j] == self@[n - 1 - j].0);
                        assert(prev_dv[j] == prev[j]@);
                        assert(r@[j] == prev[j]);
                    } else {
                        assert(r@[j] == self.records@[n - 1 - j].name);
                        assert(self@[n - 1 - j].0 == self.records@[n - 1 - j].name@);
                    }
                }
            }
            i += 1;
        }
        proof {
            assert(r.deep_view().len() == r@.len());
            assert(r.deep_view() =~= recent_names(self@, limit as int));
        }
        r
    }
}

/// Miss-then-populate, at the store's level: a fresh record appended for
/// a name the store lacked is found again under that name, with exactly
/// the coordinate that was appended, and uniqueness is preserved.
pub proof fn lemma_miss_then_populate(
    s: Seq<(Seq<char>, Coordinate)>,
    name: Seq<char>,
    c: Coordinate,
)
    requires
        unique_names(s),
        !contains_city(s, name),
    ensures
        contains_city(s.push((name, c)), name),
        coordinate_of(s.push((name, c)), name) == c,
        unique_names(s.push((name, c))),
{
    let pushed = s.push((name, c));
    assert(pushed[s.len() as int].0 == name);
    assert(contains_city(pushed, name));
    let k = city_index(pushed, name);
    assert(0 <= k < pushed.len() && pushed[k].0 == name);
    if k < s.len() {
        assert(pushed[k] == s[k]);
        assert(contains_city(s, name));
        assert(false);
    }
    assert(pushed[k].1 == c);
    assert forall|i: int, j: int| 0 <= i < j < pushed.len() implies pushed[i].0 != pushed[j].0 by {
        if j < s.len() {
            assert(s[i].0 != s[j].0);
        } else {
            assert(pushed[j].0 == name);
            assert(pushed[i].0 == s[i].0);
            assert(s[i].0 != name);
        }
    }
}

/// Recency ordering: after appending a record, the newest-first listing
/// starts with the new name, and what follows is the previous store's
/// listing, one slot shorter.
pub proof fn lemma_recency_ordering(
    s: Seq<(Seq<char>, Coordinate)>,
    rec: (Seq<char>, Coordinate),
    limit: int,
)
    requires
        limit >= 1,
    ensures
        recent_names(s.push(rec), limit).len() >= 1,
        recent_names(s.push(rec), limit)[0] == rec.0,
        forall|i: int|
            1 <= i < recent_names(s.push(rec), limit).len() ==> recent_names(s.push(rec), limit)[i]
                == recent_names(s, limit - 1)[i - 1],
{
    let pushed = s.push(rec);
    assert(pushed[pushed.len() - 1] == rec);
    assert forall|i: int|
        1 <= i < recent_names(pushed, limit).len() implies recent_names(pushed, limit)[i]
        == recent_names(s, limit - 1)[i - 1] by {
        assert(recent_names(pushed, limit)[i] == pushed[pushed.len() - 1 - i].0);
        assert(pushed[pushed.len() - 1 - i] == s[s.len() - 1 - (i - 1)]);
    }
}

} // verus!
