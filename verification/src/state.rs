//! The indexed position store.
//!
//! Positions live in one table, kept sorted by id, and are enumerated through
//! seven secondary indexes covering every subset of
//! `{owner, executor, status}`. An index entry is the composite key a
//! position files under; an unset executor files under the empty string, so
//! "no executor yet" is itself queryable. The keys are pure functions of the
//! position, so every write keeps all seven indexes consistent with the
//! table by construction.

use vstd::prelude::*;

verus! {

use crate::definitions::OtcPosition;
use crate::response::ContractError;

/// Ids strictly increase along the table.
pub open spec fn sorted_by_id(s: Seq<OtcPosition>) -> bool {
    forall|i: int, j: int| 0 <= i < j < s.len() ==> s[i].id < s[j].id
}

/// Some row of the table carries this id.
pub open spec fn contains_id(s: Seq<OtcPosition>, id: u64) -> bool {
    exists|i: int| 0 <= i < s.len() && s[i].id == id
}

/// The row index carrying `id`; meaningful only when the table contains it.
pub open spec fn index_of_id(s: Seq<OtcPosition>, id: u64) -> int {
    choose|i: int| 0 <= i < s.len() && s[i].id == id
}

/// The position stored under `id`, if any.
pub open spec fn get_pos(s: Seq<OtcPosition>, id: u64) -> Option<OtcPosition> {
    if contains_id(s, id) {
        Some(s[index_of_id(s, id)])
    } else {
        None
    }
}

/// In a sorted table, the row holding a given id is unique, so reading
/// through [`get_pos`] at a known row returns that row.
pub proof fn lemma_get_pos_at(s: Seq<OtcPosition>, k: int)
    requires
        sorted_by_id(s),
        0 <= k < s.len(),
    ensures
        contains_id(s, s[k].id),
        index_of_id(s, s[k].id) == k,
        get_pos(s, s[k].id) == Some(s[k]),
{
    assert(contains_id(s, s[k].id));
    let i = index_of_id(s, s[k].id);
    if i < k {
        assert(s[i].id < s[k].id);
    } else if i > k {
        assert(s[k].id < s[i].id);
    }
}

/// Replacing the row that already carries an id rewrites that id's entry and
/// leaves every other id's entry alone.
proof fn lemma_save_replace(s0: Seq<OtcPosition>, s1: Seq<OtcPosition>, k: int, p: OtcPosition)
    requires
        sorted_by_id(s0),
        0 <= k < s0.len(),
        s0[k].id == p.id,
        s1 == s0.update(k, p),
    ensures
        sorted_by_id(s1),
        forall|i: u64| #[trigger] contains_id(s1, i) <==> contains_id(s0, i) || i == p.id,
        get_pos(s1, p.id) == Some(p),
        forall|i: u64| i != p.id ==> #[trigger] get_pos(s1, i) == get_pos(s0, i),
{
    assert(s1.len() == s0.len());
    assert(forall|i: int| 0 <= i < s1.len() && i != k ==> s1[i] == s0[i]);
    assert(s1[k] == p);
    assert(sorted_by_id(s1));
    lemma_get_pos_at(s1, k);
    assert forall|i: u64| #[trigger] contains_id(s1, i) implies contains_id(s0, i) || i == p.id by {
        let w = index_of_id(s1, i);
        if w != k {
            assert(s0[w].id == i);
        }
    }
    assert forall|i: u64| contains_id(s0, i) implies #[trigger] contains_id(s1, i) by {
        let w = index_of_id(s0, i);
        assert(s1[w].id == i);
    }
    assert forall|i: u64| i != p.id implies #[trigger] get_pos(s1, i) == get_pos(s0, i) by {
        if contains_id(s1, i) {
            let w = index_of_id(s1, i);
            lemma_get_pos_at(s1, w);
            assert(w != k);
            lemma_get_pos_at(s0, w);
        }
    }
}

/// Inserting a row at the id's sorted slot adds exactly that id's entry and
/// leaves every other id's entry alone.
proof fn lemma_save_insert(s0: Seq<OtcPosition>, s1: Seq<OtcPosition>, k: int, p: OtcPosition)
    requires
        sorted_by_id(s0),
        0 <= k <= s0.len(),
        forall|j: int| 0 <= j < k ==> s0[j].id < p.id,
        k == s0.len() || s0[k].id > p.id,
        s1 == s0.insert(k, p),
    ensures
        sorted_by_id(s1),
        forall|i: u64| #[trigger] contains_id(s1, i) <==> contains_id(s0, i) || i == p.id,
        get_pos(s1, p.id) == Some(p),
        forall|i: u64| i != p.id ==> #[trigger] get_pos(s1, i) == get_pos(s0, i),
{
    assert(s1.len() == s0.len() + 1);
    assert(forall|i: int| 0 <= i < k ==> s1[i] == s0[i]);
    assert(s1[k] == p);
    assert(forall|i: int| k < i < s1.len() ==> s1[i] == s0[i - 1]);
    assert forall|i: int, j: int| 0 <= i < j < s1.len() implies s1[i].id < s1[j].id by {
        if i < k && j > k {
            assert(s0[i].id < p.id);
            assert(s0[j - 1].id > p.id || (k <= j - 1 && s0[k].id <= s0[j - 1].id));
        }
    }
    lemma_get_pos_at(s1, k);
    assert forall|i: u64| #[trigger] contains_id(s1, i) implies contains_id(s0, i) || i == p.id by {
        let w = index_of_id(s1, i);
        if w < k {
            assert(s0[w].id == i);
        } else if w > k {
            assert(s0[w - 1].id == i);
        }
    }
    assert forall|i: u64| contains_id(s0, i) implies #[trigger] contains_id(s1, i) by {
        let w = index_of_id(s0, i);
        if w < k {
            assert(s1[w].id == i);
        } else {
            assert(s1[w + 1].id == i);
        }
    }
    assert forall|i: u64| i != p.id implies #[trigger] get_pos(s1, i) == get_pos(s0, i) by {
        if contains_id(s1, i) {
            let w = index_of_id(s1, i);
            lemma_get_pos_at(s1, w);
            assert(w != k);
            if w < k {
                lemma_get_pos_at(s0, w);
            } else {
                assert(s1[w] == s0[w - 1]);
                lemma_get_pos_at(s0, w - 1);
            }
        }
    }
}

/// Removing the row that carries an id deletes exactly that id's entry and
/// leaves every other id's entry alone.
proof fn lemma_remove_at(s0: Seq<OtcPosition>, s1: Seq<OtcPosition>, k: int, id: u64)
    requires
        sorted_by_id(s0),
        0 <= k < s0.len(),
        s0[k].id == id,
        s1 == s0.remove(k),
    ensures
        sorted_by_id(s1),
        forall|i: u64| #[trigger] contains_id(s1, i) <==> contains_id(s0, i) && i != id,
        forall|i: u64| i != id ==> #[trigger] get_pos(s1, i) == get_pos(s0, i),
{
    assert(s1.len() == s0.len() - 1);
    assert(forall|i: int| 0 <= i < k ==> s1[i] == s0[i]);
    assert(forall|i: int| k <= i < s1.len() ==> s1[i] == s0[i + 1]);
    assert(sorted_by_id(s1));
    assert forall|i: u64| #[trigger] contains_id(s1, i) implies contains_id(s0, i) && i != id by {
        let w = index_of_id(s1, i);
        if w < k {
            assert(s0[w].id == i);
            assert(s0[w].id < s0[k].id);
        } else {
            assert(s0[w + 1].id == i);
            assert(s0[k].id < s0[w + 1].id);
        }
    }
    assert forall|i: u64| contains_id(s0, i) && i != id implies #[trigger] contains_id(s1, i) by {
        let w = index_of_id(s0, i);
        assert(w != k);
        if w < k {
            assert(s1[w].id == i);
        } else {
            assert(s1[w - 1].id == i);
        }
    }
    assert forall|i: u64| i != id implies #[trigger] get_pos(s1, i) == get_pos(s0, i) by {
        if contains_id(s1, i) {
            let w = index_of_id(s1, i);
            lemma_get_pos_at(s1, w);
            if w < k {
                lemma_get_pos_at(s0, w);
            } else {
                assert(s1[w] == s0[w + 1]);
                lemma_get_pos_at(s0, w + 1);
            }
        }
    }
}

/// The store: the position table plus, by construction, its seven indexes.
pub struct PositionStore {
    positions: Vec<OtcPosition>,
}

impl View for PositionStore {
    type V = Seq<OtcPosition>;

    closed spec fn view(&self) -> Seq<OtcPosition> {
        self.positions@
    }
}

impl PositionStore {
    /// The store's invariant: the table is sorted by id.
    pub open spec fn wf(&self) -> bool {
        sorted_by_id(self@)
    }

    pub fn new() -> (r: PositionStore)
        ensures
            r@ == Seq::<OtcPosition>::empty(),
            r.wf(),
    {
        PositionStore { positions: Vec::new() }
    }

    pub fn count(&self) -> (r: usize)
        ensures
            r == self@.len(),
    {
        self.positions.len()
    }

    pub fn at(&self, i: usize) -> (r: &OtcPosition)
        requires
            i < self@.len(),
        ensures
            *r == self@[i as int],
    {
        &self.positions[i]
    }

    /// Reads the position stored under `id`; rejects an unknown id.
    #[verifier::loop_isolation(false)]
    pub fn load(&self, id: u64) -> (r: Result<&OtcPosition, ContractError>)
        requires
            self.wf(),
        ensures
            match r {
                Ok(p) => contains_id(self@, id) && get_pos(self@, id) == Some(*p) && p.id == id,
                Err(e) => !contains_id(self@, id) && e == (ContractError::PositionNotFound { id }),
            },
    {
        let mut k: usize = 0;
        while k < self.positions.len()
            invariant
                0 <= k <= self@.len(),
                forall|j: int| 0 <= j < k ==> self@[j].id != id,
            decreases self@.len() - k,
        {
            if self.positions[k].id == id {
                proof {
                    lemma_get_pos_at(self@, k as int);
                }
                return Ok(&self.positions[k]);
            }
            k = k + 1;
        }
        Err(ContractError::PositionNotFound { id })
    }

    /// Writes `position` under `key`, replacing any previous position with
    /// that id; all other rows keep their place.
    #[verifier::loop_isolation(false)]
    pub fn save(&mut self, key: u64, position: OtcPosition)
        requires
            old(self).wf(),
            position.id == key,
        ensures
            final(self).wf(),
            forall|i: u64|
                #[trigger] contains_id(final(self)@, i) <==> contains_id(old(self)@, i) || i
                    == key,
            get_pos(final(self)@, key) == Some(position),
            forall|i: u64|
                i != key ==> #[trigger] get_pos(final(self)@, i) == get_pos(old(self)@, i),
    {
        let ghost s0 = self@;
        let mut k: usize = 0;
        while k < self.positions.len() && self.positions[k].id < key
            invariant
                0 <= k <= self@.len(),
                forall|j: int| 0 <= j < k ==> self@[j].id < key,
            decreases self@.len() - k,
        {
            k = k + 1;
        }
        let replace = k < self.positions.len() && self.positions[k].id == key;
        if replace {
            self.positions.remove(k);
            self.positions.insert(k, position);
        } else {
            self.positions.insert(k, position);
        }
        proof {
            let s1 = self@;
            let ki = k as int;
            if replace {
                assert(s1 =~= s0.update(ki, position));
                lemma_save_replace(s0, s1, ki, position);
            } else {
                assert(k == s0.len() || s0[ki].id > key);
                lemma_save_insert(s0, s1, ki, position);
            }
        }
    }

    /// Deletes the position stored under `id`, if any; all other rows keep
    /// their place.
    #[verifier::loop_isolation(false)]
    pub fn remove(&mut self, id: u64)
        requires
            old(self).wf(),
        ensures
            final(self).wf(),
            forall|i: u64|
                #[trigger] contains_id(final(self)@, i) <==> contains_id(old(self)@, i) && i
                    != id,
            forall|i: u64|
                i != id ==> #[trigger] get_pos(final(self)@, i) == get_pos(old(self)@, i),
    {
        let ghost s0 = self@;
        let mut k: usize = 0;
        while k < self.positions.len()
            invariant
                self@ == s0,
                0 <= k <= self@.len(),
                forall|j: int| 0 <= j < k ==> self@[j].id != id,
            decreases self@.len() - k,
        {
            if self.positions[k].id == id {
                self.positions.remove(k);
                proof {
                    lemma_remove_at(s0, self@, k as int, id);
                }
                return ;
            }
            k = k + 1;
        }
    }
}

/// A fresh, empty position store.
pub fn positions() -> (r: PositionStore)
    ensures
        r@ == Seq::<OtcPosition>::empty(),
        r.wf(),
{
    PositionStore::new()
}

/// Which of the seven secondary indexes serves an enumeration: one per
/// non-empty subset of `{owner, executor, status}`.
#[derive(Debug, Clone, Copy, PartialEq, Eq, Structural)]
pub enum OtcPositionIndexer {
    Owner,
    Executor,
    OwnerExecutor,
    Status,
    OwnerStatus,
    ExecutorStatus,
    OwnerExecutorStatus,
}

/// The executor component of an index key; an unset executor files under the
/// empty string.
pub open spec fn executor_key(p: OtcPosition) -> Seq<char> {
    match p.executor {
        Some(e) => e@,
        None => Seq::<char>::empty(),
    }
}

/// The composite key a position files under in the given index.
pub open spec fn index_key(p: OtcPosition, idx: OtcPositionIndexer) -> Seq<Seq<char>> {
    match idx {
        OtcPositionIndexer::Owner => seq![p.owner@],
        OtcPositionIndexer::Executor => seq![executor_key(p)],
        OtcPositionIndexer::OwnerExecutor => seq![p.owner@, executor_key(p)],
        OtcPositionIndexer::Status => seq![p.status.spec_label()],
        OtcPositionIndexer::OwnerStatus => seq![p.owner@, p.status.spec_label()],
        OtcPositionIndexer::ExecutorStatus => seq![executor_key(p), p.status.spec_label()],
        OtcPositionIndexer::OwnerExecutorStatus => seq![
            p.owner@,
            executor_key(p),
            p.status.spec_label(),
        ],
    }
}

/// The views of a list of key components.
pub open spec fn views_of(s: Seq<String>) -> Seq<Seq<char>> {
    s.map_values(|x: String| x@)
}

/// The executor component of a position's index keys, as a string.
pub fn executor_key_of(p: &OtcPosition) -> (r: String)
    ensures
        r@ == executor_key(*p),
{
    match &p.executor {
        Some(e) => e.clone(),
        None => String::new(),
    }
}

/// Computes the composite key a position files under in the given index.
pub fn index_key_of(p: &OtcPosition, idx: OtcPositionIndexer) -> (r: Vec<String>)
    ensures
        views_of(r@) == index_key(*p, idx),
{
    let mut r: Vec<String> = Vec::new();
    match idx {
        OtcPositionIndexer::Owner => {
            r.push(p.owner.clone());
        },
        OtcPositionIndexer::Executor => {
            r.push(executor_key_of(p));
        },
        OtcPositionIndexer::OwnerExecutor => {
            r.push(p.owner.clone());
            r.push(executor_key_of(p));
        },
        OtcPositionIndexer::Status => {
            r.push(p.status.as_string_ref());
        },
        OtcPositionIndexer::OwnerStatus => {
            r.push(p.owner.clone());
            r.push(p.status.as_string_ref());
        },
        OtcPositionIndexer::ExecutorStatus => {
            r.push(executor_key_of(p));
            r.push(p.status.as_string_ref());
        },
        OtcPositionIndexer::OwnerExecutorStatus => {
            r.push(p.owner.clone());
            r.push(executor_key_of(p));
            r.push(p.status.as_string_ref());
        },
    }
    proof {
        assert(views_of(r@) =~= index_key(*p, idx));
    }
    r
}

/// Whether a position files under `key` in the given index.
pub fn key_matches(p: &OtcPosition, idx: OtcPositionIndexer, key: &Vec<String>) -> (r: bool)
    ensures
        r == (index_key(*p, idx) == views_of(key@)),
{
    let pk = index_key_of(p, idx);
    if pk.len() != key.len() {
        proof {
            assert(index_key(*p, idx).len() != views_of(key@).len());
        }
        return false;
    }
    let mut i: usize = 0;
    while i < pk.len()
        invariant
            0 <= i <= pk@.len(),
            pk@.len() == key@.len(),
            views_of(pk@) == index_key(*p, idx),
            forall|j: int| 0 <= j < i ==> pk@[j]@ == key@[j]@,
        decreases pk@.len() - i,
    {
        if !pk[i].eq(&key[i]) {
            proof {
                assert(index_key(*p, idx)[i as int] != views_of(key@)[i as int]);
            }
            return false;
        }
        i = i + 1;
    }
    proof {
        assert(index_key(*p, idx) =~= views_of(key@));
    }
    true
}

} // verus!
