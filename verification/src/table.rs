//! Tables keyed by event and participant.
//!
//! A table is seen from outside as a map from keys to rows, so it cannot
//! hold two rows under one key.

use vstd::prelude::*;

verus! {

/// The key of a row: the slug of an event and the id of a participant.
pub type Key = (Seq<char>, i32);

/// A row that is filed under an event and a participant.
pub trait Record: View + Sized {
    /// The key that a row with the given view is filed under.
    spec fn key_of(v: Self::V) -> Key;

    /// Whether the row is filed under the given event and participant.
    fn has_key(&self, event: &str, participant_id: i32) -> (b: bool)
        ensures
            b == (Self::key_of(self@) == (event@, participant_id)),
    ;

    /// Whether the row belongs to the given event.
    fn is_for(&self, event: &str) -> (b: bool)
        ensures
            b == (Self::key_of(self@).0 == event@),
    ;

    /// Whether two rows are filed under the same key.
    fn same_key(&self, other: &Self) -> (b: bool)
        ensures
            b == (Self::key_of(self@) == Self::key_of(other@)),
    ;

    /// A copy of the row.
    fn duplicate(&self) -> (r: Self)
        ensures
            r@ == self@,
    ;
}

/// Whether no two of the rows are filed under the same key.
pub open spec fn distinct_keys<T: Record>(rows: Seq<T>) -> bool {
    forall|i: int, j: int|
        0 <= i < j < rows.len() ==> T::key_of(#[trigger] rows[i]@) != T::key_of(#[trigger] rows[j]@)
}

/// The rows as a map from each row's key to its view.
pub open spec fn keyed<T: Record>(rows: Seq<T>) -> Map<Key, T::V> {
    Map::new(
        |k: Key| exists|i: int| 0 <= i < rows.len() && T::key_of(#[trigger] rows[i]@) == k,
        |k: Key| rows[choose|i: int| 0 <= i < rows.len() && T::key_of(#[trigger] rows[i]@) == k]@,
    )
}

proof fn lemma_keyed_at<T: Record>(rows: Seq<T>, i: int)
    requires
        distinct_keys(rows),
        0 <= i < rows.len(),
    ensures
        keyed(rows).contains_key(T::key_of(rows[i]@)),
        keyed(rows)[T::key_of(rows[i]@)] == rows[i]@,
{
    let k = T::key_of(rows[i]@);
    let j = choose|j: int| 0 <= j < rows.len() && T::key_of(#[trigger] rows[j]@) == k;
    assert(j == i);
}

proof fn lemma_keyed_entries<T: Record>(rows: Seq<T>)
    requires
        distinct_keys(rows),
    ensures
        forall|i: int|
            0 <= i < rows.len() ==> keyed(rows).contains_key(T::key_of(#[trigger] rows[i]@))
                && keyed(rows)[T::key_of(rows[i]@)] == rows[i]@,
        forall|k: Key| #[trigger]
            keyed(rows).contains_key(k) ==> exists|i: int|
                0 <= i < rows.len() && T::key_of(#[trigger] rows[i]@) == k,
{
    assert forall|i: int| 0 <= i < rows.len() implies keyed(rows).contains_key(
        T::key_of(#[trigger] rows[i]@),
    ) && keyed(rows)[T::key_of(rows[i]@)] == rows[i]@ by {
        lemma_keyed_at(rows, i);
    }
}

/// Rows of one kind, at most one for each key.
pub struct Table<T: Record> {
    rows: Vec<T>,
}

impl<T: Record> View for Table<T> {
    type V = Map<Key, T::V>;

    closed spec fn view(&self) -> Map<Key, T::V> {
        keyed(self.rows@)
    }
}

impl<T: Record> Table<T> {
    #[verifier::type_invariant]
    spec fn distinct(self) -> bool {
        distinct_keys(self.rows@)
    }

    /// An empty table.
    pub fn new() -> (t: Self)
        ensures
            t@ == Map::<Key, T::V>::empty(),
    {
        let t = Table { rows: Vec::new() };
        assert(t@ =~= Map::<Key, T::V>::empty());
        t
    }

    fn position(&self, event: &str, participant_id: i32) -> (r: Option<usize>)
        ensures
            match r {
                Some(i) => i < self.rows.len() && T::key_of(self.rows[i as int]@) == (
                    event@,
                    participant_id,
                ),
                None => forall|i: int|
                    0 <= i < self.rows.len() ==> T::key_of(#[trigger] self.rows[i]@) != (
                        event@,
                        participant_id,
                    ),
            },
    {
        let mut i: usize = 0;
        while i < self.rows.len()
            invariant
                i <= self.rows.len(),
                forall|j: int|
                    0 <= j < i ==> T::key_of(#[trigger] self.rows[j]@) != (event@, participant_id),
            decreases self.rows.len() - i,
        {
            if self.rows[i].has_key(event, participant_id) {
                return Some(i);
            }
            i += 1;
        }
        None
    }

    fn slot_of(rows: &Vec<T>, row: &T) -> (r: Option<usize>)
        ensures
            match r {
                Some(i) => i < rows.len() && T::key_of(rows[i as int]@) == T::key_of(row@),
                None => forall|i: int|
                    0 <= i < rows.len() ==> T::key_of(#[trigger] rows[i]@) != T::key_of(row@),
            },
    {
        let mut i: usize = 0;
        while i < rows.len()
            invariant
                i <= rows.len(),
                forall|j: int| 0 <= j < i ==> T::key_of(#[trigger] rows[j]@) != T::key_of(row@),
            decreases rows.len() - i,
        {
            if rows[i].same_key(row) {
                return Some(i);
            }
            i += 1;
        }
        None
    }

    /// Whether a row is filed under the key.
    pub fn contains(&self, event: &str, participant_id: i32) -> (b: bool)
        ensures
            b == self@.contains_key((event@, participant_id)),
    {
        self.position(event, participant_id).is_some()
    }

    /// The row filed under the key, if there is one.
    pub fn get(&self, event: &str, participant_id: i32) -> (r: Option<&T>)
        ensures
            r is Some <==> self@.contains_key((event@, participant_id)),
            r matches Some(row) ==> row@ == self@[(event@, participant_id)] && T::key_of(row@) == (
                event@,
                participant_id,
            ),
    {
        proof {
            use_type_invariant(self);
            lemma_keyed_entries(self.rows@);
        }
        match self.position(event, participant_id) {
            Some(i) => Some(&self.rows[i]),
            None => None,
        }
    }

    /// Files a row under its key, in place of the row that was there.
    pub fn put(&mut self, row: T)
        ensures
            final(self)@ == old(self)@.insert(T::key_of(row@), row@),
    {
        proof {
            use_type_invariant(&*self);
        }
        let ghost key = T::key_of(row@);
        let ghost value = row@;
        let ghost before = self.rows@;
        let mut rows: Vec<T> = Vec::new();
        core::mem::swap(&mut self.rows, &mut rows);
        let ghost i: int;
        match Self::slot_of(&rows, &row) {
            Some(slot) => {
                rows.set(slot, row);
                proof {
                    i = slot as int;
                }
            },
            None => {
                rows.push(row);
                proof {
                    i = before.len() as int;
                }
            },
        }
        proof {
            let after = rows@;
            assert(distinct_keys(after));
            lemma_keyed_entries(before);
            lemma_keyed_entries(after);
            assert forall|k: Key| keyed(after).contains_key(k) <==> keyed(before).insert(key, value).contains_key(k) by {
                if keyed(after).contains_key(k) {
                    let j = choose|j: int| 0 <= j < after.len() && T::key_of(#[trigger] after[j]@) == k;
                    if j != i {
                        assert(after[j] == before[j]);
                    }
                }
                if keyed(before).contains_key(k) && k != key {
                    let j = choose|j: int| 0 <= j < before.len() && T::key_of(#[trigger] before[j]@) == k;
                    assert(after[j] == before[j]);
                }
                if k == key {
                    assert(after[i]@ == value);
                }
            }
            assert forall|k: Key| keyed(after).contains_key(k) implies keyed(after)[k] == keyed(before).insert(key, value)[k] by {
                let j = choose|j: int| 0 <= j < after.len() && T::key_of(#[trigger] after[j]@) == k;
                if j != i {
                    assert(after[j] == before[j]);
                }
            }
            assert(keyed(after) =~= keyed(before).insert(key, value));
        }
        core::mem::swap(&mut self.rows, &mut rows);
    }

    /// Takes out the row filed under the key, if there is one.
    pub fn remove(&mut self, event: &str, participant_id: i32)
        ensures
            final(self)@ == old(self)@.remove((event@, participant_id)),
    {
        proof {
            use_type_invariant(&*self);
        }
        let ghost key = (event@, participant_id);
        let ghost before = self.rows@;
        if let Some(slot) = self.position(event, participant_id) {
            let mut rows: Vec<T> = Vec::new();
            core::mem::swap(&mut self.rows, &mut rows);
            let _ = rows.remove(slot);
            proof {
                let after = rows@;
                let i = slot as int;
                assert forall|a: int, b: int| 0 <= a < b < after.len() implies T::key_of(
                    #[trigger] after[a]@,
                ) != T::key_of(#[trigger] after[b]@) by {
                    let a0 = if a < i { a } else { a + 1 };
                    let b0 = if b < i { b } else { b + 1 };
                    assert(after[a] == before[a0]);
                    assert(after[b] == before[b0]);
                }
                lemma_keyed_entries(before);
                lemma_keyed_entries(after);
                assert forall|k: Key|
                    keyed(after).contains_key(k) <==> keyed(before).remove(key).contains_key(
                        k,
                    ) by {
                    if keyed(after).contains_key(k) {
                        let j = choose|j: int|
                            0 <= j < after.len() && T::key_of(#[trigger] after[j]@) == k;
                        let j0 = if j < i { j } else { j + 1 };
                        assert(after[j] == before[j0]);
                    }
                    if keyed(before).contains_key(k) && k != key {
                        let j = choose|j: int|
                            0 <= j < before.len() && T::key_of(#[trigger] before[j]@) == k;
                        let j1 = if j < i { j } else { j - 1 };
                        assert(after[j1] == before[j]);
                    }
                }
                assert forall|k: Key| keyed(after).contains_key(k) implies keyed(after)[k]
                    == keyed(before).remove(key)[k] by {
                    let j = choose|j: int|
                        0 <= j < after.len() && T::key_of(#[trigger] after[j]@) == k;
                    let j0 = if j < i { j } else { j + 1 };
                    assert(after[j] == before[j0]);
                }
                assert(keyed(after) =~= keyed(before).remove(key));
            }
            core::mem::swap(&mut self.rows, &mut rows);
        } else {
            assert(self@ =~= old(self)@.remove(key));
        }
    }

    /// Copies of the rows of one event, each once.
    pub fn select(&self, event: &str) -> (found: Vec<T>)
        ensures
            distinct_keys(found@),
            forall|i: int|
                0 <= i < found.len() ==> {
                    let k = T::key_of(#[trigger] found[i]@);
                    k.0 == event@ && self@.contains_key(k) && self@[k] == found[i]@
                },
            forall|k: Key| #[trigger]
                self@.contains_key(k) && k.0 == event@ ==> exists|i: int|
                    0 <= i < found.len() && T::key_of(#[trigger] found[i]@) == k,
    {
        proof {
            use_type_invariant(self);
            lemma_keyed_entries(self.rows@);
        }
        let mut found: Vec<T> = Vec::new();
        let ghost mut origin: Seq<int> = Seq::empty();
        let mut n: usize = 0;
        while n < self.rows.len()
            invariant
                n <= self.rows.len(),
                origin.len() == found.len(),
                forall|i: int|
                    0 <= i < found.len() ==> 0 <= #[trigger] origin[i] < n && found[i]@
                        == self.rows[origin[i]]@ && T::key_of(found[i]@).0 == event@,
                forall|i: int, j: int|
                    0 <= i < j < found.len() ==> #[trigger] origin[i] < #[trigger] origin[j],
                forall|m: int|
                    0 <= m < n && T::key_of(#[trigger] self.rows[m]@).0 == event@ ==> exists|
                        i: int,
                    |
                        0 <= i < found.len() && #[trigger] origin[i] == m,
            decreases self.rows.len() - n,
        {
            if self.rows[n].is_for(event) {
                let row = self.rows[n].duplicate();
                let ghost earlier = origin;
                found.push(row);
                proof {
                    origin = origin.push(n as int);
                    assert forall|m: int|
                        0 <= m < n + 1 && T::key_of(#[trigger] self.rows[m]@).0
                            == event@ implies exists|i: int|
                        0 <= i < found.len() && #[trigger] origin[i] == m by {
                        if m < n {
                            let i = choose|i: int| 0 <= i < earlier.len() && #[trigger] earlier[i] == m;
                            assert(origin[i] == m);
                        } else {
                            assert(origin[found.len() - 1] == m);
                        }
                    }
                }
            }
            n += 1;
        }
        proof {
            assert forall|i: int, j: int| 0 <= i < j < found.len() implies T::key_of(
                #[trigger] found[i]@,
            ) != T::key_of(#[trigger] found[j]@) by {
                assert(origin[i] < origin[j]);
            }
            assert forall|i: int| 0 <= i < found.len() implies {
                let k = T::key_of(#[trigger] found[i]@);
                k.0 == event@ && self@.contains_key(k) && self@[k] == found[i]@
            } by {
                lemma_keyed_at(self.rows@, origin[i]);
            }
            assert forall|k: Key| #[trigger]
                self@.contains_key(k) && k.0 == event@ implies exists|i: int|
                0 <= i < found.len() && T::key_of(#[trigger] found[i]@) == k by {
                let m = choose|m: int|
                    0 <= m < self.rows.len() && T::key_of(#[trigger] self.rows[m]@) == k;
                let i = choose|i: int| 0 <= i < found.len() && #[trigger] origin[i] == m;
                assert(T::key_of(found[i]@) == k);
            }
        }
        found
    }

    /// A copy of the table.
    pub fn duplicate(&self) -> (copy: Self)
        ensures
            copy@ == self@,
    {
        proof {
            use_type_invariant(self);
        }
        let mut rows: Vec<T> = Vec::new();
        let mut n: usize = 0;
        while n < self.rows.len()
            invariant
                n <= self.rows.len(),
                rows.len() == n,
                forall|i: int| 0 <= i < n ==> (#[trigger] rows[i])@ == self.rows[i]@,
            decreases self.rows.len() - n,
        {
            rows.push(self.rows[n].duplicate());
            n += 1;
        }
        proof {
            assert forall|i: int, j: int| 0 <= i < j < rows.len() implies T::key_of(
                #[trigger] rows[i]@,
            ) != T::key_of(#[trigger] rows[j]@) by {
                assert(rows[i]@ == self.rows[i]@);
                assert(rows[j]@ == self.rows[j]@);
            }
            assert forall|k: Key| keyed(rows@).contains_key(k) <==> keyed(self.rows@).contains_key(
                k,
            ) by {
                if keyed(rows@).contains_key(k) {
                    let i = choose|i: int| 0 <= i < rows.len() && T::key_of(#[trigger] rows[i]@) == k;
                    assert(T::key_of(self.rows[i]@) == k);
                }
                if keyed(self.rows@).contains_key(k) {
                    let i = choose|i: int|
                        0 <= i < self.rows.len() && T::key_of(#[trigger] self.rows[i]@) == k;
                    assert(T::key_of(rows[i]@) == k);
                }
            }
            lemma_keyed_entries(rows@);
            lemma_keyed_entries(self.rows@);
            assert forall|k: Key| keyed(rows@).contains_key(k) implies keyed(rows@)[k] == keyed(
                self.rows@,
            )[k] by {
                let i = choose|i: int| 0 <= i < rows.len() && T::key_of(#[trigger] rows[i]@) == k;
                assert(rows[i]@ == self.rows[i]@);
            }
            assert(keyed(rows@) =~= keyed(self.rows@));
        }
        Table { rows }
    }

    /// Every row is filed under the key that its own fields give.
    pub proof fn lemma_filed_by_key(&self)
        ensures
            forall|k: Key| #[trigger] self@.contains_key(k) ==> T::key_of(self@[k]) == k,
    {
    }
}

} // verus!
