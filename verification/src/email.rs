//! Email contacts: where to write to a participant.

use crate::database::{Database, DatabaseView};
use vstd::prelude::*;

verus! {

/// Associates a participant with their email address
#[derive(Debug, PartialEq, Eq)]
pub struct Email {
    /// Who the email is associated with
    pub participant_id: i32,
    /// The email address to use
    pub address: String,
}

/// What an [`Email`] holds, with the address as its characters.
pub struct EmailView {
    pub participant_id: i32,
    pub address: Seq<char>,
}

impl View for Email {
    type V = EmailView;

    open spec fn view(&self) -> EmailView {
        EmailView { participant_id: self.participant_id, address: self.address@ }
    }
}

impl Clone for Email {
    fn clone(&self) -> (r: Email)
        ensures
            r@ == self@,
    {
        Email { participant_id: self.participant_id, address: self.address.clone() }
    }
}

/// Whether no two of the contacts are of the same participant.
pub open spec fn distinct_contacts(rows: Seq<Email>) -> bool {
    forall|i: int, j: int|
        0 <= i < j < rows.len() ==> (#[trigger] rows[i]).participant_id != (
        #[trigger] rows[j]).participant_id
}

/// The contacts as a map from each participant to their address.
pub open spec fn addresses(rows: Seq<Email>) -> Map<i32, Seq<char>> {
    Map::new(
        |id: i32| exists|i: int| 0 <= i < rows.len() && (#[trigger] rows[i]).participant_id == id,
        |id: i32|
            rows[choose|i: int| 0 <= i < rows.len() && (#[trigger] rows[i]).participant_id == id].address@,
    )
}

proof fn lemma_addresses(rows: Seq<Email>)
    requires
        distinct_contacts(rows),
    ensures
        forall|i: int|
            0 <= i < rows.len() ==> addresses(rows).contains_key((#[trigger] rows[i]).participant_id)
                && addresses(rows)[rows[i].participant_id] == rows[i].address@,
{
    assert forall|i: int| 0 <= i < rows.len() implies addresses(rows).contains_key(
        (#[trigger] rows[i]).participant_id,
    ) && addresses(rows)[rows[i].participant_id] == rows[i].address@ by {
        let id = rows[i].participant_id;
        let j = choose|j: int| 0 <= j < rows.len() && (#[trigger] rows[j]).participant_id == id;
        assert(j == i);
    }
}

/// The email contacts, at most one for each participant.
pub struct EmailBook {
    rows: Vec<Email>,
}

impl View for EmailBook {
    type V = Map<i32, Seq<char>>;

    closed spec fn view(&self) -> Map<i32, Seq<char>> {
        addresses(self.rows@)
    }
}

impl EmailBook {
    #[verifier::type_invariant]
    spec fn distinct(self) -> bool {
        distinct_contacts(self.rows@)
    }

    /// A book without contacts.
    pub fn new() -> (book: Self)
        ensures
            book@ == Map::<i32, Seq<char>>::empty(),
    {
        let book = EmailBook { rows: Vec::new() };
        assert(book@ =~= Map::<i32, Seq<char>>::empty());
        book
    }

    fn position(rows: &Vec<Email>, participant_id: i32) -> (r: Option<usize>)
        ensures
            match r {
                Some(i) => i < rows.len() && rows[i as int].participant_id == participant_id,
                None => forall|i: int|
                    0 <= i < rows.len() ==> (#[trigger] rows[i]).participant_id != participant_id,
            },
    {
        let mut i: usize = 0;
        while i < rows.len()
            invariant
                i <= rows.len(),
                forall|j: int| 0 <= j < i ==> (#[trigger] rows[j]).participant_id != participant_id,
            decreases rows.len() - i,
        {
            if rows[i].participant_id == participant_id {
                return Some(i);
            }
            i += 1;
        }
        None
    }

    /// The contact of a participant, if there is one.
    pub fn get(&self, participant_id: i32) -> (r: Option<&Email>)
        ensures
            r is Some <==> self@.contains_key(participant_id),
            r matches Some(email) ==> email@ == (EmailView {
                participant_id,
                address: self@[participant_id],
            }),
    {
        proof {
            use_type_invariant(self);
            lemma_addresses(self.rows@);
        }
        match Self::position(&self.rows, participant_id) {
            Some(i) => Some(&self.rows[i]),
            None => None,
        }
    }

    /// Sets the contact of a participant, in place of the one that was
    /// there.
    pub fn put(&mut self, email: Email)
        ensures
            final(self)@ == old(self)@.insert(email.participant_id, email.address@),
    {
        proof {
            use_type_invariant(&*self);
        }
        let ghost id = email.participant_id;
        let ghost address = email.address@;
        let ghost before = self.rows@;
        let mut rows: Vec<Email> = Vec::new();
        core::mem::swap(&mut self.rows, &mut rows);
        let ghost i: int;
        match Self::position(&rows, email.participant_id) {
            Some(slot) => {
                rows.set(slot, email);
                proof {
                    i = slot as int;
                }
            },
            None => {
                rows.push(email);
                proof {
                    i = before.len() as int;
                }
            },
        }
        proof {
            let after = rows@;
            assert(distinct_contacts(after));
            lemma_addresses(before);
            lemma_addresses(after);
            assert forall|k: i32|
                addresses(after).contains_key(k) <==> addresses(before).insert(
                    id,
                    address,
                ).contains_key(k) by {
                if addresses(after).contains_key(k) {
                    let j = choose|j: int|
                        0 <= j < after.len() && (#[trigger] after[j]).participant_id == k;
                    if j != i {
                        assert(after[j] == before[j]);
                    }
                }
                if addresses(before).contains_key(k) && k != id {
                    let j = choose|j: int|
                        0 <= j < before.len() && (#[trigger] before[j]).participant_id == k;
                    assert(after[j] == before[j]);
                }
                if k == id {
                    assert(after[i].participant_id == id);
                }
            }
            assert forall|k: i32| addresses(after).contains_key(k) implies addresses(after)[k]
                == addresses(before).insert(id, address)[k] by {
                let j = choose|j: int|
                    0 <= j < after.len() && (#[trigger] after[j]).participant_id == k;
                if j != i {
                    assert(after[j] == before[j]);
                }
            }
            assert(addresses(after) =~= addresses(before).insert(id, address));
        }
        core::mem::swap(&mut self.rows, &mut rows);
    }
}

impl EmailBook {
    /// A copy of the book.
    pub fn duplicate(&self) -> (copy: Self)
        ensures
            copy@ == self@,
    {
        proof {
            use_type_invariant(self);
        }
        let mut rows: Vec<Email> = Vec::new();
        let mut n: usize = 0;
        while n < self.rows.len()
            invariant
                n <= self.rows.len(),
                rows.len() == n,
                forall|i: int| 0 <= i < n ==> (#[trigger] rows[i])@ == self.rows[i]@,
            decreases self.rows.len() - n,
        {
            rows.push(self.rows[n].clone());
            n += 1;
        }
        proof {
            assert forall|i: int, j: int| 0 <= i < j < rows.len() implies (
            #[trigger] rows[i]).participant_id != (#[trigger] rows[j]).participant_id by {
                assert(rows[i]@ == self.rows[i]@);
                assert(rows[j]@ == self.rows[j]@);
            }
            assert forall|k: i32|
                addresses(rows@).contains_key(k) <==> addresses(self.rows@).contains_key(k) by {
                if addresses(rows@).contains_key(k) {
                    let i = choose|i: int|
                        0 <= i < rows.len() && (#[trigger] rows[i]).participant_id == k;
                    assert(rows[i]@ == self.rows[i]@);
                    assert(self.rows[i].participant_id == k);
                }
                if addresses(self.rows@).contains_key(k) {
                    let i = choose|i: int|
                        0 <= i < self.rows.len() && (#[trigger] self.rows[i]).participant_id == k;
                    assert(rows[i]@ == self.rows[i]@);
                    assert(rows[i].participant_id == k);
                }
            }
            lemma_addresses(rows@);
            lemma_addresses(self.rows@);
            assert forall|k: i32| addresses(rows@).contains_key(k) implies addresses(rows@)[k]
                == addresses(self.rows@)[k] by {
                let i = choose|i: int|
                    0 <= i < rows.len() && (#[trigger] rows[i]).participant_id == k;
                assert(rows[i]@ == self.rows[i]@);
            }
            assert(addresses(rows@) =~= addresses(self.rows@));
        }
        EmailBook { rows }
    }
}

impl Email {
    /// Find an email for a participant
    pub fn find(id: i32, db: &Database) -> (found: Option<Email>)
        ensures
            found is Some <==> db@.emails.contains_key(id),
            found matches Some(email) ==> email@ == (EmailView {
                participant_id: id,
                address: db@.emails[id],
            }),
    {
        match db.emails.get(id) {
            Some(email) => Some(email.clone()),
            None => None,
        }
    }

    /// Associate an email with a participant
    pub fn upsert(id: i32, address: &str, db: &mut Database) -> (email: Email)
        ensures
            email@ == (EmailView { participant_id: id, address: address@ }),
            final(db)@ == (DatabaseView {
                emails: old(db)@.emails.insert(id, address@),
                ..old(db)@
            }),
    {
        let email = Email { participant_id: id, address: address.to_owned() };
        db.emails.put(email.clone());
        email
    }
}

} // verus!
