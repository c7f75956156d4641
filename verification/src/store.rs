//! An in-memory credential store with upsert under the natural key.
//!
//! The store keeps at most one row per key. It serves as the primary
//! store and, in a second instance, as its mirror.

use vstd::prelude::*;
use vstd::string::*;
use crate::credential::{Credential, CredentialKey, CredentialView};

verus! {

/// A credential as a store keeps it: with the identifier of its row.
#[derive(Debug, PartialEq, Eq)]
pub struct StoredCredential {
    /// Identifier of the row, given when it is created and kept
    /// afterwards.
    pub id: u64,
    pub credential: Credential,
}

/// Mathematical value of a [`StoredCredential`].
pub struct StoredCredentialView {
    pub id: nat,
    pub credential: CredentialView,
}

impl View for StoredCredential {
    type V = StoredCredentialView;

    open spec fn view(&self) -> StoredCredentialView {
        StoredCredentialView { id: self.id as nat, credential: self.credential@ }
    }
}

impl Clone for StoredCredential {
    fn clone(&self) -> (copy: Self)
        ensures
            copy == *self,
    {
        StoredCredential { id: self.id, credential: self.credential.clone() }
    }
}

/// A stored credential as a mathematical value, where there is one.
pub open spec fn row_view(row: Option<StoredCredential>) -> Option<StoredCredentialView> {
    match row {
        Some(r) => Some(r@),
        None => None,
    }
}

/// Mathematical value of a [`CredentialStore`]: its rows in the order of
/// their creation, and the number of rows it has room for.
pub struct StoreView {
    pub rows: Seq<StoredCredentialView>,
    pub capacity: nat,
}

/// Position of the first row at or after `from` that is stored under
/// `key`.
pub open spec fn position_from(rows: Seq<StoredCredentialView>, key: CredentialKey, from: int) -> Option<
    int,
>
    decreases rows.len() - from,
{
    if from < 0 || from >= rows.len() {
        None
    } else if rows[from].credential.key() == key {
        Some(from)
    } else {
        position_from(rows, key, from + 1)
    }
}

impl StoreView {
    /// Position of the row stored under `key`.
    pub open spec fn position(self, key: CredentialKey) -> Option<int> {
        position_from(self.rows, key, 0)
    }

    /// The row stored under `key`.
    pub open spec fn find(self, key: CredentialKey) -> Option<StoredCredentialView> {
        match self.position(key) {
            Some(i) => Some(self.rows[i]),
            None => None,
        }
    }

    /// Whether the row under the key of `credential` holds exactly its
    /// values.
    pub open spec fn holds(self, credential: CredentialView) -> bool {
        match self.find(credential.key()) {
            Some(row) => row.credential == credential,
            None => false,
        }
    }

    /// The store keeps no more rows than it has room for, numbers them
    /// from one in the order of their creation, and keeps no two under
    /// one key.
    pub open spec fn well_formed(self) -> bool {
        &&& self.rows.len() <= self.capacity
        &&& self.capacity <= u64::MAX
        &&& forall|i: int| 0 <= i < self.rows.len() ==> (#[trigger] self.rows[i]).id == i + 1
        &&& forall|i: int, j: int|
            0 <= i < j < self.rows.len() ==> (#[trigger] self.rows[i]).credential.key() != (
            #[trigger] self.rows[j]).credential.key()
    }

    /// Whether an upsert of `credential` succeeds: its key has a row
    /// already, or there is room for one more.
    pub open spec fn accepts(self, credential: CredentialView) -> bool {
        self.position(credential.key()) is Some || self.rows.len() < self.capacity
    }

    /// The row that an upsert of `credential` writes. Where the key has a
    /// row, that row keeps its identifier and takes every other field
    /// from `credential`; otherwise the row is new.
    pub open spec fn written(self, credential: CredentialView) -> StoredCredentialView {
        match self.position(credential.key()) {
            Some(i) => StoredCredentialView { id: self.rows[i].id, credential },
            None => StoredCredentialView { id: self.rows.len() + 1, credential },
        }
    }

    /// The store after an upsert of `credential`. A store that does not
    /// accept the credential stays as it is.
    pub open spec fn upserted(self, credential: CredentialView) -> StoreView {
        match self.position(credential.key()) {
            Some(i) => StoreView { rows: self.rows.update(i, self.written(credential)), ..self },
            None => if self.rows.len() < self.capacity {
                StoreView { rows: self.rows.push(self.written(credential)), ..self }
            } else {
                self
            },
        }
    }
}

/// What `position_from` finds is the first row under the key, and it finds
/// one whenever there is one.
pub proof fn lemma_position_from(rows: Seq<StoredCredentialView>, key: CredentialKey, from: int)
    requires
        0 <= from <= rows.len(),
    ensures
        match position_from(rows, key, from) {
            Some(i) => from <= i < rows.len() && rows[i].credential.key() == key && forall|j: int|
                from <= j < i ==> rows[j].credential.key() != key,
            None => forall|j: int| from <= j < rows.len() ==> rows[j].credential.key() != key,
        },
    decreases rows.len() - from,
{
    if from < rows.len() && rows[from].credential.key() != key {
        lemma_position_from(rows, key, from + 1);
    }
}

/// A row under the key with none under it before is the one that
/// `position_from` finds.
pub proof fn lemma_position_is(rows: Seq<StoredCredentialView>, key: CredentialKey, at: int)
    requires
        0 <= at < rows.len(),
        rows[at].credential.key() == key,
        forall|j: int| 0 <= j < at ==> rows[j].credential.key() != key,
    ensures
        position_from(rows, key, 0) == Some(at),
{
    lemma_position_from(rows, key, 0);
}

/// Where no row is under the key, `position_from` finds none.
pub proof fn lemma_position_none(rows: Seq<StoredCredentialView>, key: CredentialKey)
    requires
        forall|j: int| 0 <= j < rows.len() ==> rows[j].credential.key() != key,
    ensures
        position_from(rows, key, 0) is None,
{
    lemma_position_from(rows, key, 0);
}

/// An upsert keeps a store well formed: it numbers its rows as before and
/// still keeps no two under one key.
pub proof fn lemma_upsert_keeps_well_formed(store: StoreView, credential: CredentialView)
    requires
        store.well_formed(),
    ensures
        store.upserted(credential).well_formed(),
        store.upserted(credential).capacity == store.capacity,
        store.upserted(credential).rows.len() == if store.position(credential.key()) is None
            && store.accepts(credential) {
            store.rows.len() + 1
        } else {
            store.rows.len()
        },
{
    lemma_position_from(store.rows, credential.key(), 0);
}

/// After an accepted upsert the credential is found under its key, as it
/// was written.
pub proof fn lemma_upsert_then_find(store: StoreView, credential: CredentialView)
    requires
        store.well_formed(),
        store.accepts(credential),
    ensures
        store.upserted(credential).find(credential.key()) == Some(store.written(credential)),
        store.written(credential).credential == credential,
{
    let key = credential.key();
    let after = store.upserted(credential);
    lemma_position_from(store.rows, key, 0);
    match store.position(key) {
        Some(i) => {
            lemma_position_is(after.rows, key, i);
        },
        None => {
            let last = store.rows.len() as int;
            lemma_position_is(after.rows, key, last);
        },
    }
}

/// An upsert touches no row of another key.
pub proof fn lemma_upsert_leaves_other_keys(
    store: StoreView,
    credential: CredentialView,
    other: CredentialKey,
)
    requires
        store.well_formed(),
        other != credential.key(),
    ensures
        store.upserted(credential).find(other) == store.find(other),
{
    let after = store.upserted(credential);
    lemma_position_from(store.rows, credential.key(), 0);
    lemma_position_from(store.rows, other, 0);
    match store.position(other) {
        Some(i) => {
            lemma_position_is(after.rows, other, i);
        },
        None => {
            lemma_position_none(after.rows, other);
        },
    }
}

/// Upserts are idempotent: a second upsert under the same key adds no
/// row, keeps the row's identifier, and leaves the values of the second in
/// it, as if the first had never been made.
pub proof fn lemma_upsert_twice(store: StoreView, first: CredentialView, second: CredentialView)
    requires
        store.well_formed(),
        store.accepts(first),
        first.key() == second.key(),
    ensures
        store.upserted(first).well_formed(),
        store.upserted(first).accepts(second),
        store.upserted(first).upserted(second).rows.len() == store.upserted(first).rows.len(),
        store.upserted(first).upserted(second).find(second.key()) == Some(
            StoredCredentialView { id: store.written(first).id, credential: second },
        ),
        store.upserted(first).upserted(second) == store.upserted(second),
{
    let key = first.key();
    let once = store.upserted(first);
    lemma_upsert_keeps_well_formed(store, first);
    lemma_upsert_then_find(store, first);
    lemma_upsert_then_find(once, second);
    lemma_position_from(store.rows, key, 0);
    lemma_position_from(once.rows, key, 0);
    assert(once.upserted(second).rows =~= store.upserted(second).rows);
}

/// The reason for which a store refuses a credential.
#[derive(Debug, PartialEq, Eq)]
pub enum StoreError {
    /// The credential needs a new row and the store has no room left.
    Full,
}

/// An in-memory store of credentials.
#[derive(Debug, PartialEq, Eq)]
pub struct CredentialStore {
    rows: Vec<StoredCredential>,
    capacity: usize,
}

impl View for CredentialStore {
    type V = StoreView;

    closed spec fn view(&self) -> StoreView {
        StoreView {
            rows: Seq::new(self.rows@.len(), |i: int| self.rows@[i]@),
            capacity: self.capacity as nat,
        }
    }
}

impl CredentialStore {
    /// The invariant of the type: every store is well formed.
    #[verifier::type_invariant]
    pub open spec fn valid(self) -> bool {
        self@.well_formed()
    }

    /// An empty store with room for `capacity` rows.
    pub fn new(capacity: usize) -> (store: CredentialStore)
        ensures
            store@ == (StoreView { rows: Seq::empty(), capacity: capacity as nat }),
            store@.well_formed(),
    {
        let store = CredentialStore { rows: Vec::new(), capacity };
        assert(store@.rows =~= Seq::<StoredCredentialView>::empty());
        store
    }

    /// Number of rows.
    pub fn len(&self) -> (n: usize)
        ensures
            n == self@.rows.len(),
    {
        self.rows.len()
    }

    /// Number of rows that the store has room for.
    pub fn capacity(&self) -> (n: usize)
        ensures
            n == self@.capacity,
    {
        self.capacity
    }

    fn locate(&self, wanted: &Credential) -> (found: Option<usize>)
        ensures
            match found {
                Some(i) => self@.position(wanted@.key()) == Some(i as int) && i < self.rows.len(),
                None => self@.position(wanted@.key()) is None,
            },
    {
        let mut i: usize = 0;
        while i < self.rows.len()
            invariant
                i <= self.rows.len(),
                position_from(self@.rows, wanted@.key(), 0) == position_from(
                    self@.rows,
                    wanted@.key(),
                    i as int,
                ),
            decreases self.rows.len() - i,
        {
            if self.rows[i].credential.same_key(wanted) {
                return Some(i);
            }
            i = i + 1;
        }
        None
    }

    /// The row stored under the key of `wanted`, if there is one. Only the
    /// key of `wanted` is read.
    pub fn find(&self, wanted: &Credential) -> (found: Option<StoredCredential>)
        ensures
            row_view(found) == self@.find(wanted@.key()),
    {
        match self.locate(wanted) {
            Some(i) => {
                Some(self.rows[i].clone())
            },
            None => None,
        }
    }

    /// Writes a credential under its key and returns the row.
    ///
    /// Where the key has a row, the row is overwritten in place and keeps
    /// its identifier; otherwise a row is added. The store refuses a
    /// credential only if it needs a new row and there is no room: the
    /// store is then left as it was.
    pub fn upsert(&mut self, credential: Credential) -> (outcome: Result<StoredCredential, StoreError>)
        ensures
            final(self)@ == old(self)@.upserted(credential@),
            match outcome {
                Ok(row) => old(self)@.accepts(credential@) && row@ == old(self)@.written(
                    credential@,
                ),
                Err(_) => !old(self)@.accepts(credential@),
            },
    {
        proof {
            use_type_invariant(&*self);
            lemma_upsert_keeps_well_formed(self@, credential@);
        }
        let ghost before = self@;
        let found = self.locate(&credential);
        let mut rows: Vec<StoredCredential> = Vec::new();
        if found.is_none() && self.rows.len() >= self.capacity {
            return Err(StoreError::Full);
        }
        core::mem::swap(&mut self.rows, &mut rows);
        let row = match found {
            Some(i) => {
                let row = StoredCredential { id: rows[i].id, credential };
                let copy = row.clone();
                rows.set(i, row);
                assert(before.upserted(credential@).rows =~= Seq::new(
                    rows@.len(),
                    |k: int| rows@[k]@,
                ));
                copy
            },
            None => {
                let row = StoredCredential { id: rows.len() as u64 + 1, credential };
                let copy = row.clone();
                rows.push(row);
                assert(before.upserted(credential@).rows =~= Seq::new(
                    rows@.len(),
                    |k: int| rows@[k]@,
                ));
                copy
            },
        };
        self.rows = rows;
        Ok(row)
    }
}

} // verus!
