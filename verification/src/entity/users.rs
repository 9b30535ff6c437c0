//! User records. A user is known by its id, and no two users share an email
//! address.

use crate::response::text_of;
use crate::text::same_text;
use vstd::prelude::*;

verus! {

/// The password of an account that was made without one: no password
/// hashes to it.
pub open spec fn no_password() -> Seq<char> {
    "0"@
}

/// The record of one user.
#[derive(Debug)]
pub struct Model {
    pub uid: u128,
    pub email: String,
    /// The encoded hash of the password.
    pub password: String,
    pub created_at: i64,
    pub updated_at: i64,
    pub last_login: Option<i64>,
    pub active: bool,
    pub metadata: Option<String>,
    pub email_verified: bool,
    pub is_admin: bool,
}

/// A user record as contracts speak of it.
pub ghost struct UserView {
    pub uid: u128,
    pub email: Seq<char>,
    pub password: Seq<char>,
    pub created_at: i64,
    pub updated_at: i64,
    pub last_login: Option<i64>,
    pub active: bool,
    pub metadata: Option<Seq<char>>,
    pub email_verified: bool,
    pub is_admin: bool,
}

impl View for Model {
    type V = UserView;

    open spec fn view(&self) -> UserView {
        UserView {
            uid: self.uid,
            email: self.email@,
            password: self.password@,
            created_at: self.created_at,
            updated_at: self.updated_at,
            last_login: self.last_login,
            active: self.active,
            metadata: text_of(self.metadata),
            email_verified: self.email_verified,
            is_admin: self.is_admin,
        }
    }
}

impl Model {
    /// A copy of the record.
    pub fn copy(&self) -> (r: Model)
        ensures
            r@ == self@,
    {
        Model {
            uid: self.uid,
            email: self.email.clone(),
            password: self.password.clone(),
            created_at: self.created_at,
            updated_at: self.updated_at,
            last_login: self.last_login,
            active: self.active,
            metadata: match &self.metadata {
                Some(m) => Some(m.clone()),
                None => None,
            },
            email_verified: self.email_verified,
            is_admin: self.is_admin,
        }
    }
}

/// What became of a record that was handed to the table.
#[derive(Clone, Copy, Debug, PartialEq, Eq, Structural)]
pub enum Stored {
    /// The record is in the table.
    Done,
    /// Another user has the email address: the table is as it was.
    EmailTaken,
    /// The id does not fit: a new record's id is in use, or no record has
    /// the id that was to be replaced. The table is as it was.
    IdMismatch,
}

/// No two records have the same id, and no two the same email address.
pub open spec fn distinct(rows: Seq<Model>) -> bool {
    forall|i: int, j: int|
        0 <= i < j < rows.len() ==> rows[i].uid != rows[j].uid && rows[i].email@ != rows[j].email@
}

/// Whether `m` maps exactly the ids of `rows`, each to its record.
pub open spec fn represents(rows: Seq<Model>, m: Map<u128, UserView>) -> bool {
    &&& forall|i: int|
        0 <= i < rows.len() ==> m.contains_key(#[trigger] rows[i].uid) && m[rows[i].uid] == rows[i]@
    &&& forall|k: u128| #[trigger]
        m.contains_key(k) ==> exists|i: int| 0 <= i < rows.len() && #[trigger] rows[i].uid == k
}

/// The map from id to record that a list of records denotes.
pub open spec fn rows_map(rows: Seq<Model>) -> Map<u128, UserView>
    decreases rows.len(),
{
    if rows.len() == 0 {
        Map::empty()
    } else {
        rows_map(rows.drop_last()).insert(rows.last().uid, rows.last()@)
    }
}

/// A list of distinct records is represented by the map it denotes.
pub proof fn lemma_rows_map_represents(rows: Seq<Model>)
    requires
        distinct(rows),
    ensures
        represents(rows, rows_map(rows)),
    decreases rows.len(),
{
    if rows.len() > 0 {
        let head = rows.drop_last();
        lemma_rows_map_represents(head);
        let m = rows_map(rows);
        assert forall|i: int| 0 <= i < rows.len() implies m.contains_key(#[trigger] rows[i].uid)
            && m[rows[i].uid] == rows[i]@ by {
            if i < rows.len() - 1 {
                assert(head[i] == rows[i]);
                assert(rows[i].uid != rows.last().uid);
            }
        }
        assert forall|k: u128| #[trigger] m.contains_key(k) implies exists|i: int|
            0 <= i < rows.len() && #[trigger] rows[i].uid == k by {
            if k == rows.last().uid {
                assert(rows[rows.len() - 1].uid == k);
            } else {
                assert(rows_map(head).contains_key(k));
                let i = choose|i: int| 0 <= i < head.len() && #[trigger] head[i].uid == k;
                assert(rows[i].uid == k);
            }
        }
    }
}

/// A list of records is represented by one map only.
pub proof fn lemma_represents_unique(rows: Seq<Model>, a: Map<u128, UserView>, b: Map<u128, UserView>)
    requires
        represents(rows, a),
        represents(rows, b),
    ensures
        a == b,
{
    assert forall|k: u128| a.contains_key(k) implies b.contains_key(k) && a[k] == b[k] by {
        let i = choose|i: int| 0 <= i < rows.len() && #[trigger] rows[i].uid == k;
        assert(b.contains_key(rows[i].uid));
    }
    assert forall|k: u128| b.contains_key(k) implies a.contains_key(k) by {
        let i = choose|i: int| 0 <= i < rows.len() && #[trigger] rows[i].uid == k;
        assert(a.contains_key(rows[i].uid));
    }
    assert(a =~= b);
}

/// Whether some user of the table has the email address.
pub open spec fn email_known(m: Map<u128, UserView>, email: Seq<char>) -> bool {
    exists|k: u128| #[trigger] m.contains_key(k) && m[k].email == email
}

/// The record of the user with the email address, if there is one.
pub open spec fn by_email(m: Map<u128, UserView>, email: Seq<char>) -> Option<UserView> {
    if email_known(m, email) {
        Some(m[choose|k: u128| #[trigger] m.contains_key(k) && m[k].email == email])
    } else {
        None
    }
}

/// Whether a user other than `uid` has the email address.
pub open spec fn email_taken_by_other(m: Map<u128, UserView>, uid: u128, email: Seq<char>) -> bool {
    exists|k: u128| #[trigger] m.contains_key(k) && k != uid && m[k].email == email
}

/// No two users of the table share an email address.
pub open spec fn emails_unique(m: Map<u128, UserView>) -> bool {
    forall|a: u128, b: u128|
        #[trigger] m.contains_key(a) && #[trigger] m.contains_key(b) && a != b ==> m[a].email
            != m[b].email
}

/// The table of users, keyed by id.
pub struct Users {
    rows: Vec<Model>,
}

impl View for Users {
    type V = Map<u128, UserView>;

    closed spec fn view(&self) -> Map<u128, UserView> {
        rows_map(self.rows@)
    }
}

impl Users {
    #[verifier::type_invariant]
    spec fn well_formed(&self) -> bool {
        distinct(self.rows@)
    }

    /// The empty table.
    pub fn new() -> (r: Users)
        ensures
            r@ == Map::<u128, UserView>::empty(),
    {
        Users { rows: Vec::new() }
    }

    /// The number of users.
    pub fn len(&self) -> (r: usize)
        ensures
            self@.dom().finite(),
            r == self@.len(),
    {
        proof {
            use_type_invariant(self);
            lemma_rows_map_len(self.rows@);
        }
        self.rows.len()
    }

    /// Lets a caller know what holds of every table: each record is kept
    /// under its own id, and no two users share an email address.
    pub fn attest(&self)
        ensures
            emails_unique(self@),
            forall|k: u128| #[trigger] self@.contains_key(k) ==> self@[k].uid == k,
    {
        proof {
            use_type_invariant(self);
            self.lemma_invariant();
        }
    }

    proof fn lemma_invariant(&self)
        requires
            distinct(self.rows@),
        ensures
            emails_unique(self@),
            forall|k: u128| #[trigger] self@.contains_key(k) ==> self@[k].uid == k,
    {
        let rows = self.rows@;
        lemma_rows_map_represents(rows);
        assert forall|a: u128, b: u128|
            #[trigger] self@.contains_key(a) && #[trigger] self@.contains_key(b) && a
                != b implies self@[a].email != self@[b].email by {
            let i = choose|i: int| 0 <= i < rows.len() && #[trigger] rows[i].uid == a;
            let j = choose|j: int| 0 <= j < rows.len() && #[trigger] rows[j].uid == b;
            assert(self@.contains_key(rows[i].uid) && self@.contains_key(rows[j].uid));
            if i < j {
                assert(rows[i].email@ != rows[j].email@);
            } else {
                assert(rows[j].email@ != rows[i].email@);
            }
        }
        assert forall|k: u128| #[trigger] self@.contains_key(k) implies self@[k].uid == k by {
            let i = choose|i: int| 0 <= i < rows.len() && #[trigger] rows[i].uid == k;
            assert(self@.contains_key(rows[i].uid));
        }
    }

    fn position(&self, uid: u128) -> (r: Option<usize>)
        ensures
            match r {
                Some(i) => i < self.rows@.len() && self.rows@[i as int].uid == uid,
                None => forall|i: int| 0 <= i < self.rows@.len() ==> self.rows@[i].uid != uid,
            },
    {
        let mut i: usize = 0;
        while i < self.rows.len()
            invariant
                i <= self.rows.len(),
                forall|j: int| 0 <= j < i ==> self.rows@[j].uid != uid,
            decreases self.rows.len() - i,
        {
            if self.rows[i].uid == uid {
                return Some(i);
            }
            i += 1;
        }
        None
    }

    fn position_of_email(&self, email: &str) -> (r: Option<usize>)
        ensures
            match r {
                Some(i) => i < self.rows@.len() && self.rows@[i as int].email@ == email@,
                None => forall|i: int| 0 <= i < self.rows@.len() ==> self.rows@[i].email@ != email@,
            },
    {
        let mut i: usize = 0;
        while i < self.rows.len()
            invariant
                i <= self.rows.len(),
                forall|j: int| 0 <= j < i ==> self.rows@[j].email@ != email@,
            decreases self.rows.len() - i,
        {
            if same_text(self.rows[i].email.as_str(), email) {
                return Some(i);
            }
            i += 1;
        }
        None
    }

    /// The records of the table, in no particular order.
    pub fn records(&self) -> (r: Vec<Model>)
        ensures
            distinct(r@),
            represents(r@, self@),
            r@.len() == self@.len(),
    {
        proof {
            use_type_invariant(self);
            lemma_rows_map_represents(self.rows@);
            lemma_rows_map_len(self.rows@);
        }
        let mut out: Vec<Model> = Vec::new();
        let mut i: usize = 0;
        while i < self.rows.len()
            invariant
                i <= self.rows.len(),
                out@.len() == i,
                forall|j: int| 0 <= j < i ==> out@[j]@ == self.rows@[j]@,
            decreases self.rows.len() - i,
        {
            out.push(self.rows[i].copy());
            i += 1;
        }
        proof {
            let rows = self.rows@;
            assert forall|a: int, b: int| 0 <= a < b < out@.len() implies out@[a].uid != out@[b].uid
                && out@[a].email@ != out@[b].email@ by {
                assert(out@[a]@ == rows[a]@);
                assert(out@[b]@ == rows[b]@);
            }
            assert forall|k: u128| #[trigger] self@.contains_key(k) implies exists|j: int|
                0 <= j < out@.len() && #[trigger] out@[j].uid == k by {
                let j = choose|j: int| 0 <= j < rows.len() && #[trigger] rows[j].uid == k;
                assert(out@[j]@ == rows[j]@);
                assert(out@[j].uid == k);
            }
            assert forall|j: int| 0 <= j < out@.len() implies self@.contains_key(
                #[trigger] out@[j].uid,
            ) && self@[out@[j].uid] == out@[j]@ by {
                assert(out@[j]@ == rows[j]@);
                assert(self@.contains_key(rows[j].uid));
            }
        }
        out
    }

    /// The record of the user `uid`, if there is one.
    pub fn find_by_id(&self, uid: u128) -> (r: Option<Model>)
        ensures
            match r {
                Some(u) => self@.contains_key(uid) && u@ == self@[uid] && u.uid == uid,
                None => !self@.contains_key(uid),
            },
    {
        proof {
            use_type_invariant(self);
            lemma_rows_map_represents(self.rows@);
        }
        match self.position(uid) {
            Some(i) => {
                assert(self@.contains_key(self.rows@[i as int].uid));
                Some(self.rows[i].copy())
            },
            None => None,
        }
    }

    /// The record of the user with the email address, if there is one.
    pub fn find_by_email(&self, email: &str) -> (r: Option<Model>)
        ensures
            match r {
                Some(u) => self@.contains_key(u.uid) && u@ == self@[u.uid] && u.email@ == email@
                    && by_email(self@, email@) == Some(u@),
                None => !email_known(self@, email@) && by_email(self@, email@) is None,
            },
    {
        proof {
            use_type_invariant(self);
            lemma_rows_map_represents(self.rows@);
            self.lemma_invariant();
        }
        match self.position_of_email(email) {
            Some(i) => {
                assert(self@.contains_key(self.rows@[i as int].uid));
                let ghost k = choose|k: u128| #[trigger]
                    self@.contains_key(k) && self@[k].email == email@;
                assert(k == self.rows@[i as int].uid);
                Some(self.rows[i].copy())
            },
            None => {
                assert(!email_known(self@, email@)) by {
                    if email_known(self@, email@) {
                        let k = choose|k: u128| #[trigger]
                            self@.contains_key(k) && self@[k].email == email@;
                        let i = choose|i: int|
                            0 <= i < self.rows@.len() && #[trigger] self.rows@[i].uid == k;
                        assert(self@.contains_key(self.rows@[i].uid));
                    }
                }
                None
            },
        }
    }

    /// Adds the record of a new user.
    ///
    /// The record is added where neither its id nor its email address is in
    /// the table. An email address that is in use is reported before an id
    /// that is.
    pub fn insert(&mut self, user: Model) -> (r: Stored)
        ensures
            r == if email_known(old(self)@, user.email@) {
                Stored::EmailTaken
            } else if old(self)@.contains_key(user.uid) {
                Stored::IdMismatch
            } else {
                Stored::Done
            },
            final(self)@ == if r == Stored::Done {
                old(self)@.insert(user.uid, user@)
            } else {
                old(self)@
            },
    {
        proof {
            use_type_invariant(&*self);
            lemma_rows_map_represents(self.rows@);
        }
        let ghost before = self.rows@;
        match self.position_of_email(user.email.as_str()) {
            Some(i) => {
                assert(self@.contains_key(before[i as int].uid));
                return Stored::EmailTaken;
            },
            None => {
                assert(!email_known(self@, user.email@)) by {
                    if email_known(self@, user.email@) {
                        let k = choose|k: u128| #[trigger]
                            self@.contains_key(k) && self@[k].email == user.email@;
                        let i = choose|i: int| 0 <= i < before.len() && #[trigger] before[i].uid == k;
                        assert(self@.contains_key(before[i].uid));
                    }
                }
            },
        }
        match self.position(user.uid) {
            Some(i) => {
                assert(self@.contains_key(before[i as int].uid));
                Stored::IdMismatch
            },
            None => {
                let mut rows: Vec<Model> = Vec::new();
                std::mem::swap(&mut rows, &mut self.rows);
                rows.push(user);
                assert(rows@.drop_last() =~= before);
                self.rows = rows;
                Stored::Done
            },
        }
    }

    /// Replaces the record of the user `user.uid` by `user`.
    ///
    /// The record is replaced where the table has one of that id and no
    /// other user has the new email address. A missing record is reported
    /// before an email address that is in use.
    pub fn update(&mut self, user: Model) -> (r: Stored)
        ensures
            r == if !old(self)@.contains_key(user.uid) {
                Stored::IdMismatch
            } else if email_taken_by_other(old(self)@, user.uid, user.email@) {
                Stored::EmailTaken
            } else {
                Stored::Done
            },
            final(self)@ == if r == Stored::Done {
                old(self)@.insert(user.uid, user@)
            } else {
                old(self)@
            },
    {
        proof {
            use_type_invariant(&*self);
            lemma_rows_map_represents(self.rows@);
        }
        let ghost before = self.rows@;
        let ghost view_before = self@;
        let at = match self.position(user.uid) {
            Some(i) => i,
            None => {
                return Stored::IdMismatch;
            },
        };
        assert(self@.contains_key(before[at as int].uid));
        match self.position_of_email(user.email.as_str()) {
            Some(i) => {
                assert(self@.contains_key(before[i as int].uid));
                if i != at {
                    assert(before[i as int].uid != user.uid) by {
                        if i < at {
                            assert(before[i as int].uid != before[at as int].uid);
                        } else {
                            assert(before[at as int].uid != before[i as int].uid);
                        }
                    }
                    return Stored::EmailTaken;
                }
            },
            None => {},
        }
        assert(!email_taken_by_other(view_before, user.uid, user.email@)) by {
            if email_taken_by_other(view_before, user.uid, user.email@) {
                let k = choose|k: u128| #[trigger]
                    view_before.contains_key(k) && k != user.uid && view_before[k].email
                        == user.email@;
                let i = choose|i: int| 0 <= i < before.len() && #[trigger] before[i].uid == k;
                assert(view_before.contains_key(before[i].uid));
                assert(before[i].email@ == user.email@);
                if i < at {
                    assert(before[i].email@ != before[at as int].email@);
                } else if at < i {
                    assert(before[at as int].email@ != before[i].email@);
                }
            }
        }
        let ghost new_view = user@;
        let ghost new_uid = user.uid;
        let mut rows: Vec<Model> = Vec::new();
        std::mem::swap(&mut rows, &mut self.rows);
        rows.set(at, user);
        let ghost after = rows@;
        assert(distinct(after)) by {
            assert forall|a: int, b: int| 0 <= a < b < after.len() implies after[a].uid
                != after[b].uid && after[a].email@ != after[b].email@ by {
                assert(after[a].uid == before[a].uid);
                assert(after[b].uid == before[b].uid);
                assert(before[a].uid != before[b].uid);
                if a != at && b != at {
                    assert(after[a] == before[a]);
                    assert(after[b] == before[b]);
                } else if a == at {
                    assert(after[b] == before[b]);
                    assert(view_before.contains_key(before[b].uid));
                } else {
                    assert(after[a] == before[a]);
                    assert(view_before.contains_key(before[a].uid));
                }
            }
        }
        self.rows = rows;
        proof {
            let expected = view_before.insert(new_uid, new_view);
            assert(represents(after, expected)) by {
                assert forall|j: int| 0 <= j < after.len() implies expected.contains_key(
                    #[trigger] after[j].uid,
                ) && expected[after[j].uid] == after[j]@ by {
                    if j != at {
                        assert(after[j] == before[j]);
                        assert(view_before.contains_key(before[j].uid));
                        if j < at {
                            assert(before[j].uid != before[at as int].uid);
                        } else {
                            assert(before[at as int].uid != before[j].uid);
                        }
                    }
                }
                assert forall|k: u128| #[trigger] expected.contains_key(k) implies exists|j: int|
                    0 <= j < after.len() && #[trigger] after[j].uid == k by {
                    if k == new_uid {
                        assert(after[at as int].uid == k);
                    } else {
                        let j = choose|j: int| 0 <= j < before.len() && #[trigger] before[j].uid == k;
                        assert(after[j].uid == k);
                    }
                }
            }
            lemma_rows_map_represents(after);
            lemma_represents_unique(after, rows_map(after), expected);
        }
        Stored::Done
    }

    /// Deletes the record of the user `uid`, if there is one.
    pub fn delete_by_id(&mut self, uid: u128)
        ensures
            final(self)@ == old(self)@.remove(uid),
    {
        proof {
            use_type_invariant(&*self);
            lemma_rows_map_represents(self.rows@);
        }
        let ghost before = self.rows@;
        let ghost view_before = self@;
        match self.position(uid) {
            None => {
                assert(!view_before.contains_key(uid)) by {
                    if view_before.contains_key(uid) {
                        let i = choose|i: int| 0 <= i < before.len() && #[trigger] before[i].uid == uid;
                    }
                }
                assert(view_before.remove(uid) =~= view_before);
            },
            Some(at) => {
                let mut rows: Vec<Model> = Vec::new();
                std::mem::swap(&mut rows, &mut self.rows);
                let _gone = rows.remove(at);
                let ghost after = rows@;
                assert(after =~= before.remove(at as int));
                assert(distinct(after)) by {
                    assert forall|a: int, b: int| 0 <= a < b < after.len() implies after[a].uid
                        != after[b].uid && after[a].email@ != after[b].email@ by {
                        let a0 = if a < at { a } else { a + 1 };
                        let b0 = if b < at { b } else { b + 1 };
                        assert(after[a] == before[a0]);
                        assert(after[b] == before[b0]);
                        assert(before[a0].uid != before[b0].uid);
                    }
                }
                self.rows = rows;
                proof {
                    let expected = view_before.remove(uid);
                    assert(represents(after, expected)) by {
                        assert forall|j: int| 0 <= j < after.len() implies expected.contains_key(
                            #[trigger] after[j].uid,
                        ) && expected[after[j].uid] == after[j]@ by {
                            let j0 = if j < at { j } else { j + 1 };
                            assert(after[j] == before[j0]);
                            assert(view_before.contains_key(before[j0].uid));
                            if j0 < at {
                                assert(before[j0].uid != before[at as int].uid);
                            } else {
                                assert(before[at as int].uid != before[j0].uid);
                            }
                        }
                        assert forall|k: u128| #[trigger] expected.contains_key(k) implies exists|
                            j: int,
                        | 0 <= j < after.len() && #[trigger] after[j].uid == k by {
                            let i = choose|i: int| 0 <= i < before.len() && #[trigger] before[i].uid == k;
                            let j = if i < at { i } else { i - 1 };
                            assert(after[j] == before[i]);
                            assert(after[j].uid == k);
                        }
                    }
                    lemma_rows_map_represents(after);
                    lemma_represents_unique(after, rows_map(after), expected);
                }
            },
        }
    }
}

/// A table has as many entries as it has records.
pub proof fn lemma_rows_map_len(rows: Seq<Model>)
    requires
        distinct(rows),
    ensures
        rows_map(rows).dom().finite(),
        rows_map(rows).len() == rows.len(),
    decreases rows.len(),
{
    if rows.len() > 0 {
        let head = rows.drop_last();
        lemma_rows_map_len(head);
        lemma_rows_map_represents(head);
        if rows_map(head).contains_key(rows.last().uid) {
            let i = choose|i: int| 0 <= i < head.len() && #[trigger] head[i].uid == rows.last().uid;
            assert(rows[i].uid == rows[rows.len() - 1].uid);
        }
    }
}

} // verus!
