//! Refresh-token records. The signed token is itself the key of its record.

use crate::text::same_text;
use vstd::prelude::*;

verus! {

/// The record of one refresh token.
#[derive(Debug)]
pub struct Model {
    /// The user that the token was issued to.
    pub uid: u128,
    /// The signed token: the key of the record.
    pub refresh_token: String,
    /// When the token expires, in seconds since the Unix epoch.
    pub expiry: i64,
    /// Whether the token has been redeemed.
    pub used: bool,
}

/// What a record says of its token.
pub ghost struct Row {
    pub uid: u128,
    pub expiry: i64,
    pub used: bool,
}

/// Which records a deletion leaves in place.
pub enum Keep {
    /// All but the record of this token.
    OtherTokens(String),
    /// All but the records of this user.
    OtherUsers(u128),
    /// Those that expire after this time.
    ExpiringAfter(i64),
}

impl Keep {
    /// Whether the deletion leaves the record with key `token` and content
    /// `row` in place.
    pub open spec fn keeps(self, token: Seq<char>, row: Row) -> bool {
        match self {
            Keep::OtherTokens(t) => token != t@,
            Keep::OtherUsers(uid) => row.uid != uid,
            Keep::ExpiringAfter(time) => row.expiry > time,
        }
    }

    fn test(&self, m: &Model) -> (r: bool)
        ensures
            r == self.keeps(m.refresh_token@, row_of(*m)),
    {
        match self {
            Keep::OtherTokens(t) => !same_text(m.refresh_token.as_str(), t.as_str()),
            Keep::OtherUsers(uid) => m.uid != *uid,
            Keep::ExpiringAfter(time) => m.expiry > *time,
        }
    }
}

/// The content of a record.
pub open spec fn row_of(m: Model) -> Row {
    Row { uid: m.uid, expiry: m.expiry, used: m.used }
}

/// No two records have the same token.
pub open spec fn distinct(rows: Seq<Model>) -> bool {
    forall|i: int, j: int|
        0 <= i < j < rows.len() ==> rows[i].refresh_token@ != rows[j].refresh_token@
}

/// Whether `m` maps exactly the tokens of `rows`, each to the content of its
/// record.
pub open spec fn represents(rows: Seq<Model>, m: Map<Seq<char>, Row>) -> bool {
    &&& forall|i: int|
        0 <= i < rows.len() ==> m.contains_key(#[trigger] rows[i].refresh_token@) && m[rows[i].refresh_token@]
            == row_of(rows[i])
    &&& forall|k: Seq<char>| #[trigger]
        m.contains_key(k) ==> exists|i: int| 0 <= i < rows.len() && #[trigger] rows[i].refresh_token@ == k
}

/// The map from token to content that a list of records denotes.
pub open spec fn rows_map(rows: Seq<Model>) -> Map<Seq<char>, Row>
    decreases rows.len(),
{
    if rows.len() == 0 {
        Map::empty()
    } else {
        rows_map(rows.drop_last()).insert(rows.last().refresh_token@, row_of(rows.last()))
    }
}

/// A list of records with distinct tokens is represented by the map it
/// denotes.
pub proof fn lemma_rows_map_represents(rows: Seq<Model>)
    requires
        distinct(rows),
    ensures
        represents(rows, rows_map(rows)),
    decreases rows.len(),
{
    if rows.len() > 0 {
        let head = rows.drop_last();
        lemma_rows_map_represents(head);
        let m = rows_map(rows);
        assert forall|i: int| 0 <= i < rows.len() implies m.contains_key(
            #[trigger] rows[i].refresh_token@,
        ) && m[rows[i].refresh_token@] == row_of(rows[i]) by {
            if i < rows.len() - 1 {
                assert(head[i] == rows[i]);
                assert(rows[i].refresh_token@ != rows.last().refresh_token@);
            }
        }
        assert forall|k: Seq<char>| #[trigger] m.contains_key(k) implies exists|i: int|
            0 <= i < rows.len() && #[trigger] rows[i].refresh_token@ == k by {
            if k == rows.last().refresh_token@ {
                assert(rows[rows.len() - 1].refresh_token@ == k);
            } else {
                assert(rows_map(head).contains_key(k));
                let i = choose|i: int| 0 <= i < head.len() && #[trigger] head[i].refresh_token@ == k;
                assert(rows[i].refresh_token@ == k);
            }
        }
    }
}

/// A list of records with distinct tokens is represented by one map only.
pub proof fn lemma_represents_unique(
    rows: Seq<Model>,
    a: Map<Seq<char>, Row>,
    b: Map<Seq<char>, Row>,
)
    requires
        represents(rows, a),
        represents(rows, b),
    ensures
        a == b,
{
    assert forall|k: Seq<char>| a.contains_key(k) implies b.contains_key(k) && a[k] == b[k] by {
        let i = choose|i: int| 0 <= i < rows.len() && #[trigger] rows[i].refresh_token@ == k;
        assert(b.contains_key(rows[i].refresh_token@));
    }
    assert forall|k: Seq<char>| b.contains_key(k) implies a.contains_key(k) by {
        let i = choose|i: int| 0 <= i < rows.len() && #[trigger] rows[i].refresh_token@ == k;
        assert(a.contains_key(rows[i].refresh_token@));
    }
    assert(a =~= b);
}

/// What is left of a table after a deletion.
pub open spec fn kept(m: Map<Seq<char>, Row>, keep: Keep) -> Map<Seq<char>, Row> {
    Map::new(|k: Seq<char>| m.contains_key(k) && keep.keeps(k, m[k]), |k: Seq<char>| m[k])
}

/// The table of refresh-token records, keyed by token.
pub struct RefreshTokens {
    rows: Vec<Model>,
}

impl View for RefreshTokens {
    type V = Map<Seq<char>, Row>;

    closed spec fn view(&self) -> Map<Seq<char>, Row> {
        rows_map(self.rows@)
    }
}

impl RefreshTokens {
    #[verifier::type_invariant]
    spec fn well_formed(&self) -> bool {
        distinct(self.rows@)
    }

    /// The empty table.
    pub fn new() -> (r: RefreshTokens)
        ensures
            r@ == Map::<Seq<char>, Row>::empty(),
    {
        RefreshTokens { rows: Vec::new() }
    }

    /// The number of records.
    pub fn len(&self) -> (r: usize)
        ensures
            r == self@.len(),
            self@.dom().finite(),
    {
        proof {
            use_type_invariant(self);
            lemma_rows_map_len(self.rows@);
        }
        self.rows.len()
    }

    fn position(&self, token: &str) -> (r: Option<usize>)
        ensures
            match r {
                Some(i) => i < self.rows@.len() && self.rows@[i as int].refresh_token@ == token@,
                None => forall|i: int|
                    0 <= i < self.rows@.len() ==> self.rows@[i].refresh_token@ != token@,
            },
    {
        let mut i: usize = 0;
        while i < self.rows.len()
            invariant
                i <= self.rows.len(),
                forall|j: int| 0 <= j < i ==> self.rows@[j].refresh_token@ != token@,
            decreases self.rows.len() - i,
        {
            if same_text(self.rows[i].refresh_token.as_str(), token) {
                return Some(i);
            }
            i += 1;
        }
        None
    }

    /// The record of `token`, if the table has one.
    pub fn find_by_id(&self, token: &str) -> (r: Option<Model>)
        ensures
            match r {
                Some(m) => self@.contains_key(token@) && m.refresh_token@ == token@ && row_of(m)
                    == self@[token@],
                None => !self@.contains_key(token@),
            },
    {
        proof {
            use_type_invariant(self);
            lemma_rows_map_represents(self.rows@);
        }
        match self.position(token) {
            Some(i) => {
                let m = &self.rows[i];
                assert(self@.contains_key(self.rows@[i as int].refresh_token@));
                Some(
                    Model {
                        uid: m.uid,
                        refresh_token: m.refresh_token.clone(),
                        expiry: m.expiry,
                        used: m.used,
                    },
                )
            },
            None => None,
        }
    }

    /// Adds the record of a token that has none yet.
    ///
    /// Returns whether the record was added: a token that already has a
    /// record keeps it, and the table stays as it was.
    pub fn insert(&mut self, record: Model) -> (r: bool)
        ensures
            r == !old(self)@.contains_key(record.refresh_token@),
            final(self)@ == if r {
                old(self)@.insert(record.refresh_token@, row_of(record))
            } else {
                old(self)@
            },
    {
        proof {
            use_type_invariant(&*self);
            lemma_rows_map_represents(self.rows@);
        }
        match self.position(record.refresh_token.as_str()) {
            Some(i) => {
                assert(self@.contains_key(self.rows@[i as int].refresh_token@));
                false
            },
            None => {
                let mut rows: Vec<Model> = Vec::new();
                std::mem::swap(&mut rows, &mut self.rows);
                rows.push(record);
                assert(rows@.drop_last() =~= old(self).rows@);
                self.rows = rows;
                true
            },
        }
    }

    /// Marks the record of `token` as used.
    ///
    /// Returns whether the table has a record of the token; without one the
    /// table stays as it was.
    pub fn mark_used(&mut self, token: &str) -> (r: bool)
        ensures
            r == old(self)@.contains_key(token@),
            final(self)@ == if r {
                old(self)@.insert(
                    token@,
                    Row { uid: old(self)@[token@].uid, expiry: old(self)@[token@].expiry, used: true },
                )
            } else {
                old(self)@
            },
    {
        proof {
            use_type_invariant(&*self);
            lemma_rows_map_represents(self.rows@);
        }
        match self.position(token) {
            Some(i) => {
                let ghost before = self.rows@;
                assert(self@.contains_key(before[i as int].refresh_token@));
                let m = &self.rows[i];
                let marked = Model {
                    uid: m.uid,
                    refresh_token: m.refresh_token.clone(),
                    expiry: m.expiry,
                    used: true,
                };
                let mut rows: Vec<Model> = Vec::new();
                std::mem::swap(&mut rows, &mut self.rows);
                rows.set(i, marked);
                self.rows = rows;
                proof {
                    let after = self.rows@;
                    let expected = rows_map(before).insert(
                        token@,
                        Row {
                            uid: rows_map(before)[token@].uid,
                            expiry: rows_map(before)[token@].expiry,
                            used: true,
                        },
                    );
                    assert(distinct(after)) by {
                        assert forall|a: int, b: int| 0 <= a < b < after.len() implies after[a].refresh_token@
                            != after[b].refresh_token@ by {
                            assert(after[a].refresh_token@ == before[a].refresh_token@);
                            assert(after[b].refresh_token@ == before[b].refresh_token@);
                        }
                    }
                    assert(represents(after, expected)) by {
                        assert forall|j: int| 0 <= j < after.len() implies expected.contains_key(
                            #[trigger] after[j].refresh_token@,
                        ) && expected[after[j].refresh_token@] == row_of(after[j]) by {
                            if j != i {
                                assert(after[j] == before[j]);
                                assert(rows_map(before).contains_key(before[j].refresh_token@));
                                if j < i {
                                    assert(before[j].refresh_token@ != before[i as int].refresh_token@);
                                } else {
                                    assert(before[i as int].refresh_token@ != before[j].refresh_token@);
                                }
                            }
                        }
                        assert forall|k: Seq<char>| #[trigger]
                            expected.contains_key(k) implies exists|j: int|
                            0 <= j < after.len() && #[trigger] after[j].refresh_token@ == k by {
                            if k == token@ {
                                assert(after[i as int].refresh_token@ == k);
                            } else {
                                assert(rows_map(before).contains_key(k));
                                let j = choose|j: int|
                                    0 <= j < before.len() && #[trigger] before[j].refresh_token@ == k;
                                assert(after[j].refresh_token@ == k);
                            }
                        }
                    }
                    lemma_rows_map_represents(after);
                    lemma_represents_unique(after, rows_map(after), expected);
                }
                true
            },
            None => false,
        }
    }

    /// The records of the table, in no particular order.
    pub fn records(&self) -> (r: Vec<Model>)
        ensures
            distinct(r@),
            represents(r@, self@),
            r@.len() == self@.len(),
    {
        proof {
            use_type_invariant(self);
            lemma_rows_map_represents(self.rows@);
            lemma_rows_map_len(self.rows@);
        }
        let mut out: Vec<Model> = Vec::new();
        let mut i: usize = 0;
        while i < self.rows.len()
            invariant
                i <= self.rows.len(),
                out@.len() == i,
                forall|j: int|
                    0 <= j < i ==> out@[j].refresh_token@ == self.rows@[j].refresh_token@ && row_of(
                        out@[j],
                    ) == row_of(self.rows@[j]),
            decreases self.rows.len() - i,
        {
            let m = &self.rows[i];
            out.push(
                Model {
                    uid: m.uid,
                    refresh_token: m.refresh_token.clone(),
                    expiry: m.expiry,
                    used: m.used,
                },
            );
            i += 1;
        }
        proof {
            let rows = self.rows@;
            assert forall|k: Seq<char>| #[trigger] self@.contains_key(k) implies exists|j: int|
                0 <= j < out@.len() && #[trigger] out@[j].refresh_token@ == k by {
                let j = choose|j: int| 0 <= j < rows.len() && #[trigger] rows[j].refresh_token@ == k;
                assert(out@[j].refresh_token@ == k);
            }
            assert forall|j: int| 0 <= j < out@.len() implies self@.contains_key(
                #[trigger] out@[j].refresh_token@,
            ) && self@[out@[j].refresh_token@] == row_of(out@[j]) by {
                assert(self@.contains_key(rows[j].refresh_token@));
            }
        }
        out
    }

    /// Deletes the records that `keep` does not leave in place.
    pub fn retain(&mut self, keep: &Keep)
        ensures
            final(self)@ == kept(old(self)@, *keep),
    {
        proof {
            use_type_invariant(&*self);
            lemma_rows_map_represents(self.rows@);
        }
        let ghost before = self.rows@;
        let ghost view_before = rows_map(before);
        let mut left: Vec<Model> = Vec::new();
        let mut rest: Vec<Model> = Vec::new();
        std::mem::swap(&mut rest, &mut self.rows);
        // For each record that stays, where it stood; and for each place
        // whose record stays, where that record stands now.
        let ghost mut src: Seq<int> = Seq::empty();
        let ghost mut pos: Map<int, int> = Map::empty();
        while rest.len() > 0
            invariant
                rest@.len() <= before.len(),
                rest@ == before.subrange(0, rest@.len() as int),
                src.len() == left@.len(),
                forall|j: int|
                    0 <= j < left@.len() ==> rest@.len() <= #[trigger] src[j] < before.len()
                        && left@[j] == before[src[j]] && keep.keeps(
                        before[src[j]].refresh_token@,
                        row_of(before[src[j]]),
                    ),
                forall|a: int, b: int| 0 <= a < b < src.len() ==> src[a] > src[b],
                forall|i: int|
                    rest@.len() <= i < before.len() && keep.keeps(
                        (#[trigger] before[i]).refresh_token@,
                        row_of(before[i]),
                    ) ==> pos.contains_key(i) && 0 <= pos[i] < left@.len() && src[pos[i]] == i,
            decreases rest.len(),
        {
            let ghost n = rest@.len() - 1;
            let m = rest.pop().unwrap();
            assert(m == before[n]);
            assert(rest@ =~= before.subrange(0, n));
            if keep.test(&m) {
                proof {
                    pos = pos.insert(n, left@.len() as int);
                    src = src.push(n);
                }
                left.push(m);
            }
        }
        assert(distinct(left@)) by {
            assert forall|a: int, b: int| 0 <= a < b < left@.len() implies left@[a].refresh_token@
                != left@[b].refresh_token@ by {
                assert(src[a] > src[b]);
                assert(left@[a] == before[src[a]]);
                assert(left@[b] == before[src[b]]);
            }
        }
        self.rows = left;
        proof {
            let after = self.rows@;
            let expected = kept(view_before, *keep);
            assert(represents(after, expected)) by {
                assert forall|j: int| 0 <= j < after.len() implies expected.contains_key(
                    #[trigger] after[j].refresh_token@,
                ) && expected[after[j].refresh_token@] == row_of(after[j]) by {
                    let i = src[j];
                    assert(after[j] == before[i]);
                    assert(view_before.contains_key(before[i].refresh_token@));
                }
                assert forall|k: Seq<char>| #[trigger] expected.contains_key(k) implies exists|
                    j: int,
                | 0 <= j < after.len() && #[trigger] after[j].refresh_token@ == k by {
                    assert(view_before.contains_key(k));
                    let i = choose|i: int|
                        0 <= i < before.len() && #[trigger] before[i].refresh_token@ == k;
                    assert(view_before.contains_key(before[i].refresh_token@));
                    assert(keep.keeps(before[i].refresh_token@, row_of(before[i])));
                    assert(pos.contains_key(i));
                    assert(src[pos[i]] == i);
                    assert(after[pos[i]].refresh_token@ == k);
                }
            }
            lemma_rows_map_represents(after);
            lemma_represents_unique(after, rows_map(after), expected);
        }
    }

    /// Deletes the record of `token`, if there is one.
    pub fn delete_by_id(&mut self, token: &str)
        ensures
            final(self)@ == old(self)@.remove(token@),
    {
        let keep = Keep::OtherTokens(token.to_string());
        self.retain(&keep);
        assert(self@ =~= old(self)@.remove(token@));
    }

    /// Deletes every record of the user `uid`.
    pub fn delete_by_uid(&mut self, uid: u128)
        ensures
            final(self)@ == kept(old(self)@, Keep::OtherUsers(uid)),
    {
        let keep = Keep::OtherUsers(uid);
        self.retain(&keep);
    }

    /// Deletes every record that expired at `time` or before.
    pub fn delete_expired(&mut self, time: i64)
        ensures
            final(self)@ == kept(old(self)@, Keep::ExpiringAfter(time)),
    {
        let keep = Keep::ExpiringAfter(time);
        self.retain(&keep);
    }
}

/// A table has as many entries as it has records.
pub proof fn lemma_rows_map_len(rows: Seq<Model>)
    requires
        distinct(rows),
    ensures
        rows_map(rows).dom().finite(),
        rows_map(rows).len() == rows.len(),
    decreases rows.len(),
{
    if rows.len() > 0 {
        let head = rows.drop_last();
        lemma_rows_map_len(head);
        lemma_rows_map_represents(head);
        if rows_map(head).contains_key(rows.last().refresh_token@) {
            let i = choose|i: int|
                0 <= i < head.len() && #[trigger] head[i].refresh_token@ == rows.last().refresh_token@;
            assert(rows[i].refresh_token@ == rows[rows.len() - 1].refresh_token@);
        }
    }
}

} // verus!
