//! Claim sets: the string-keyed payload of every signed token.

use vstd::prelude::*;

verus! {

/// The map that a list of key and value pairs denotes: a later pair
/// replaces an earlier one with the same key.
pub open spec fn claim_map(entries: Seq<(String, String)>) -> Map<Seq<char>, Seq<char>>
    decreases entries.len(),
{
    if entries.len() == 0 {
        Map::empty()
    } else {
        claim_map(entries.drop_last()).insert(entries.last().0@, entries.last().1@)
    }
}

/// A set of claims, kept as the list of pairs in the order they were set.
pub struct ClaimSet {
    pub entries: Vec<(String, String)>,
}

impl View for ClaimSet {
    type V = Map<Seq<char>, Seq<char>>;

    open spec fn view(&self) -> Map<Seq<char>, Seq<char>> {
        claim_map(self.entries@)
    }
}

impl ClaimSet {
    /// The empty claim set.
    pub fn new() -> (r: ClaimSet)
        ensures
            r@ == Map::<Seq<char>, Seq<char>>::empty(),
    {
        ClaimSet { entries: Vec::new() }
    }

    /// Sets the claim `key` to `value`, replacing an earlier value.
    pub fn insert(&mut self, key: &str, value: &str)
        ensures
            final(self)@ == old(self)@.insert(key@, value@),
    {
        self.entries.push((key.to_string(), value.to_string()));
        assert(self.entries@.drop_last() =~= old(self).entries@);
    }

    /// The value of the claim `key`, if the set has one.
    pub fn get(&self, key: &str) -> (r: Option<String>)
        ensures
            match r {
                Some(v) => self@.contains_key(key@) && self@[key@] == v@,
                None => !self@.contains_key(key@),
            },
    {
        let wanted = key.to_string();
        let mut i: usize = self.entries.len();
        assert(self.entries@.subrange(0, i as int) =~= self.entries@);
        while i > 0
            invariant
                i <= self.entries.len(),
                wanted@ == key@,
                claim_map(self.entries@.subrange(0, i as int)).contains_key(key@)
                    == self@.contains_key(key@),
                self@.contains_key(key@) ==> claim_map(self.entries@.subrange(0, i as int))[key@]
                    == self@[key@],
            decreases i,
        {
            let ghost head = self.entries@.subrange(0, i as int);
            assert(head.drop_last() =~= self.entries@.subrange(0, i - 1));
            assert(head.last() == self.entries@[i - 1]);
            i -= 1;
            if self.entries[i].0 == wanted {
                return Some(self.entries[i].1.clone());
            }
        }
        None
    }

    /// Whether the claim `key` is set to exactly `value`.
    pub fn has(&self, key: &str, value: &str) -> (r: bool)
        ensures
            r == (self@.contains_key(key@) && self@[key@] == value@),
    {
        match self.get(key) {
            Some(v) => crate::text::same_text(v.as_str(), value),
            None => false,
        }
    }
}

} // verus!
