//! Names of values.

use vstd::prelude::*;
use crate::text::str_eq;

verus! {

/// What names stand for; a later entry for a name hides an earlier one.
#[derive(Debug)]
pub struct Names {
    entries: Vec<(String, u32)>,
}

/// What a sequence of entries says.
pub closed spec fn entries_map(s: Seq<(String, u32)>) -> Map<Seq<char>, u32>
    decreases s.len(),
{
    if s.len() == 0 {
        Map::empty()
    } else {
        entries_map(s.drop_last()).insert(s.last().0@, s.last().1)
    }
}

impl View for Names {
    type V = Map<Seq<char>, u32>;

    closed spec fn view(&self) -> Map<Seq<char>, u32> {
        entries_map(self.entries@)
    }
}

/// With a meaning for a name that has none yet.
pub open spec fn registered(m: Map<Seq<char>, u32>, name: Seq<char>, v: u32) -> Map<Seq<char>, u32> {
    if m.contains_key(name) {
        m
    } else {
        m.insert(name, v)
    }
}

/// A name that has a meaning keeps it, and other names are not touched.
pub proof fn first_registration_stays(
    m: Map<Seq<char>, u32>,
    name: Seq<char>,
    v: u32,
    other: Seq<char>,
)
    requires
        m.contains_key(other),
    ensures
        registered(m, name, v).contains_key(other),
        registered(m, name, v)[other] == m[other],
        registered(m, name, v).contains_key(name),
{
}

impl Names {
    pub fn new() -> (r: Self)
        ensures
            r@ == Map::<Seq<char>, u32>::empty(),
    {
        Names { entries: Vec::new() }
    }

    /// Gives a name a meaning, whether it had one or not.
    pub fn insert(&mut self, name: &str, v: u32)
        ensures
            final(self)@ == old(self)@.insert(name@, v),
    {
        self.entries.push((name.to_owned(), v));
        assert(self.entries@.drop_last() == old(self).entries@);
    }

    /// Gives a name a meaning, unless it has one.
    pub fn register(&mut self, name: &str, v: u32)
        ensures
            final(self)@ == registered(old(self)@, name@, v),
    {
        if self.get(name).is_none() {
            self.insert(name, v);
        }
    }

    /// What a name stands for.
    pub fn get(&self, name: &str) -> (r: Option<u32>)
        ensures
            match r {
                Some(v) => self@.contains_key(name@) && self@[name@] == v,
                None => !self@.contains_key(name@),
            },
    {
        let mut k: usize = self.entries.len();
        assert(self.entries@.take(k as int) == self.entries@);
        while k > 0
            invariant
                k <= self.entries@.len(),
                self@.contains_key(name@) <==> entries_map(
                    self.entries@.take(k as int),
                ).contains_key(name@),
                self@.contains_key(name@) ==> self@[name@] == entries_map(
                    self.entries@.take(k as int),
                )[name@],
            decreases k,
        {
            let ghost here = self.entries@.take(k as int);
            assert(here.drop_last() == self.entries@.take(k - 1));
            if str_eq(self.entries[k - 1].0.as_str(), name) {
                return Some(self.entries[k - 1].1);
            }
            k -= 1;
        }
        None
    }
}

} // verus!
