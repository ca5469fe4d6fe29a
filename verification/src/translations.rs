//! The table that turns raw area keys into display names.

use crate::text::{strip_prefix, text_eq, without_prefix};
use vstd::prelude::*;
use vstd::string::StringExecFns;

verus! {

/// The prefix of a raw area key that marks the harder variant of an area.
pub open spec fn cruel_key_prefix() -> Seq<char> {
    "C_"@
}

/// The qualifier that the display name of a harder variant begins with.
pub open spec fn cruel_qualifier() -> Seq<char> {
    "Cruel "@
}

/// The display name of a raw area key under a table: the key, without the
/// prefix of the harder variant if it has it, is looked up, and the name found
/// is qualified again if the prefix was there. `None` when the table lacks the
/// key that was looked up.
pub open spec fn display_name_of(table: Map<Seq<char>, Seq<char>>, area: Seq<char>) -> Option<
    Seq<char>,
> {
    match without_prefix(area, cruel_key_prefix()) {
        Some(plain) => if table.contains_key(plain) {
            Some(cruel_qualifier() + table[plain])
        } else {
            None
        },
        None => if table.contains_key(area) {
            Some(table[area])
        } else {
            None
        },
    }
}

/// The name under which an area is shown: its display name, or the raw key
/// itself where the table gives none.
pub open spec fn resolved_name_of(table: Map<Seq<char>, Seq<char>>, area: Seq<char>) -> Seq<char> {
    match display_name_of(table, area) {
        Some(name) => name,
        None => area,
    }
}

/// A mapping from raw area keys to display names. No key occurs twice.
pub struct Translations {
    areas: Vec<(String, String)>,
}

impl View for Translations {
    type V = Map<Seq<char>, Seq<char>>;

    closed spec fn view(&self) -> Map<Seq<char>, Seq<char>> {
        Map::new(
            |key: Seq<char>| self.position(key) is Some,
            |key: Seq<char>| self.areas[self.position(key).unwrap()].1@,
        )
    }
}

impl Translations {
    #[verifier::type_invariant]
    spec fn keys_distinct(self) -> bool {
        forall|i: int, j: int|
            0 <= i < j < self.areas.len() ==> (#[trigger] self.areas[i]).0@ != (
            #[trigger] self.areas[j]).0@
    }

    /// Where `key` stands among the entries, if it does.
    spec fn position(self, key: Seq<char>) -> Option<int> {
        if exists|i: int| 0 <= i < self.areas.len() && (#[trigger] self.areas[i]).0@ == key {
            Some(choose|i: int| 0 <= i < self.areas.len() && (#[trigger] self.areas[i]).0@ == key)
        } else {
            None
        }
    }

    /// The empty table.
    pub fn new() -> (table: Self)
        ensures
            table@ == Map::<Seq<char>, Seq<char>>::empty(),
    {
        let table = Translations { areas: Vec::new() };
        assert(table@ =~= Map::<Seq<char>, Seq<char>>::empty());
        table
    }

    fn find(&self, key: &str) -> (at: Option<usize>)
        ensures
            match at {
                Some(i) => i < self.areas.len() && self.areas[i as int].0@ == key@
                    && self.position(key@) == Some(i as int),
                None => self.position(key@) is None,
            },
    {
        let mut i: usize = 0;
        while i < self.areas.len()
            invariant
                i <= self.areas.len(),
                forall|j: int| 0 <= j < i ==> (#[trigger] self.areas[j]).0@ != key@,
            decreases self.areas.len() - i,
        {
            if text_eq(self.areas[i].0.as_str(), key) {
                proof {
                    use_type_invariant(self);
                    let j = self.position(key@).unwrap();
                    assert(self.areas[j].0@ == self.areas[i as int].0@);
                }
                return Some(i);
            }
            i += 1;
        }
        None
    }

    /// The display name stored under `key`, if there is one.
    pub fn get(&self, key: &str) -> (name: Option<&String>)
        ensures
            match name {
                Some(n) => self@.contains_key(key@) && self@[key@] == n@,
                None => !self@.contains_key(key@),
            },
    {
        match self.find(key) {
            Some(i) => Some(&self.areas[i].1),
            None => None,
        }
    }

    /// Stores `name` under `key`, in place of what stood there before.
    pub fn insert(&mut self, key: String, name: String)
        ensures
            final(self)@ == old(self)@.insert(key@, name@),
    {
        proof {
            use_type_invariant(&*self);
        }
        let ghost before = *self;
        let at = self.find(key.as_str());
        let mut areas = Vec::new();
        core::mem::swap(&mut areas, &mut self.areas);
        match at {
            Some(i) => {
                areas.set(i, (key, name));
                self.areas = areas;
                proof {
                    let after = *self;
                    assert forall|k: Seq<char>| #[trigger] after.position(k) == before.position(k) by {
                        if before.position(k) is Some {
                            let j = before.position(k).unwrap();
                            assert(after.areas[j].0@ == k);
                            let m = after.position(k).unwrap();
                            assert(before.areas[m].0@ == after.areas[m].0@);
                        } else if after.position(k) is Some {
                            let m = after.position(k).unwrap();
                            assert(before.areas[m].0@ == after.areas[m].0@);
                        }
                    }
                    assert(after@ =~= before@.insert(key@, name@));
                }
            },
            None => {
                areas.push((key, name));
                self.areas = areas;
                proof {
                    let after = *self;
                    let last = before.areas.len() as int;
                    assert(after.areas[last].0@ == key@);
                    assert forall|k: Seq<char>|
                        k != key@ implies #[trigger] after.position(k) == before.position(k) by {
                        if before.position(k) is Some {
                            let j = before.position(k).unwrap();
                            assert(after.areas[j].0@ == k);
                            let m = after.position(k).unwrap();
                            assert(before.areas[m].0@ == k);
                        } else if after.position(k) is Some {
                            let m = after.position(k).unwrap();
                            assert(before.areas[m].0@ == k);
                        }
                    }
                    assert(after.position(key@) == Some(last));
                    assert(after@ =~= before@.insert(key@, name@));
                }
            },
        }
    }

    /// The entries of the table as pairs of key and display name, each key
    /// once.
    pub fn entries(&self) -> (pairs: &[(String, String)])
        ensures
            forall|i: int|
                0 <= i < pairs@.len() ==> self@.contains_key((#[trigger] pairs@[i]).0@)
                    && self@[pairs@[i].0@] == pairs@[i].1@,
            forall|key: Seq<char>| #[trigger]
                self@.contains_key(key) ==> exists|i: int|
                    0 <= i < pairs@.len() && (#[trigger] pairs@[i]).0@ == key,
            forall|i: int, j: int|
                0 <= i < j < pairs@.len() ==> (#[trigger] pairs@[i]).0@ != (#[trigger] pairs@[j]).0@,
    {
        proof {
            use_type_invariant(self);
            assert forall|i: int| 0 <= i < self.areas@.len() implies self@.contains_key(
                (#[trigger] self.areas@[i]).0@,
            ) && self@[self.areas@[i].0@] == self.areas@[i].1@ by {
                let key = self.areas@[i].0@;
                let j = self.position(key).unwrap();
                assert(self.areas@[j].0@ == self.areas@[i].0@);
            }
        }
        self.areas.as_slice()
    }

    /// The display name of a raw area key, if the table has one for it.
    pub fn get_area_display_name(&self, area: &str) -> (name: Option<String>)
        ensures
            match name {
                Some(n) => display_name_of(self@, area@) == Some(n@),
                None => display_name_of(self@, area@) is None,
            },
    {
        match strip_prefix(area, "C_") {
            Some(plain) => match self.get(plain.as_str()) {
                Some(found) => {
                    let mut name = String::from_str("Cruel ");
                    name.append(found.as_str());
                    Some(name)
                },
                None => None,
            },
            None => match self.get(area) {
                Some(found) => Some(found.clone()),
                None => None,
            },
        }
    }

    /// The name under which an area is shown: its display name, or the raw
    /// key itself where the table gives none.
    pub fn resolve_area_name(&self, area: &str) -> (name: String)
        ensures
            name@ == resolved_name_of(self@, area@),
    {
        match self.get_area_display_name(area) {
            Some(name) => name,
            None => area.to_owned(),
        }
    }
}

} // verus!
