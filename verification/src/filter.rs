//! The usernames of other players, whose level-ups are not the monitored
//! character's.

use crate::text::{contains_text, texts_of};
use vstd::prelude::*;

verus! {

/// The set of usernames that were seen to join an area. It only grows, until
/// it is reset at the end of a session. No name is stored twice.
#[derive(Debug)]
pub struct UsernameFilter {
    names: Vec<String>,
}

impl View for UsernameFilter {
    type V = Set<Seq<char>>;

    closed spec fn view(&self) -> Set<Seq<char>> {
        texts_of(self.names@).to_set()
    }
}

impl UsernameFilter {
    #[verifier::type_invariant]
    spec fn names_distinct(self) -> bool {
        texts_of(self.names@).no_duplicates()
    }

    /// The filter that holds no name.
    pub fn new() -> (filter: Self)
        ensures
            filter@ == Set::<Seq<char>>::empty(),
    {
        let filter = UsernameFilter { names: Vec::new() };
        assert(filter@ =~= Set::<Seq<char>>::empty());
        filter
    }

    /// Whether `username` is in the filter.
    pub fn is_filtered(&self, username: &str) -> (filtered: bool)
        ensures
            filtered == self@.contains(username@),
    {
        contains_text(self.names.as_slice(), username)
    }

    /// Puts `username` into the filter. Recording a name again changes
    /// nothing.
    pub fn record(&mut self, username: &str)
        ensures
            final(self)@ == old(self)@.insert(username@),
    {
        proof {
            use_type_invariant(&*self);
        }
        if contains_text(self.names.as_slice(), username) {
            assert(self@.insert(username@) =~= self@);
        } else {
            let ghost before = texts_of(self.names@);
            let mut names = Vec::new();
            core::mem::swap(&mut names, &mut self.names);
            names.push(username.to_owned());
            proof {
                assert(texts_of(names@) =~= before.push(username@));
                before.lemma_push_to_set_commute(username@);
                assert forall|j: int, k: int|
                    0 <= j < k < before.len() + 1 implies before.push(username@)[j]
                    != before.push(username@)[k] by {
                    if k == before.len() {
                        assert(before.contains(before[j]));
                    }
                }
            }
            self.names = names;
        }
    }

    /// Empties the filter.
    pub fn reset(&mut self)
        ensures
            final(self)@ == Set::<Seq<char>>::empty(),
    {
        self.names = Vec::new();
        assert(self@ =~= Set::<Seq<char>>::empty());
    }

    /// The number of names in the filter.
    pub fn len(&self) -> (n: usize)
        ensures
            n == self@.len(),
            self@.finite(),
    {
        proof {
            use_type_invariant(self);
            texts_of(self.names@).unique_seq_to_set();
        }
        self.names.len()
    }

    /// The names in the filter, each once, in the order in which they were
    /// first recorded.
    pub fn names(&self) -> (names: &[String])
        ensures
            texts_of(names@).to_set() == self@,
            texts_of(names@).no_duplicates(),
    {
        proof {
            use_type_invariant(self);
        }
        self.names.as_slice()
    }
}

} // verus!
