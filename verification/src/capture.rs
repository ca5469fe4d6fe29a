//! The capture groups that a search of one line yields, as plain text.

use vstd::prelude::*;

verus! {

/// The texts that capture groups hold, in order.
pub open spec fn group_texts(groups: Seq<Option<String>>) -> Seq<Option<Seq<char>>> {
    groups.map_values(
        |g: Option<String>|
            match g {
                Some(s) => Some(s@),
                None => None,
            },
    )
}

/// The text of group `i`: `None` for a group that took no part in the match,
/// and for an index that names no group.
pub open spec fn group_at(groups: Seq<Option<Seq<char>>>, i: int) -> Option<Seq<char>> {
    if 0 <= i < groups.len() {
        groups[i]
    } else {
        None
    }
}

/// The text of group `i`, or the empty text where there is none.
pub open spec fn group_text(groups: Seq<Option<Seq<char>>>, i: int) -> Seq<char> {
    match group_at(groups, i) {
        Some(text) => text,
        None => Seq::empty(),
    }
}

/// What a successful search of a line for a pattern captured: the text of
/// each capture group, the whole match at index 0 and the groups after it in
/// the order of their opening bracket. A group that took no part in the match
/// holds nothing.
#[derive(Debug, Clone)]
pub struct LineCaptures {
    groups: Vec<Option<String>>,
}

impl View for LineCaptures {
    type V = Seq<Option<Seq<char>>>;

    closed spec fn view(&self) -> Seq<Option<Seq<char>>> {
        group_texts(self.groups@)
    }
}

impl LineCaptures {
    /// The captures that hold the given texts, the whole match first.
    pub fn new(groups: Vec<Option<String>>) -> (caps: Self)
        ensures
            caps@ == group_texts(groups@),
    {
        LineCaptures { groups }
    }

    /// The number of groups, the whole match included.
    pub fn len(&self) -> (n: usize)
        ensures
            n == self@.len(),
    {
        self.groups.len()
    }

    /// The text of group `i`, if the group exists and took part in the match.
    pub fn get(&self, i: usize) -> (text: Option<&str>)
        ensures
            match text {
                Some(t) => group_at(self@, i as int) == Some(t@),
                None => group_at(self@, i as int) is None,
            },
    {
        if i < self.groups.len() {
            match &self.groups[i] {
                Some(s) => Some(s.as_str()),
                None => None,
            }
        } else {
            None
        }
    }

    /// The text of group `i`, or the empty text where there is none.
    pub fn text(&self, i: usize) -> (text: &str)
        ensures
            text@ == group_text(self@, i as int),
    {
        match self.get(i) {
            Some(t) => t,
            None => {
                let empty = "";
                proof {
                    reveal_strlit("");
                }
                assert(empty@ =~= Seq::<char>::empty());
                empty
            },
        }
    }
}

} // verus!
