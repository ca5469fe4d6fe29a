//! What a session knows: the usernames of other players and the states that
//! wait to be pushed, brought up to date line by line.

use crate::event::{observed_at, ClassInfo, ClassState, LineError, MapChangeInfo};
use crate::filter::UsernameFilter;
use crate::grammar::{classified, LineEvent, LineEventView, LineGrammar};
use crate::status::{blank_status, CoalescerView, StatusCoalescer};
use crate::text::{lines_of, split_lines, texts_of};
use crate::translations::Translations;
use vstd::prelude::*;

verus! {

/// What a tracker holds.
pub struct TrackerView {
    /// The usernames whose level-ups are not attributed to the monitored
    /// character.
    pub filter: Set<Seq<char>>,
    /// The pending states and the payload as last assembled.
    pub status: CoalescerView,
}

impl TrackerView {
    /// The tracker after an event that was observed at the time `now`. A
    /// level-up becomes the pending class state unless its user is filtered; an
    /// area generation becomes the pending area state; a user who joined is
    /// put into the filter.
    pub open spec fn after_event(self, event: LineEventView, now: i64) -> TrackerView {
        match event {
            LineEventView::LevelUp(class) => if self.filter.contains(class.username) {
                self
            } else {
                TrackerView {
                    status: CoalescerView { class: Some(class), ..self.status },
                    ..self
                }
            },
            LineEventView::AreaGenerated(area) => TrackerView {
                status: CoalescerView { area: Some(observed_at(area, now)), ..self.status },
                ..self
            },
            LineEventView::UserJoined(username) => TrackerView {
                filter: self.filter.insert(username),
                ..self
            },
        }
    }

    /// The tracker after a line was classified at the time `now`. A line
    /// that is no event, or malformed, changes nothing.
    pub open spec fn after_line(
        self,
        outcome: Result<Option<LineEventView>, LineError>,
        now: i64,
    ) -> TrackerView {
        match outcome {
            Ok(Some(event)) => self.after_event(event, now),
            _ => self,
        }
    }

    /// The tracker after the given lines were observed at the time `now`,
    /// one after the other.
    pub open spec fn ingested(
        self,
        lines: Seq<Seq<char>>,
        table: Map<Seq<char>, Seq<char>>,
        now: i64,
    ) -> TrackerView
        decreases lines.len(),
    {
        if lines.len() == 0 {
            self
        } else {
            self.ingested(lines.drop_last(), table, now).after_line(
                classified(lines.last(), table),
                now,
            )
        }
    }

    /// The tracker after the given level-ups, one after the other.
    pub open spec fn after_level_ups(self, level_ups: Seq<ClassState>) -> TrackerView
        decreases level_ups.len(),
    {
        if level_ups.len() == 0 {
            self
        } else {
            self.after_level_ups(level_ups.drop_last()).after_event(
                LineEventView::LevelUp(level_ups.last()),
                0,
            )
        }
    }

    /// The tracker after the given lines of the log's history were replayed.
    /// First every user who joined anywhere in the history is put into the
    /// filter; then the level-ups of the history are taken in, in their
    /// order, against that filter. An area generated in the past is not
    /// entered now and changes nothing.
    pub open spec fn seeded(
        self,
        lines: Seq<Seq<char>>,
        table: Map<Seq<char>, Seq<char>>,
    ) -> TrackerView {
        TrackerView {
            filter: self.filter.union(joined_in(lines, table)),
            ..self
        }.after_level_ups(level_ups_in(lines, table))
    }

    /// The tracker at the end of a session: the filter is empty again and
    /// nothing is pending.
    pub open spec fn ended(self) -> TrackerView {
        TrackerView { filter: Set::empty(), status: self.status.discarded() }
    }
}

/// The users whom the given lines say to have joined the area.
pub open spec fn joined_in(lines: Seq<Seq<char>>, table: Map<Seq<char>, Seq<char>>) -> Set<
    Seq<char>,
>
    decreases lines.len(),
{
    if lines.len() == 0 {
        Set::empty()
    } else {
        let before = joined_in(lines.drop_last(), table);
        match classified(lines.last(), table) {
            Ok(Some(LineEventView::UserJoined(username))) => before.insert(username),
            _ => before,
        }
    }
}

/// The level-ups that the given lines stand for, in the order of the lines.
pub open spec fn level_ups_in(lines: Seq<Seq<char>>, table: Map<Seq<char>, Seq<char>>) -> Seq<
    ClassState,
>
    decreases lines.len(),
{
    if lines.len() == 0 {
        Seq::empty()
    } else {
        let before = level_ups_in(lines.drop_last(), table);
        match classified(lines.last(), table) {
            Ok(Some(LineEventView::LevelUp(class))) => before.push(class),
            _ => before,
        }
    }
}

/// The class states that a vector of level-ups holds, in order.
pub open spec fn class_states(level_ups: Seq<ClassInfo>) -> Seq<ClassState> {
    level_ups.map_values(|info: ClassInfo| info@)
}

/// The tracker of a monitor that has seen nothing yet.
pub open spec fn fresh_tracker() -> TrackerView {
    TrackerView {
        filter: Set::empty(),
        status: CoalescerView { class: None, area: None, shown: blank_status() },
    }
}

/// The number of malformed lines among the given ones.
pub open spec fn malformed_count(lines: Seq<Seq<char>>, table: Map<Seq<char>, Seq<char>>) -> nat
    decreases lines.len(),
{
    if lines.len() == 0 {
        0
    } else {
        malformed_count(lines.drop_last(), table) + if classified(lines.last(), table) is Err {
            1nat
        } else {
            0nat
        }
    }
}

/// The username filter and the status coalescer of a session.
#[derive(Debug)]
pub struct Tracker {
    pub filter: UsernameFilter,
    pub status: StatusCoalescer,
}

impl View for Tracker {
    type V = TrackerView;

    open spec fn view(&self) -> TrackerView {
        TrackerView { filter: self.filter@, status: self.status@ }
    }
}

impl Tracker {
    /// A tracker with an empty filter, nothing pending and nothing shown.
    pub fn new() -> (tracker: Tracker)
        ensures
            tracker@ == fresh_tracker(),
    {
        Tracker { filter: UsernameFilter::new(), status: StatusCoalescer::new() }
    }

    /// Takes in an event that was observed at the time `now`.
    pub fn observe(&mut self, event: LineEvent, now: i64)
        ensures
            final(self)@ == old(self)@.after_event(event@, now),
    {
        match event {
            LineEvent::LevelUp(class) => {
                if !self.filter.is_filtered(class.username.as_str()) {
                    self.status.observe_class(class);
                }
            },
            LineEvent::AreaGenerated(area) => {
                self.status.observe_area(MapChangeInfo::observed(area, now));
            },
            LineEvent::UserJoined(username) => {
                self.filter.record(username.as_str());
            },
        }
    }

    /// Classifies the lines of `text`, which were read at the time `now`, and
    /// takes in their events in order. Returns the number of malformed lines,
    /// which were dropped.
    pub fn ingest(
        &mut self,
        grammar: &LineGrammar,
        translations: &Translations,
        text: &str,
        now: i64,
    ) -> (dropped: usize)
        ensures
            final(self)@ == old(self)@.ingested(lines_of(text@), translations@, now),
            dropped == malformed_count(lines_of(text@), translations@),
    {
        let lines = split_lines(text);
        let ghost start = self@;
        let ghost all = texts_of(lines@);
        let mut dropped: usize = 0;
        let mut i: usize = 0;
        while i < lines.len()
            invariant
                i <= lines.len(),
                all == texts_of(lines@),
                self@ == start.ingested(all.take(i as int), translations@, now),
                dropped == malformed_count(all.take(i as int), translations@),
                dropped <= i,
            decreases lines.len() - i,
        {
            let outcome = grammar.classify(lines[i].as_str(), translations);
            proof {
                let read = all.take(i + 1);
                assert(read.drop_last() =~= all.take(i as int));
                assert(read.last() == lines@[i as int]@);
            }
            match outcome {
                Ok(Some(event)) => {
                    self.observe(event, now);
                },
                Ok(None) => {},
                Err(_) => {
                    dropped += 1;
                },
            }
            i += 1;
        }
        assert(all.take(lines.len() as int) =~= all);
        dropped
    }

    /// Replays the log's history: classifies the lines of `text`, puts every
    /// user who joined into the filter, and then takes in the level-ups in
    /// their order. Returns the number of malformed lines, which were
    /// dropped.
    pub fn seed(&mut self, grammar: &LineGrammar, translations: &Translations, text: &str) -> (dropped:
        usize)
        ensures
            final(self)@ == old(self)@.seeded(lines_of(text@), translations@),
            dropped == malformed_count(lines_of(text@), translations@),
    {
        let lines = split_lines(text);
        let ghost start = self@;
        let ghost all = texts_of(lines@);
        let mut level_ups: Vec<ClassInfo> = Vec::new();
        let mut dropped: usize = 0;
        let mut i: usize = 0;
        proof {
            assert(start.filter.union(Set::<Seq<char>>::empty()) =~= start.filter);
        }
        while i < lines.len()
            invariant
                i <= lines.len(),
                all == texts_of(lines@),
                self.status@ == start.status,
                self.filter@ == start.filter.union(joined_in(all.take(i as int), translations@)),
                class_states(level_ups@) == level_ups_in(all.take(i as int), translations@),
                dropped == malformed_count(all.take(i as int), translations@),
                dropped <= i,
            decreases lines.len() - i,
        {
            let outcome = grammar.classify(lines[i].as_str(), translations);
            proof {
                let read = all.take(i + 1);
                assert(read.drop_last() =~= all.take(i as int));
                assert(read.last() == lines@[i as int]@);
            }
            let ghost joined = joined_in(all.take(i as int), translations@);
            match outcome {
                Ok(Some(LineEvent::UserJoined(username))) => {
                    self.filter.record(username.as_str());
                    assert(start.filter.union(joined).insert(username@) =~= start.filter.union(
                        joined.insert(username@),
                    ));
                },
                Ok(Some(LineEvent::LevelUp(class))) => {
                    assert(class_states(level_ups@.push(class)) =~= class_states(level_ups@).push(
                        class@,
                    ));
                    level_ups.push(class);
                },
                Ok(_) => {},
                Err(_) => {
                    dropped += 1;
                },
            }
            i += 1;
        }
        assert(all.take(lines.len() as int) =~= all);
        let ghost filtered = self@;
        let ghost states = class_states(level_ups@);
        let mut j: usize = 0;
        while j < level_ups.len()
            invariant
                j <= level_ups.len(),
                states == class_states(level_ups@),
                self@ == filtered.after_level_ups(states.take(j as int)),
            decreases level_ups.len() - j,
        {
            proof {
                let taken = states.take(j + 1);
                assert(taken.drop_last() =~= states.take(j as int));
                assert(taken.last() == level_ups@[j as int]@);
            }
            self.observe(LineEvent::LevelUp(level_ups[j].duplicate()), 0);
            j += 1;
        }
        assert(states.take(level_ups.len() as int) =~= states);
        dropped
    }

    /// Ends the session: empties the filter and drops what is pending.
    pub fn end_session(&mut self)
        ensures
            final(self)@ == old(self)@.ended(),
    {
        self.filter.reset();
        self.status.discard();
    }
}

} // verus!
