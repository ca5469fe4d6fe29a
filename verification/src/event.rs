//! The events that log lines stand for, and how their fields are read from
//! what a pattern captured.

use crate::capture::{group_at, group_text, LineCaptures};
use crate::class::{resolve_class_name, resolved, CharacterClass, ClassAscendency};
use crate::clock::unix_now;
use crate::text::{contains_text, parse_u16, parse_u64, parse_unsigned, texts_of};
use crate::translations::{resolved_name_of, Translations};
use vstd::prelude::*;

verus! {

/// Why a line that matched a pattern stands for no event.
#[derive(Debug, Clone, Copy, PartialEq, Eq, Structural)]
pub enum LineError {
    /// A numeric field is not an unsigned decimal numeral, or is too large for
    /// its field.
    BadNumber,
    /// The name in brackets is neither an ascendancy nor a base class.
    UnknownClass,
}

/// The number in group `i`, which may not exceed `max`. A group that took no
/// part in the match counts as zero; a group whose text is no numeral within
/// the limit has no number.
pub open spec fn number_field(groups: Seq<Option<Seq<char>>>, i: int, max: nat) -> Option<nat> {
    match group_at(groups, i) {
        Some(text) => parse_unsigned(text, max),
        None => Some(0),
    }
}

fn read_u16(caps: &LineCaptures, i: usize) -> (value: Option<u16>)
    ensures
        match value {
            Some(v) => number_field(caps@, i as int, u16::MAX as nat) == Some(v as nat),
            None => number_field(caps@, i as int, u16::MAX as nat) is None,
        },
{
    match caps.get(i) {
        Some(text) => parse_u16(text),
        None => Some(0),
    }
}

fn read_u64(caps: &LineCaptures, i: usize) -> (value: Option<u64>)
    ensures
        match value {
            Some(v) => number_field(caps@, i as int, u64::MAX as nat) == Some(v as nat),
            None => number_field(caps@, i as int, u64::MAX as nat) is None,
        },
{
    match caps.get(i) {
        Some(text) => parse_u64(text),
        None => Some(0),
    }
}

/// The class that a character was last seen to have.
pub struct ClassState {
    pub class: CharacterClass,
    pub ascendency: Option<ClassAscendency>,
    pub username: Seq<char>,
    pub level: u16,
}

/// What a level-up line says: who reached which level, as what.
#[derive(Debug, Clone, PartialEq, Eq)]
pub struct ClassInfo {
    pub class: CharacterClass,
    pub ascendency: Option<ClassAscendency>,
    pub username: String,
    pub level: u16,
}

impl View for ClassInfo {
    type V = ClassState;

    open spec fn view(&self) -> ClassState {
        ClassState {
            class: self.class,
            ascendency: self.ascendency,
            username: self.username@,
            level: self.level,
        }
    }
}

/// The class state that the captures of a level-up line stand for: group 1 is
/// the username, group 2 the name of an ascendancy or of a base class, group 3
/// the level. The level is checked first.
pub open spec fn class_state_of(groups: Seq<Option<Seq<char>>>) -> Result<ClassState, LineError> {
    match number_field(groups, 3, u16::MAX as nat) {
        None => Err(LineError::BadNumber),
        Some(level) => match resolved(group_text(groups, 2)) {
            None => Err(LineError::UnknownClass),
            Some((class, ascendency)) => Ok(
                ClassState { class, ascendency, username: group_text(groups, 1), level: level as u16 },
            ),
        },
    }
}

impl ClassInfo {
    /// Reads the fields of a level-up line from what its pattern captured.
    pub fn parse(caps: &LineCaptures) -> (parsed: Result<ClassInfo, LineError>)
        ensures
            match parsed {
                Ok(info) => class_state_of(caps@) == Ok::<ClassState, LineError>(info@),
                Err(e) => class_state_of(caps@) == Err::<ClassState, LineError>(e),
            },
    {
        let level = match read_u16(caps, 3) {
            Some(level) => level,
            None => {
                return Err(LineError::BadNumber);
            },
        };
        match resolve_class_name(caps.text(2)) {
            Some((class, ascendency)) => Ok(
                ClassInfo { class, ascendency, username: caps.text(1).to_owned(), level },
            ),
            None => Err(LineError::UnknownClass),
        }
    }

    /// Reads a level-up line for the monitored character: nothing comes back
    /// for a user on the blacklist, nor for a line whose fields cannot be
    /// read.
    pub fn parse_from_capture(caps: &LineCaptures, user_blacklist: &[String]) -> (parsed: Option<
        ClassInfo,
    >)
        ensures
            match parsed {
                Some(info) => !texts_of(user_blacklist@).contains(group_text(caps@, 1))
                    && class_state_of(caps@) == Ok::<ClassState, LineError>(info@),
                None => texts_of(user_blacklist@).contains(group_text(caps@, 1))
                    || class_state_of(caps@) is Err,
            },
    {
        if contains_text(user_blacklist, caps.text(1)) {
            return None;
        }
        match ClassInfo::parse(caps) {
            Ok(info) => Some(info),
            Err(_) => None,
        }
    }

    /// A copy of this value.
    pub fn duplicate(&self) -> (copy: ClassInfo)
        ensures
            copy@ == self@,
    {
        ClassInfo {
            class: self.class,
            ascendency: self.ascendency,
            username: self.username.clone(),
            level: self.level,
        }
    }
}

/// What an area-generation line says, with the area's name as it is shown.
pub struct AreaEntered {
    pub level: u16,
    pub name: Seq<char>,
    pub seed: u64,
}

/// What an area-generation line says: the area's level, its name as it is
/// shown, and its seed.
#[derive(Debug, Clone, PartialEq, Eq)]
pub struct AreaChange {
    pub level: u16,
    pub name: String,
    pub seed: u64,
}

impl View for AreaChange {
    type V = AreaEntered;

    open spec fn view(&self) -> AreaEntered {
        AreaEntered { level: self.level, name: self.name@, seed: self.seed }
    }
}

/// The area that the captures of an area-generation line stand for under a
/// translation table: group 1 is the level, group 2 the raw area key, group 3
/// the seed. The name is the key's display name, or the key itself where the
/// table has none.
pub open spec fn area_entered_of(
    groups: Seq<Option<Seq<char>>>,
    table: Map<Seq<char>, Seq<char>>,
) -> Result<AreaEntered, LineError> {
    match number_field(groups, 1, u16::MAX as nat) {
        None => Err(LineError::BadNumber),
        Some(level) => match number_field(groups, 3, u64::MAX as nat) {
            None => Err(LineError::BadNumber),
            Some(seed) => Ok(
                AreaEntered {
                    level: level as u16,
                    name: resolved_name_of(table, group_text(groups, 2)),
                    seed: seed as u64,
                },
            ),
        },
    }
}

impl AreaChange {
    /// Reads the fields of an area-generation line from what its pattern
    /// captured, and resolves the area's name.
    pub fn parse(caps: &LineCaptures, translations: &Translations) -> (parsed: Result<
        AreaChange,
        LineError,
    >)
        ensures
            match parsed {
                Ok(area) => area_entered_of(caps@, translations@) == Ok::<AreaEntered, LineError>(
                    area@,
                ),
                Err(e) => area_entered_of(caps@, translations@) == Err::<AreaEntered, LineError>(e),
            },
    {
        let level = match read_u16(caps, 1) {
            Some(level) => level,
            None => {
                return Err(LineError::BadNumber);
            },
        };
        let seed = match read_u64(caps, 3) {
            Some(seed) => seed,
            None => {
                return Err(LineError::BadNumber);
            },
        };
        Ok(AreaChange { level, name: translations.resolve_area_name(caps.text(2)), seed })
    }
}

/// The area that the character was last seen to enter, and when.
pub struct AreaState {
    pub level: u16,
    pub name: Seq<char>,
    pub seed: u64,
    pub entered_at: i64,
}

/// An area-generation line together with the time at which it was observed.
#[derive(Debug, Clone, PartialEq, Eq)]
pub struct MapChangeInfo {
    pub level: u16,
    pub name: String,
    pub seed: u64,
    pub ts: i64,
}

impl View for MapChangeInfo {
    type V = AreaState;

    open spec fn view(&self) -> AreaState {
        AreaState { level: self.level, name: self.name@, seed: self.seed, entered_at: self.ts }
    }
}

/// An area entered, as observed at the time `at`.
pub open spec fn observed_at(area: AreaEntered, at: i64) -> AreaState {
    AreaState { level: area.level, name: area.name, seed: area.seed, entered_at: at }
}

/// The area state that the captures of an area-generation line stand for when
/// the line is observed at the time `at`.
pub open spec fn area_state_of(
    groups: Seq<Option<Seq<char>>>,
    table: Map<Seq<char>, Seq<char>>,
    at: i64,
) -> Result<AreaState, LineError> {
    match area_entered_of(groups, table) {
        Ok(area) => Ok(observed_at(area, at)),
        Err(e) => Err(e),
    }
}

impl MapChangeInfo {
    /// The state of an area that was seen to be entered at the time `at`.
    pub fn observed(area: AreaChange, at: i64) -> (state: MapChangeInfo)
        ensures
            state@ == observed_at(area@, at),
    {
        MapChangeInfo { level: area.level, name: area.name, seed: area.seed, ts: at }
    }

    /// Reads an area-generation line that was observed at the time `at`.
    pub fn parse_at(caps: &LineCaptures, translations: &Translations, at: i64) -> (parsed: Result<
        MapChangeInfo,
        LineError,
    >)
        ensures
            match parsed {
                Ok(state) => area_state_of(caps@, translations@, at) == Ok::<AreaState, LineError>(
                    state@,
                ),
                Err(e) => area_state_of(caps@, translations@, at) == Err::<AreaState, LineError>(e),
            },
    {
        match AreaChange::parse(caps, translations) {
            Ok(area) => Ok(MapChangeInfo::observed(area, at)),
            Err(e) => Err(e),
        }
    }

    /// Reads an area-generation line that is observed now: the time of entry
    /// is whatever the wall clock says. Nothing comes back for a line whose
    /// numbers cannot be read.
    pub fn parse_from_captures(caps: &LineCaptures, translations: &Translations) -> (parsed: Option<
        MapChangeInfo,
    >)
        ensures
            match parsed {
                Some(state) => area_state_of(caps@, translations@, state.ts) == Ok::<
                    AreaState,
                    LineError,
                >(state@),
                None => area_entered_of(caps@, translations@) is Err,
            },
    {
        match MapChangeInfo::parse_at(caps, translations, unix_now()) {
            Ok(state) => Some(state),
            Err(_) => None,
        }
    }

    /// A copy of this value.
    pub fn duplicate(&self) -> (copy: MapChangeInfo)
        ensures
            copy@ == self@,
    {
        MapChangeInfo { level: self.level, name: self.name.clone(), seed: self.seed, ts: self.ts }
    }
}

} // verus!
