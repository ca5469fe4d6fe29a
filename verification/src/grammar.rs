//! The line classifier: three line grammars, tried in a fixed order.

use crate::capture::{group_text, LineCaptures};
use crate::event::{
    area_entered_of, class_state_of, AreaChange, AreaEntered, ClassInfo, ClassState, LineError,
};
use crate::pattern::{first_captures, regex_captures, regex_compiles, regex_source};
use crate::translations::Translations;
use regex::Regex;
use vstd::prelude::*;

verus! {

/// The grammar of a level-up line: a username, the name of a class or of an
/// ascendancy in brackets, which may hold spaces, and the level reached.
pub const LEVEL_UP_PATTERN: &'static str = r#": (\w+) \(([\w ]+)\) is now level (\d+)"#;

/// The grammar of an area-generation line: the area's level, its raw key in
/// quotes, and its seed.
pub const AREA_PATTERN: &'static str =
    r#"] Generating level (\d+) area "([^"]+)" with seed (\d+)"#;

/// The grammar of a line that says that a user joined the area.
pub const JOINED_PATTERN: &'static str = r#": (\w+) has joined the area."#;

/// An event that one log line stands for.
pub enum LineEventView {
    LevelUp(ClassState),
    AreaGenerated(AreaEntered),
    UserJoined(Seq<char>),
}

/// An event that one log line stands for.
#[derive(Debug, Clone, PartialEq, Eq)]
pub enum LineEvent {
    /// A character reached a level.
    LevelUp(ClassInfo),
    /// An area was generated for the monitored character to enter.
    AreaGenerated(AreaChange),
    /// The user of this name joined the area.
    UserJoined(String),
}

impl View for LineEvent {
    type V = LineEventView;

    open spec fn view(&self) -> LineEventView {
        match self {
            LineEvent::LevelUp(info) => LineEventView::LevelUp(info@),
            LineEvent::AreaGenerated(area) => LineEventView::AreaGenerated(area@),
            LineEvent::UserJoined(username) => LineEventView::UserJoined(username@),
        }
    }
}

/// What a classification came to: an event, no event, or a malformed line.
pub open spec fn outcome_view(outcome: Result<Option<LineEvent>, LineError>) -> Result<
    Option<LineEventView>,
    LineError,
> {
    match outcome {
        Ok(Some(event)) => Ok(Some(event@)),
        Ok(None) => Ok(None),
        Err(e) => Err(e),
    }
}

/// The event of a line, given what each of the three grammars captured in it.
/// The first grammar that matched decides, in the order level-up,
/// area-generation, user-joined: the line is that grammar's event, or
/// malformed where its fields cannot be read. A line that no grammar matched
/// is no event.
pub open spec fn event_of(
    level_up: Option<Seq<Option<Seq<char>>>>,
    area: Option<Seq<Option<Seq<char>>>>,
    joined: Option<Seq<Option<Seq<char>>>>,
    table: Map<Seq<char>, Seq<char>>,
) -> Result<Option<LineEventView>, LineError> {
    match level_up {
        Some(groups) => match class_state_of(groups) {
            Ok(state) => Ok(Some(LineEventView::LevelUp(state))),
            Err(e) => Err(e),
        },
        None => match area {
            Some(groups) => match area_entered_of(groups, table) {
                Ok(entered) => Ok(Some(LineEventView::AreaGenerated(entered))),
                Err(e) => Err(e),
            },
            None => match joined {
                Some(groups) => Ok(Some(LineEventView::UserJoined(group_text(groups, 1)))),
                None => Ok(None),
            },
        },
    }
}

/// The event of a line under a translation table: what `event_of` makes of
/// the captures of the three patterns in the line.
pub open spec fn classified(line: Seq<char>, table: Map<Seq<char>, Seq<char>>) -> Result<
    Option<LineEventView>,
    LineError,
> {
    event_of(
        regex_captures(LEVEL_UP_PATTERN@, line),
        regex_captures(AREA_PATTERN@, line),
        regex_captures(JOINED_PATTERN@, line),
        table,
    )
}

/// Whether the three patterns compile.
pub open spec fn patterns_compile() -> bool {
    &&& regex_compiles(LEVEL_UP_PATTERN@)
    &&& regex_compiles(AREA_PATTERN@)
    &&& regex_compiles(JOINED_PATTERN@)
}

/// Decides the event of a line from what the three grammars captured in it.
pub fn interpret(
    level_up: Option<LineCaptures>,
    area: Option<LineCaptures>,
    joined: Option<LineCaptures>,
    translations: &Translations,
) -> (outcome: Result<Option<LineEvent>, LineError>)
    ensures
        outcome_view(outcome) == event_of(
            match level_up {
                Some(c) => Some(c@),
                None => None,
            },
            match area {
                Some(c) => Some(c@),
                None => None,
            },
            match joined {
                Some(c) => Some(c@),
                None => None,
            },
            translations@,
        ),
{
    if let Some(caps) = level_up {
        return match ClassInfo::parse(&caps) {
            Ok(info) => Ok(Some(LineEvent::LevelUp(info))),
            Err(e) => Err(e),
        };
    }
    if let Some(caps) = area {
        return match AreaChange::parse(&caps, translations) {
            Ok(entered) => Ok(Some(LineEvent::AreaGenerated(entered))),
            Err(e) => Err(e),
        };
    }
    match joined {
        Some(caps) => Ok(Some(LineEvent::UserJoined(caps.text(1).to_owned()))),
        None => Ok(None),
    }
}

/// The three line grammars, compiled.
pub struct LineGrammar {
    level_up: Regex,
    area: Regex,
    joined: Regex,
}

impl LineGrammar {
    #[verifier::type_invariant]
    spec fn holds_the_patterns(self) -> bool {
        &&& regex_source(&self.level_up) == LEVEL_UP_PATTERN@
        &&& regex_source(&self.area) == AREA_PATTERN@
        &&& regex_source(&self.joined) == JOINED_PATTERN@
    }

    /// Compiles the three patterns. `None` where one of them does not
    /// compile.
    pub fn new() -> (grammar: Option<LineGrammar>)
        ensures
            grammar is Some <==> patterns_compile(),
    {
        let level_up = match Regex::new(LEVEL_UP_PATTERN) {
            Ok(re) => re,
            Err(_) => {
                return None;
            },
        };
        let area = match Regex::new(AREA_PATTERN) {
            Ok(re) => re,
            Err(_) => {
                return None;
            },
        };
        let joined = match Regex::new(JOINED_PATTERN) {
            Ok(re) => re,
            Err(_) => {
                return None;
            },
        };
        Some(LineGrammar { level_up, area, joined })
    }

    /// The pattern of the level-up grammar, as the compiled expression holds
    /// it.
    pub fn level_up_pattern(&self) -> (pattern: &str)
        ensures
            pattern@ == LEVEL_UP_PATTERN@,
    {
        proof {
            use_type_invariant(self);
        }
        self.level_up.as_str()
    }

    /// The pattern of the area-generation grammar, as the compiled expression
    /// holds it.
    pub fn area_pattern(&self) -> (pattern: &str)
        ensures
            pattern@ == AREA_PATTERN@,
    {
        proof {
            use_type_invariant(self);
        }
        self.area.as_str()
    }

    /// The pattern of the user-joined grammar, as the compiled expression
    /// holds it.
    pub fn joined_pattern(&self) -> (pattern: &str)
        ensures
            pattern@ == JOINED_PATTERN@,
    {
        proof {
            use_type_invariant(self);
        }
        self.joined.as_str()
    }

    /// What the level-up grammar captures in `line`, if it matches.
    pub fn find_level_up(&self, line: &str) -> (found: Option<LineCaptures>)
        ensures
            match found {
                Some(caps) => regex_captures(LEVEL_UP_PATTERN@, line@) == Some(caps@),
                None => regex_captures(LEVEL_UP_PATTERN@, line@) is None,
            },
    {
        proof {
            use_type_invariant(self);
        }
        match first_captures(&self.level_up, line) {
            Some(groups) => Some(LineCaptures::new(groups)),
            None => None,
        }
    }

    /// What the area-generation grammar captures in `line`, if it matches.
    pub fn find_area(&self, line: &str) -> (found: Option<LineCaptures>)
        ensures
            match found {
                Some(caps) => regex_captures(AREA_PATTERN@, line@) == Some(caps@),
                None => regex_captures(AREA_PATTERN@, line@) is None,
            },
    {
        proof {
            use_type_invariant(self);
        }
        match first_captures(&self.area, line) {
            Some(groups) => Some(LineCaptures::new(groups)),
            None => None,
        }
    }

    /// What the user-joined grammar captures in `line`, if it matches.
    pub fn find_joined(&self, line: &str) -> (found: Option<LineCaptures>)
        ensures
            match found {
                Some(caps) => regex_captures(JOINED_PATTERN@, line@) == Some(caps@),
                None => regex_captures(JOINED_PATTERN@, line@) is None,
            },
    {
        proof {
            use_type_invariant(self);
        }
        match first_captures(&self.joined, line) {
            Some(groups) => Some(LineCaptures::new(groups)),
            None => None,
        }
    }

    /// Classifies one line: the event it stands for, `None` where it stands
    /// for none, or the reason why it is malformed. The result depends on the
    /// line and on the translation table alone. A later grammar is searched
    /// for only where the earlier ones did not match.
    pub fn classify(&self, line: &str, translations: &Translations) -> (outcome: Result<
        Option<LineEvent>,
        LineError,
    >)
        ensures
            outcome_view(outcome) == classified(line@, translations@),
    {
        let level_up = self.find_level_up(line);
        if level_up.is_some() {
            return interpret(level_up, None, None, translations);
        }
        let area = self.find_area(line);
        if area.is_some() {
            return interpret(None, area, None, translations);
        }
        interpret(None, None, self.find_joined(line), translations)
    }
}

} // verus!
