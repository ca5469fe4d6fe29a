//! The status coalescer: at most one pending class state and one pending area
//! state, merged on demand into one payload for the status sink.

use crate::event::{AreaState, ClassInfo, ClassState, MapChangeInfo};
use crate::text::{decimal_digits, u64_to_decimal};
use vstd::prelude::*;
use vstd::string::StringExecFns;

verus! {

/// What the status sink is asked to show.
pub struct StatusView {
    pub details: Option<Seq<char>>,
    pub large_image: Option<Seq<char>>,
    pub large_text: Option<Seq<char>>,
    pub small_image: Option<Seq<char>>,
    pub small_text: Option<Seq<char>>,
    pub state: Option<Seq<char>>,
    pub start: Option<i64>,
}

/// What the status sink is asked to show: one combined payload for the class
/// and the area.
#[derive(Debug, Clone, PartialEq, Eq)]
pub struct StatusPayload {
    /// The primary line: the character's username.
    pub details: Option<String>,
    /// The key of the primary icon.
    pub large_image: Option<String>,
    /// The text beside the primary icon: a class or ascendancy and the level.
    pub large_text: Option<String>,
    /// The key of the secondary icon.
    pub small_image: Option<String>,
    /// The text beside the secondary icon: the base class.
    pub small_text: Option<String>,
    /// The status line: the area and its level.
    pub state: Option<String>,
    /// The time from which the sink counts the time spent in the area.
    pub start: Option<i64>,
}

/// The text that an optional string holds.
pub open spec fn text_view(text: Option<String>) -> Option<Seq<char>> {
    match text {
        Some(s) => Some(s@),
        None => None,
    }
}

impl View for StatusPayload {
    type V = StatusView;

    open spec fn view(&self) -> StatusView {
        StatusView {
            details: text_view(self.details),
            large_image: text_view(self.large_image),
            large_text: text_view(self.large_text),
            small_image: text_view(self.small_image),
            small_text: text_view(self.small_text),
            state: text_view(self.state),
            start: self.start,
        }
    }
}

/// The payload that shows nothing.
pub open spec fn blank_status() -> StatusView {
    StatusView {
        details: None,
        large_image: None,
        large_text: None,
        small_image: None,
        small_text: None,
        state: None,
        start: None,
    }
}

/// A name with a level behind it in round brackets.
pub open spec fn labelled(name: Seq<char>, level: u16) -> Seq<char> {
    name + " ("@ + decimal_digits(level as nat) + ")"@
}

/// A payload with its class fields set from a class state. With an
/// ascendancy, the ascendancy and the level stand beside the primary icon,
/// which is the ascendancy's, and the base class has the secondary icon.
/// Without one, the base class and the level stand beside the primary icon,
/// which is the base class's, and there is no secondary icon.
pub open spec fn with_class(status: StatusView, class: ClassState) -> StatusView {
    match class.ascendency {
        Some(ascendency) => StatusView {
            details: Some(class.username),
            large_image: Some(ascendency.icon_key()),
            large_text: Some(labelled(ascendency.display_text(), class.level)),
            small_image: Some(class.class.icon_key()),
            small_text: Some(class.class.display_text()),
            ..status
        },
        None => StatusView {
            details: Some(class.username),
            large_image: Some(class.class.icon_key()),
            large_text: Some(labelled(class.class.display_text(), class.level)),
            small_image: None,
            small_text: None,
            ..status
        },
    }
}

/// A payload with its area fields set from an area state.
pub open spec fn with_area(status: StatusView, area: AreaState) -> StatusView {
    StatusView {
        state: Some(labelled(area.name, area.level)),
        start: Some(area.entered_at),
        ..status
    }
}

/// A payload brought up to date with the pending states: the fields of a kind
/// that is pending are set from it, the others stay as they are.
pub open spec fn merged(
    status: StatusView,
    class: Option<ClassState>,
    area: Option<AreaState>,
) -> StatusView {
    let classed = match class {
        Some(c) => with_class(status, c),
        None => status,
    };
    match area {
        Some(a) => with_area(classed, a),
        None => classed,
    }
}

fn label(name: &str, level: u16) -> (text: String)
    ensures
        text@ == labelled(name@, level),
{
    let mut text = name.to_owned();
    text.append(" (");
    text.append(u64_to_decimal(level as u64).as_str());
    text.append(")");
    text
}

fn copy_text(text: &Option<String>) -> (copy: Option<String>)
    ensures
        text_view(copy) == text_view(*text),
{
    match text {
        Some(s) => Some(s.clone()),
        None => None,
    }
}

impl StatusPayload {
    /// The payload that shows nothing.
    pub fn blank() -> (status: StatusPayload)
        ensures
            status@ == blank_status(),
    {
        StatusPayload {
            details: None,
            large_image: None,
            large_text: None,
            small_image: None,
            small_text: None,
            state: None,
            start: None,
        }
    }

    /// A copy of this payload.
    pub fn duplicate(&self) -> (copy: StatusPayload)
        ensures
            copy@ == self@,
    {
        StatusPayload {
            details: copy_text(&self.details),
            large_image: copy_text(&self.large_image),
            large_text: copy_text(&self.large_text),
            small_image: copy_text(&self.small_image),
            small_text: copy_text(&self.small_text),
            state: copy_text(&self.state),
            start: self.start,
        }
    }

    /// Sets the class fields from a class state.
    pub fn set_class(&mut self, class: &ClassInfo)
        ensures
            final(self)@ == with_class(old(self)@, class@),
    {
        self.details = Some(class.username.clone());
        match class.ascendency {
            Some(ascendency) => {
                self.large_image = Some(ascendency.get_discord_image_name().to_owned());
                self.large_text = Some(label(ascendency.display_name(), class.level));
                self.small_image = Some(class.class.get_discord_image_name().to_owned());
                self.small_text = Some(class.class.to_string());
            },
            None => {
                self.large_image = Some(class.class.get_discord_image_name().to_owned());
                self.large_text = Some(label(class.class.display_name(), class.level));
                self.small_image = None;
                self.small_text = None;
            },
        }
    }

    /// Sets the area fields from an area state.
    pub fn set_area(&mut self, area: &MapChangeInfo)
        ensures
            final(self)@ == with_area(old(self)@, area@),
    {
        self.state = Some(label(area.name.as_str(), area.level));
        self.start = Some(area.ts);
    }
}

/// What a status coalescer holds.
pub struct CoalescerView {
    /// The class state that waits to be pushed.
    pub class: Option<ClassState>,
    /// The area state that waits to be pushed.
    pub area: Option<AreaState>,
    /// The payload as it was last assembled.
    pub shown: StatusView,
}

impl CoalescerView {
    /// Whether a state waits to be pushed.
    pub open spec fn has_pending(self) -> bool {
        self.class is Some || self.area is Some
    }

    /// The coalescer once its pending states have been taken, and the payload
    /// that was assembled from them: none where nothing was pending.
    pub open spec fn taken(self) -> (CoalescerView, Option<StatusView>) {
        if self.has_pending() {
            let payload = merged(self.shown, self.class, self.area);
            (CoalescerView { class: None, area: None, shown: payload }, Some(payload))
        } else {
            (self, None)
        }
    }

    /// The coalescer without its pending states.
    pub open spec fn discarded(self) -> CoalescerView {
        CoalescerView { class: None, area: None, shown: self.shown }
    }
}

/// Holds the latest class state and the latest area state until they are
/// pushed, and the payload as it was last assembled.
#[derive(Debug)]
pub struct StatusCoalescer {
    pub class: Option<ClassInfo>,
    pub area: Option<MapChangeInfo>,
    pub shown: StatusPayload,
}

impl View for StatusCoalescer {
    type V = CoalescerView;

    open spec fn view(&self) -> CoalescerView {
        CoalescerView {
            class: match self.class {
                Some(c) => Some(c@),
                None => None,
            },
            area: match self.area {
                Some(a) => Some(a@),
                None => None,
            },
            shown: self.shown@,
        }
    }
}

impl StatusCoalescer {
    /// A coalescer with nothing pending and nothing shown yet.
    pub fn new() -> (coalescer: StatusCoalescer)
        ensures
            coalescer@ == (CoalescerView { class: None, area: None, shown: blank_status() }),
    {
        StatusCoalescer { class: None, area: None, shown: StatusPayload::blank() }
    }

    /// Makes `class` the pending class state, in place of any other.
    pub fn observe_class(&mut self, class: ClassInfo)
        ensures
            final(self)@ == (CoalescerView { class: Some(class@), ..old(self)@ }),
    {
        self.class = Some(class);
    }

    /// Makes `area` the pending area state, in place of any other.
    pub fn observe_area(&mut self, area: MapChangeInfo)
        ensures
            final(self)@ == (CoalescerView { area: Some(area@), ..old(self)@ }),
    {
        self.area = Some(area);
    }

    /// Whether a state waits to be pushed.
    pub fn has_pending(&self) -> (pending: bool)
        ensures
            pending == self@.has_pending(),
    {
        self.class.is_some() || self.area.is_some()
    }

    /// Assembles the payload from the pending states and clears both: `None`,
    /// and no change, where nothing is pending.
    pub fn take_pending(&mut self) -> (payload: Option<StatusPayload>)
        ensures
            final(self)@ == old(self)@.taken().0,
            match payload {
                Some(p) => old(self)@.taken().1 == Some(p@),
                None => old(self)@.taken().1 is None,
            },
    {
        if !self.has_pending() {
            return None;
        }
        if let Some(class) = self.class.take() {
            self.shown.set_class(&class);
        }
        if let Some(area) = self.area.take() {
            self.shown.set_area(&area);
        }
        Some(self.shown.duplicate())
    }

    /// Drops the pending states. The payload as last assembled stays.
    pub fn discard(&mut self)
        ensures
            final(self)@ == old(self)@.discarded(),
    {
        self.class = None;
        self.area = None;
    }
}

} // verus!
