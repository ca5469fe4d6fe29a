//! The tail loop as a state machine. The machine decides; the caller does the
//! outside work. In every state the machine waits for the outcome of one
//! command: the caller carries the command out, hands the outcome back as an
//! event, and gets the next command.

use crate::clock::unix_now;
use crate::grammar::{patterns_compile, LineGrammar};
use crate::status::{StatusPayload, StatusView};
use crate::text::lines_of;
use crate::tracker::{fresh_tracker, malformed_count, Tracker, TrackerView};
use crate::translations::Translations;
use vstd::prelude::*;

verus! {

/// The four states of the tail loop.
#[derive(Debug, Clone, Copy, PartialEq, Eq, Structural)]
pub enum Phase {
    /// The process is not detected.
    Idle,
    /// The process was just detected; the session's state is being seeded.
    SessionStart,
    /// The process is detected and the log's growth is monitored.
    Live,
    /// The process just stopped; the status is being cleared.
    SessionEnd,
}

/// How long to sleep.
#[derive(Debug, Clone, Copy, PartialEq, Eq, Structural)]
pub enum Pause {
    /// The debounce interval between two polls of the log.
    Short,
    /// The interval between two polls for the process while it is absent.
    Long,
}

impl Pause {
    /// The length of the pause in milliseconds.
    pub open spec fn length(self) -> u64 {
        match self {
            Pause::Short => 500,
            Pause::Long => 5000,
        }
    }

    /// The length of the pause in milliseconds.
    pub fn millis(&self) -> (ms: u64)
        ensures
            ms == self.length(),
    {
        match self {
            Pause::Short => 500,
            Pause::Long => 5000,
        }
    }
}

/// What the status sink answered.
#[derive(Debug, Clone, Copy, PartialEq, Eq, Structural)]
pub enum SinkReply {
    /// The call succeeded.
    Accepted,
    /// The call failed because the connection is broken.
    Broken,
    /// The call failed for any other reason.
    Failed,
}

/// The outcome of a command.
pub enum EventView {
    Liveness(bool),
    Text(Seq<char>),
    Sink(SinkReply),
    Done,
}

/// The outcome of a command, as the caller hands it to the machine.
#[derive(Debug, Clone, PartialEq, Eq)]
pub enum Event {
    /// The liveness oracle's answer: whether the process is running.
    Liveness(bool),
    /// What was read from the log; empty where there was nothing new, or
    /// where the log could not be read this time.
    Text(String),
    /// The status sink's answer to a push or to a reconnect.
    Sink(SinkReply),
    /// The command was carried out; it has no other outcome.
    Done,
}

impl View for Event {
    type V = EventView;

    open spec fn view(&self) -> EventView {
        match self {
            Event::Liveness(running) => EventView::Liveness(*running),
            Event::Text(text) => EventView::Text(text@),
            Event::Sink(reply) => EventView::Sink(*reply),
            Event::Done => EventView::Done,
        }
    }
}

/// What the caller is to do next.
pub enum CommandView {
    CheckLiveness,
    Connect,
    ReadHistory,
    ReadAppended,
    SetStatus(StatusView),
    Reconnect,
    ClearStatus,
    Disconnect,
    Sleep(Pause),
}

/// What the caller is to do next. Behind each command stands the event that
/// answers it.
#[derive(Debug, Clone, PartialEq, Eq)]
pub enum Command {
    /// Ask the liveness oracle. Answer: `Event::Liveness`.
    CheckLiveness,
    /// Connect the status sink. Answer: `Event::Done`.
    Connect,
    /// Read the log from the read cursor to its end and leave the cursor
    /// there. The cursor starts at the beginning of the log, so the first
    /// session replays all of it and a later one what was written since the
    /// last read. Answer: `Event::Text`.
    ReadHistory,
    /// Read what was appended to the log since the last read. Answer:
    /// `Event::Text`.
    ReadAppended,
    /// Push this payload to the status sink. Answer: `Event::Sink`.
    SetStatus(StatusPayload),
    /// Reconnect the status sink. Answer: `Event::Sink`.
    Reconnect,
    /// Clear the status that the sink shows. Answer: `Event::Done`.
    ClearStatus,
    /// Disconnect the status sink. Answer: `Event::Done`.
    Disconnect,
    /// Sleep. Answer: `Event::Done`.
    Sleep(Pause),
}

impl View for Command {
    type V = CommandView;

    open spec fn view(&self) -> CommandView {
        match self {
            Command::CheckLiveness => CommandView::CheckLiveness,
            Command::Connect => CommandView::Connect,
            Command::ReadHistory => CommandView::ReadHistory,
            Command::ReadAppended => CommandView::ReadAppended,
            Command::SetStatus(payload) => CommandView::SetStatus(payload@),
            Command::Reconnect => CommandView::Reconnect,
            Command::ClearStatus => CommandView::ClearStatus,
            Command::Disconnect => CommandView::Disconnect,
            Command::Sleep(pause) => CommandView::Sleep(*pause),
        }
    }
}

/// Where the machine stands: the command whose outcome it waits for.
pub enum StepView {
    AwaitProcess,
    IdlePause,
    Connecting,
    Seeding,
    CheckAlive,
    Reading,
    Pushing(StatusView),
    Reconnecting(StatusView),
    Retrying(StatusView),
    LivePause,
    Clearing,
    Disconnecting,
}

/// Where the machine stands: the command whose outcome it waits for.
#[derive(Debug, Clone, PartialEq, Eq)]
pub enum Step {
    /// Idle, asking whether the process runs.
    AwaitProcess,
    /// Idle, sleeping before it asks again.
    IdlePause,
    /// Session start, connecting the status sink.
    Connecting,
    /// Session start, reading the log's history.
    Seeding,
    /// Live, asking whether the process still runs.
    CheckAlive,
    /// Live, reading what was appended to the log.
    Reading,
    /// Live, pushing this payload for the first time.
    Pushing(StatusPayload),
    /// Live, reconnecting after the push of this payload met a broken
    /// connection.
    Reconnecting(StatusPayload),
    /// Live, pushing this payload once more after the reconnect.
    Retrying(StatusPayload),
    /// Live, sleeping before the next poll.
    LivePause,
    /// Session end, clearing the status shown.
    Clearing,
    /// Session end, disconnecting the status sink.
    Disconnecting,
}

impl View for Step {
    type V = StepView;

    open spec fn view(&self) -> StepView {
        match self {
            Step::AwaitProcess => StepView::AwaitProcess,
            Step::IdlePause => StepView::IdlePause,
            Step::Connecting => StepView::Connecting,
            Step::Seeding => StepView::Seeding,
            Step::CheckAlive => StepView::CheckAlive,
            Step::Reading => StepView::Reading,
            Step::Pushing(payload) => StepView::Pushing(payload@),
            Step::Reconnecting(payload) => StepView::Reconnecting(payload@),
            Step::Retrying(payload) => StepView::Retrying(payload@),
            Step::LivePause => StepView::LivePause,
            Step::Clearing => StepView::Clearing,
            Step::Disconnecting => StepView::Disconnecting,
        }
    }
}

impl StepView {
    /// The state of the tail loop that the step belongs to.
    pub open spec fn phase(self) -> Phase {
        match self {
            StepView::AwaitProcess | StepView::IdlePause => Phase::Idle,
            StepView::Connecting | StepView::Seeding => Phase::SessionStart,
            StepView::CheckAlive
            | StepView::Reading
            | StepView::Pushing(_)
            | StepView::Reconnecting(_)
            | StepView::Retrying(_)
            | StepView::LivePause => Phase::Live,
            StepView::Clearing | StepView::Disconnecting => Phase::SessionEnd,
        }
    }

    /// The command whose outcome the step waits for.
    pub open spec fn command(self) -> CommandView {
        match self {
            StepView::AwaitProcess | StepView::CheckAlive => CommandView::CheckLiveness,
            StepView::IdlePause => CommandView::Sleep(Pause::Long),
            StepView::Connecting => CommandView::Connect,
            StepView::Seeding => CommandView::ReadHistory,
            StepView::Reading => CommandView::ReadAppended,
            StepView::Pushing(payload) | StepView::Retrying(payload) => CommandView::SetStatus(
                payload,
            ),
            StepView::Reconnecting(_) => CommandView::Reconnect,
            StepView::LivePause => CommandView::Sleep(Pause::Short),
            StepView::Clearing => CommandView::ClearStatus,
            StepView::Disconnecting => CommandView::Disconnect,
        }
    }
}

impl Step {
    /// The state of the tail loop that the step belongs to.
    pub fn phase(&self) -> (phase: Phase)
        ensures
            phase == self@.phase(),
    {
        match self {
            Step::AwaitProcess | Step::IdlePause => Phase::Idle,
            Step::Connecting | Step::Seeding => Phase::SessionStart,
            Step::CheckAlive
            | Step::Reading
            | Step::Pushing(_)
            | Step::Reconnecting(_)
            | Step::Retrying(_)
            | Step::LivePause => Phase::Live,
            Step::Clearing | Step::Disconnecting => Phase::SessionEnd,
        }
    }

    /// The command whose outcome the step waits for.
    pub fn command(&self) -> (command: Command)
        ensures
            command@ == self@.command(),
    {
        match self {
            Step::AwaitProcess | Step::CheckAlive => Command::CheckLiveness,
            Step::IdlePause => Command::Sleep(Pause::Long),
            Step::Connecting => Command::Connect,
            Step::Seeding => Command::ReadHistory,
            Step::Reading => Command::ReadAppended,
            Step::Pushing(payload) => Command::SetStatus(payload.duplicate()),
            Step::Retrying(payload) => Command::SetStatus(payload.duplicate()),
            Step::Reconnecting(_) => Command::Reconnect,
            Step::LivePause => Command::Sleep(Pause::Short),
            Step::Clearing => Command::ClearStatus,
            Step::Disconnecting => Command::Disconnect,
        }
    }
}

/// The state of the machine.
pub struct MonitorView {
    /// Where the machine stands.
    pub step: StepView,
    /// What the session knows.
    pub tracker: TrackerView,
    /// The number of malformed lines in the text that was handled last.
    pub dropped: nat,
}

impl MonitorView {
    /// This state at another step, with no line dropped.
    pub open spec fn at(self, step: StepView) -> MonitorView {
        MonitorView { step, tracker: self.tracker, dropped: 0 }
    }

    /// The state after a poll of the log gave `text` at the time `now`. New
    /// text is classified line by line and nothing is pushed. With no new
    /// text, what is pending is assembled, cleared and pushed; with nothing
    /// pending either, nothing happens. The machine sleeps before the next
    /// poll in every case but that of a push.
    pub open spec fn polled(self, text: Seq<char>, table: Map<Seq<char>, Seq<char>>, now: i64) -> MonitorView {
        if text.len() > 0 {
            MonitorView {
                step: StepView::LivePause,
                tracker: self.tracker.ingested(lines_of(text), table, now),
                dropped: malformed_count(lines_of(text), table),
            }
        } else {
            match self.tracker.status.taken().1 {
                Some(payload) => MonitorView {
                    step: StepView::Pushing(payload),
                    tracker: TrackerView { status: self.tracker.status.taken().0, ..self.tracker },
                    dropped: 0,
                },
                None => self.at(StepView::LivePause),
            }
        }
    }

    /// The state after the outcome `event` of the command that the machine
    /// waited for, under a translation table and at the time `now`. An event
    /// that does not answer that command changes nothing.
    pub open spec fn stepped(
        self,
        event: EventView,
        table: Map<Seq<char>, Seq<char>>,
        now: i64,
    ) -> MonitorView {
        match (self.step, event) {
            (StepView::AwaitProcess, EventView::Liveness(running)) => if running {
                self.at(StepView::Connecting)
            } else {
                self.at(StepView::IdlePause)
            },
            (StepView::IdlePause, EventView::Done) => self.at(StepView::AwaitProcess),
            (StepView::Connecting, EventView::Done) => self.at(StepView::Seeding),
            (StepView::Seeding, EventView::Text(history)) => MonitorView {
                step: StepView::CheckAlive,
                tracker: self.tracker.seeded(lines_of(history), table),
                dropped: malformed_count(lines_of(history), table),
            },
            (StepView::CheckAlive, EventView::Liveness(running)) => if running {
                self.at(StepView::Reading)
            } else {
                self.at(StepView::Clearing)
            },
            (StepView::Reading, EventView::Text(text)) => self.polled(text, table, now),
            (StepView::Pushing(payload), EventView::Sink(reply)) => match reply {
                SinkReply::Broken => self.at(StepView::Reconnecting(payload)),
                _ => self.at(StepView::LivePause),
            },
            (StepView::Reconnecting(payload), EventView::Sink(reply)) => match reply {
                SinkReply::Accepted => self.at(StepView::Retrying(payload)),
                _ => self.at(StepView::LivePause),
            },
            (StepView::Retrying(_), EventView::Sink(_)) => self.at(StepView::LivePause),
            (StepView::LivePause, EventView::Done) => self.at(StepView::CheckAlive),
            (StepView::Clearing, EventView::Done) => self.at(StepView::Disconnecting),
            (StepView::Disconnecting, EventView::Done) => MonitorView {
                step: StepView::IdlePause,
                tracker: self.tracker.ended(),
                dropped: 0,
            },
            _ => self,
        }
    }
}

/// The state in which a monitor starts: idle, asking for the process, with
/// nothing known.
pub open spec fn initial_monitor() -> MonitorView {
    MonitorView { step: StepView::AwaitProcess, tracker: fresh_tracker(), dropped: 0 }
}

/// The tail loop's state machine, with the line grammars and the translation
/// table that it classifies lines with.
pub struct Monitor {
    pub step: Step,
    pub tracker: Tracker,
    pub dropped: usize,
    pub grammar: LineGrammar,
    pub translations: Translations,
}

impl View for Monitor {
    type V = MonitorView;

    open spec fn view(&self) -> MonitorView {
        MonitorView { step: self.step@, tracker: self.tracker@, dropped: self.dropped as nat }
    }
}

impl Monitor {
    /// The translation table that the monitor resolves area names with.
    pub open spec fn table(&self) -> Map<Seq<char>, Seq<char>> {
        self.translations@
    }

    /// A monitor in its initial state, with the given grammars and table.
    pub fn with_grammar(grammar: LineGrammar, translations: Translations) -> (monitor: Monitor)
        ensures
            monitor@ == initial_monitor(),
            monitor.table() == translations@,
    {
        Monitor {
            step: Step::AwaitProcess,
            tracker: Tracker::new(),
            dropped: 0,
            grammar,
            translations,
        }
    }

    /// A monitor in its initial state. `None` where a line grammar does not
    /// compile.
    pub fn new(translations: Translations) -> (monitor: Option<Monitor>)
        ensures
            monitor is Some <==> patterns_compile(),
            monitor matches Some(m) ==> m@ == initial_monitor() && m.table() == translations@,
    {
        match LineGrammar::new() {
            Some(grammar) => Some(Monitor::with_grammar(grammar, translations)),
            None => None,
        }
    }

    /// The state of the tail loop that the monitor is in.
    pub fn phase(&self) -> (phase: Phase)
        ensures
            phase == self@.step.phase(),
    {
        self.step.phase()
    }

    /// The command whose outcome the monitor waits for.
    pub fn command(&self) -> (command: Command)
        ensures
            command@ == self@.step.command(),
    {
        self.step.command()
    }

    /// Takes what a poll of the log gave at the time `now`, whatever the
    /// monitor waited for.
    fn poll(&mut self, text: String, now: i64)
        ensures
            final(self)@ == old(self)@.polled(text@, old(self).table(), now),
            final(self).table() == old(self).table(),
    {
        if !text.as_str().is_empty() {
            let dropped = self.tracker.ingest(&self.grammar, &self.translations, text.as_str(), now);
            self.dropped = dropped;
            self.step = Step::LivePause;
        } else {
            self.dropped = 0;
            match self.tracker.status.take_pending() {
                Some(payload) => {
                    self.step = Step::Pushing(payload);
                },
                None => {
                    self.step = Step::LivePause;
                },
            }
        }
    }

    /// Takes the outcome `event` of the command that the monitor waited for,
    /// at the time `now`, and returns the next command.
    pub fn advance_at(&mut self, event: Event, now: i64) -> (command: Command)
        ensures
            final(self)@ == old(self)@.stepped(event@, old(self).table(), now),
            final(self).table() == old(self).table(),
            command@ == final(self)@.step.command(),
    {
        let mut step = Step::AwaitProcess;
        core::mem::swap(&mut step, &mut self.step);
        match (step, event) {
            (Step::AwaitProcess, Event::Liveness(running)) => {
                self.step = if running {
                    Step::Connecting
                } else {
                    Step::IdlePause
                };
                self.dropped = 0;
            },
            (Step::IdlePause, Event::Done) => {
                self.step = Step::AwaitProcess;
                self.dropped = 0;
            },
            (Step::Connecting, Event::Done) => {
                self.step = Step::Seeding;
                self.dropped = 0;
            },
            (Step::Seeding, Event::Text(history)) => {
                let dropped = self.tracker.seed(&self.grammar, &self.translations, history.as_str());
                self.dropped = dropped;
                self.step = Step::CheckAlive;
            },
            (Step::CheckAlive, Event::Liveness(running)) => {
                self.step = if running {
                    Step::Reading
                } else {
                    Step::Clearing
                };
                self.dropped = 0;
            },
            (Step::Reading, Event::Text(text)) => {
                self.poll(text, now);
            },
            (Step::Pushing(payload), Event::Sink(reply)) => {
                self.step = match reply {
                    SinkReply::Broken => Step::Reconnecting(payload),
                    _ => Step::LivePause,
                };
                self.dropped = 0;
            },
            (Step::Reconnecting(payload), Event::Sink(reply)) => {
                self.step = match reply {
                    SinkReply::Accepted => Step::Retrying(payload),
                    _ => Step::LivePause,
                };
                self.dropped = 0;
            },
            (Step::Retrying(_), Event::Sink(_)) => {
                self.step = Step::LivePause;
                self.dropped = 0;
            },
            (Step::LivePause, Event::Done) => {
                self.step = Step::CheckAlive;
                self.dropped = 0;
            },
            (Step::Clearing, Event::Done) => {
                self.step = Step::Disconnecting;
                self.dropped = 0;
            },
            (Step::Disconnecting, Event::Done) => {
                self.tracker.end_session();
                self.step = Step::IdlePause;
                self.dropped = 0;
            },
            (step, _) => {
                self.step = step;
            },
        }
        self.command()
    }

    /// Takes the outcome `event` of the command that the monitor waited for,
    /// now, and returns the next command: `advance_at` with the time that the
    /// wall clock shows.
    pub fn advance(&mut self, event: Event) -> (command: Command)
        ensures
            exists|now: i64|
                final(self)@ == #[trigger] old(self)@.stepped(event@, old(self).table(), now),
            final(self).table() == old(self).table(),
            command@ == final(self)@.step.command(),
    {
        let now = unix_now();
        self.advance_at(event, now)
    }
}

} // verus!
