//! What holds of the library as a whole, proved from the definitions that the
//! contracts are stated over.

use crate::event::{observed_at, AreaEntered, ClassState};
use crate::grammar::{event_of, LineEventView};
use crate::monitor::{CommandView, EventView, MonitorView, Phase, SinkReply, StepView};
use crate::status::{merged, CoalescerView};
use crate::tracker::{joined_in, level_ups_in, TrackerView};
use vstd::prelude::*;

verus! {

/// The grammars are tried in the order level-up, area-generation,
/// user-joined, and the first that matches decides alone: what the later
/// ones captured is of no account, and a later one decides only where all
/// before it matched nothing. A line that matched a grammar is that
/// grammar's event or malformed, never the event of another.
pub proof fn lemma_grammar_priority(
    level_up: Option<Seq<Option<Seq<char>>>>,
    area: Option<Seq<Option<Seq<char>>>>,
    joined: Option<Seq<Option<Seq<char>>>>,
    table: Map<Seq<char>, Seq<char>>,
)
    ensures
        level_up is Some ==> {
            &&& event_of(level_up, area, joined, table) == event_of(level_up, None, None, table)
            &&& event_of(level_up, area, joined, table) matches Ok(found) ==> found matches Some(
                LineEventView::LevelUp(_),
            )
        },
        level_up is None && area is Some ==> {
            &&& event_of(level_up, area, joined, table) == event_of(None, area, None, table)
            &&& event_of(level_up, area, joined, table) matches Ok(found) ==> found matches Some(
                LineEventView::AreaGenerated(_),
            )
        },
        level_up is None && area is None && joined is Some ==> event_of(
            level_up,
            area,
            joined,
            table,
        ) matches Ok(Some(LineEventView::UserJoined(_))),
        level_up is None && area is None && joined is None ==> event_of(
            level_up,
            area,
            joined,
            table,
        ) == Ok::<Option<LineEventView>, crate::event::LineError>(None),
{
}

/// Once a user has joined the area, a level-up of that user changes nothing.
pub proof fn lemma_joined_user_is_suppressed(
    tracker: TrackerView,
    class: ClassState,
    joined_at: i64,
    now: i64,
)
    ensures
        ({
            let joined = tracker.after_event(LineEventView::UserJoined(class.username), joined_at);
            joined.after_event(LineEventView::LevelUp(class), now) == joined
        }),
{
}

/// The level-up of a user who is not in the filter becomes the pending class
/// state, whatever was pending before.
pub proof fn lemma_unfiltered_user_levels_up(tracker: TrackerView, class: ClassState, now: i64)
    requires
        !tracker.filter.contains(class.username),
    ensures
        tracker.after_event(LineEventView::LevelUp(class), now).status.class == Some(class),
{
}

/// No line takes a name out of the filter, and no line attributes a level-up
/// to a name that is in it: after any lines, a filtered user is still
/// filtered, and a pending class state of that user can only be the one that
/// was pending before.
pub proof fn lemma_filter_holds_for_the_session(
    tracker: TrackerView,
    username: Seq<char>,
    lines: Seq<Seq<char>>,
    table: Map<Seq<char>, Seq<char>>,
    now: i64,
)
    requires
        tracker.filter.contains(username),
    ensures
        tracker.ingested(lines, table, now).filter.contains(username),
        tracker.ingested(lines, table, now).status.class matches Some(class) ==> (class.username
            == username ==> tracker.status.class == Some(class)),
    decreases lines.len(),
{
    if lines.len() > 0 {
        lemma_filter_holds_for_the_session(tracker, username, lines.drop_last(), table, now);
    }
}

/// Level-ups change nothing but the pending class state, and they leave the
/// pending class state of a filtered user as it is.
pub proof fn lemma_level_ups_respect_the_filter(
    tracker: TrackerView,
    level_ups: Seq<ClassState>,
    username: Seq<char>,
)
    ensures
        tracker.after_level_ups(level_ups).filter == tracker.filter,
        tracker.after_level_ups(level_ups).status.area == tracker.status.area,
        tracker.after_level_ups(level_ups).status.shown == tracker.status.shown,
        tracker.filter.contains(username) ==> (tracker.after_level_ups(level_ups).status.class matches Some(
            class,
        ) ==> (class.username == username ==> tracker.status.class == Some(class))),
    decreases level_ups.len(),
{
    if level_ups.len() > 0 {
        lemma_level_ups_respect_the_filter(tracker, level_ups.drop_last(), username);
    }
}

/// A user who joined the area anywhere in the history, before or after a
/// level-up of theirs, is in the filter once the history is replayed, and so
/// is every user who was filtered before. No level-up of the history is
/// attributed to such a user: a pending class state of theirs can only be
/// the one that was pending before the replay.
pub proof fn lemma_seed_suppresses_joined_users(
    tracker: TrackerView,
    username: Seq<char>,
    lines: Seq<Seq<char>>,
    table: Map<Seq<char>, Seq<char>>,
)
    requires
        tracker.filter.contains(username) || joined_in(lines, table).contains(username),
    ensures
        tracker.seeded(lines, table).filter == tracker.filter.union(joined_in(lines, table)),
        tracker.seeded(lines, table).filter.contains(username),
        tracker.seeded(lines, table).status.class matches Some(class) ==> (class.username
            == username ==> tracker.status.class == Some(class)),
{
    let filtered = TrackerView { filter: tracker.filter.union(joined_in(lines, table)), ..tracker };
    lemma_level_ups_respect_the_filter(filtered, level_ups_in(lines, table), username);
}

/// Lines change neither the payload as last assembled nor, in the history,
/// the pending area state.
pub proof fn lemma_lines_leave_the_payload(
    tracker: TrackerView,
    lines: Seq<Seq<char>>,
    table: Map<Seq<char>, Seq<char>>,
    now: i64,
)
    ensures
        tracker.ingested(lines, table, now).status.shown == tracker.status.shown,
        tracker.seeded(lines, table).status.shown == tracker.status.shown,
        tracker.seeded(lines, table).status.area == tracker.status.area,
    decreases lines.len(),
{
    if lines.len() > 0 {
        lemma_lines_leave_the_payload(tracker, lines.drop_last(), table, now);
    }
    let filtered = TrackerView { filter: tracker.filter.union(joined_in(lines, table)), ..tracker };
    lemma_level_ups_respect_the_filter(filtered, level_ups_in(lines, table), Seq::empty());
}

/// Of two areas generated one after the other, only the second is pending:
/// the tracker is as if the first had never been seen.
pub proof fn lemma_latest_area_wins(
    tracker: TrackerView,
    first: AreaEntered,
    first_at: i64,
    second: AreaEntered,
    second_at: i64,
)
    ensures
        ({
            let after = tracker.after_event(LineEventView::AreaGenerated(first), first_at).after_event(
                LineEventView::AreaGenerated(second),
                second_at,
            );
            &&& after.status.area == Some(observed_at(second, second_at))
            &&& after == tracker.after_event(LineEventView::AreaGenerated(second), second_at)
        }),
{
}

/// Of two level-ups of users who are not filtered, only the second is
/// pending.
pub proof fn lemma_latest_class_wins(
    tracker: TrackerView,
    first: ClassState,
    second: ClassState,
    now: i64,
)
    requires
        !tracker.filter.contains(second.username),
    ensures
        tracker.after_event(LineEventView::LevelUp(first), now).after_event(
            LineEventView::LevelUp(second),
            now,
        ) == tracker.after_event(LineEventView::LevelUp(second), now),
{
}

/// Taking what is pending leaves nothing pending, so that taking again gives
/// nothing and changes nothing. What was taken is one payload for both
/// kinds, and it is the payload that the coalescer remembers.
pub proof fn lemma_take_then_nothing_pending(coalescer: CoalescerView)
    ensures
        !coalescer.taken().0.has_pending(),
        coalescer.taken().0.taken() == (coalescer.taken().0, None::<crate::status::StatusView>),
        coalescer.has_pending() ==> coalescer.taken().1 == Some(
            merged(coalescer.shown, coalescer.class, coalescer.area),
        ) && coalescer.taken().0.shown == merged(coalescer.shown, coalescer.class, coalescer.area),
        !coalescer.has_pending() ==> coalescer.taken() == (
            coalescer,
            None::<crate::status::StatusView>,
        ),
{
}

/// A push begins only in a quiet poll: the machine comes to its first push
/// of a payload only from a read that gave no text while something was
/// pending. A read that gave text pushes nothing and is followed by the
/// short sleep.
pub proof fn lemma_push_only_when_quiet(
    monitor: MonitorView,
    event: EventView,
    table: Map<Seq<char>, Seq<char>>,
    now: i64,
)
    ensures
        !(monitor.step is Pushing) ==> (monitor.stepped(event, table, now).step matches StepView::Pushing(
            payload,
        ) ==> {
            &&& monitor.step is Reading
            &&& event == EventView::Text(Seq::<char>::empty())
            &&& monitor.tracker.status.has_pending()
            &&& payload == merged(
                monitor.tracker.status.shown,
                monitor.tracker.status.class,
                monitor.tracker.status.area,
            )
        }),
        monitor.step is Reading ==> (event matches EventView::Text(text) ==> (text.len() > 0 ==> {
            &&& monitor.stepped(event, table, now).step is LivePause
            &&& monitor.stepped(event, table, now).step.command() == CommandView::Sleep(
                crate::monitor::Pause::Short,
            )
        })),
{
    if let EventView::Text(text) = event {
        if text.len() == 0 {
            assert(text =~= Seq::<char>::empty());
        }
    }
}

/// When a push begins, nothing is pending any more, and nothing becomes
/// pending again before the next read: whether the push succeeds or fails,
/// is retried or not, the tracker stays as it is. A quiet poll with nothing
/// pending pushes nothing.
pub proof fn lemma_push_then_clear(
    monitor: MonitorView,
    event: EventView,
    table: Map<Seq<char>, Seq<char>>,
    now: i64,
)
    ensures
        monitor.step is Reading && monitor.stepped(event, table, now).step is Pushing
            ==> !monitor.stepped(event, table, now).tracker.status.has_pending(),
        monitor.step is Pushing || monitor.step is Reconnecting || monitor.step is Retrying
            || monitor.step is LivePause || monitor.step is CheckAlive ==> monitor.stepped(
            event,
            table,
            now,
        ).tracker == monitor.tracker,
        monitor.step is Reading && !monitor.tracker.status.has_pending() && event
            == EventView::Text(Seq::<char>::empty()) ==> monitor.stepped(event, table, now)
            == monitor.at(StepView::LivePause),
{
}

/// A push that meets a broken connection is followed by exactly one
/// reconnect and, if that succeeds, by exactly one more push of the same
/// payload. Any other failure, and any outcome of the second push, ends the
/// attempt; the machine then sleeps before the next poll.
pub proof fn lemma_one_reconnect_one_retry(
    monitor: MonitorView,
    reply: SinkReply,
    table: Map<Seq<char>, Seq<char>>,
    now: i64,
)
    ensures
        monitor.step matches StepView::Pushing(payload) ==> monitor.stepped(
            EventView::Sink(reply),
            table,
            now,
        ).step == (if reply == SinkReply::Broken {
            StepView::Reconnecting(payload)
        } else {
            StepView::LivePause
        }),
        monitor.step matches StepView::Reconnecting(payload) ==> monitor.stepped(
            EventView::Sink(reply),
            table,
            now,
        ).step == (if reply == SinkReply::Accepted {
            StepView::Retrying(payload)
        } else {
            StepView::LivePause
        }),
        monitor.step is Retrying ==> monitor.stepped(EventView::Sink(reply), table, now).step
            == StepView::LivePause,
{
}

/// Whether the tail loop may pass from one of its states to another in one
/// step.
pub open spec fn phase_may_follow(from: Phase, to: Phase) -> bool {
    from == to || match from {
        Phase::Idle => to == Phase::SessionStart,
        Phase::SessionStart => to == Phase::Live,
        Phase::Live => to == Phase::SessionEnd,
        Phase::SessionEnd => to == Phase::Idle,
    }
}

/// The machine passes through the four states of the tail loop in their
/// order only. A session begins only when the process is reported running
/// and ends only when it is reported gone; at its end the filter is empty
/// and nothing is pending.
pub proof fn lemma_session_cycle(
    monitor: MonitorView,
    event: EventView,
    table: Map<Seq<char>, Seq<char>>,
    now: i64,
)
    ensures
        phase_may_follow(monitor.step.phase(), monitor.stepped(event, table, now).step.phase()),
        monitor.step.phase() == Phase::Idle && monitor.stepped(event, table, now).step.phase()
            == Phase::SessionStart ==> event == EventView::Liveness(true),
        monitor.step.phase() == Phase::Live && monitor.stepped(event, table, now).step.phase()
            == Phase::SessionEnd ==> event == EventView::Liveness(false),
        monitor.step.phase() == Phase::SessionEnd && monitor.stepped(event, table, now).step.phase()
            == Phase::Idle ==> {
            &&& monitor.stepped(event, table, now).tracker.filter == Set::<Seq<char>>::empty()
            &&& !monitor.stepped(event, table, now).tracker.status.has_pending()
            &&& monitor.stepped(event, table, now).step.command() == CommandView::Sleep(
                crate::monitor::Pause::Long,
            )
        },
{
}

} // verus!
