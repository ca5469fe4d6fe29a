use poe2_drpc::monitor::{Command, Event, Monitor, Pause, Phase, SinkReply, Step};
use poe2_drpc::process::{any_target_process, is_target_process, PROCESS_STEM};
use poe2_drpc::status::StatusPayload;
use poe2_drpc::translations::Translations;

fn unix_seconds() -> i64 {
    let since = std::time::SystemTime::now().duration_since(std::time::UNIX_EPOCH).unwrap();
    since.as_secs() as i64
}

fn monitor() -> Monitor {
    let mut t = Translations::new();
    t.insert("G1_town".to_string(), "Ogham".to_string());
    Monitor::new(t).expect("the patterns compile")
}

fn text(s: &str) -> Event {
    Event::Text(s.to_string())
}

/// Brings a fresh monitor to the point where it reads the log for news.
fn live(history: &str) -> Monitor {
    let mut m = monitor();
    assert_eq!(m.advance_at(Event::Liveness(true), 0), Command::Connect);
    assert_eq!(m.advance_at(Event::Done, 0), Command::ReadHistory);
    assert_eq!(m.advance_at(text(history), 0), Command::CheckLiveness);
    assert_eq!(m.advance_at(Event::Liveness(true), 0), Command::ReadAppended);
    m
}

fn pushed(command: Command) -> StatusPayload {
    match command {
        Command::SetStatus(payload) => payload,
        other => panic!("no push: {:?}", other),
    }
}

#[test]
fn starts_idle_asking_for_the_process() {
    let m = monitor();
    assert_eq!(m.phase(), Phase::Idle);
    assert_eq!(m.step, Step::AwaitProcess);
    assert_eq!(m.command(), Command::CheckLiveness);
    assert_eq!(m.dropped, 0);
}

#[test]
fn pauses() {
    assert_eq!(Pause::Short.millis(), 500);
    assert_eq!(Pause::Long.millis(), 5000);
}

#[test]
fn idle_polls_slowly_while_the_process_is_absent() {
    let mut m = monitor();
    assert_eq!(m.advance_at(Event::Liveness(false), 0), Command::Sleep(Pause::Long));
    assert_eq!(m.phase(), Phase::Idle);
    assert_eq!(m.advance_at(Event::Done, 0), Command::CheckLiveness);
    assert_eq!(m.advance_at(Event::Liveness(false), 0), Command::Sleep(Pause::Long));
    assert_eq!(m.phase(), Phase::Idle);
}

#[test]
fn session_start_connects_then_seeds() {
    let mut m = monitor();
    assert_eq!(m.advance_at(Event::Liveness(true), 0), Command::Connect);
    assert_eq!(m.phase(), Phase::SessionStart);
    assert_eq!(m.advance_at(Event::Done, 0), Command::ReadHistory);
    assert_eq!(m.phase(), Phase::SessionStart);
    let history = ": Bob has joined the area.\n: Bob (Monk) is now level 9\n: Alice (Witch) is now level 3\n";
    assert_eq!(m.advance_at(text(history), 0), Command::CheckLiveness);
    assert_eq!(m.phase(), Phase::Live);
    assert!(m.tracker.filter.is_filtered("Bob"));
    assert_eq!(m.tracker.status.class.as_ref().unwrap().username, "Alice");
    assert_eq!(m.tracker.status.area, None);
}

#[test]
fn seeded_class_is_pushed_in_the_first_quiet_poll() {
    let mut m = live(": Alice (Stormweaver) is now level 80\n");
    let p = pushed(m.advance_at(text(""), 0));
    assert_eq!(p.details, Some("Alice".to_string()));
    assert_eq!(p.large_text, Some("Stormweaver (80)".to_string()));
    assert_eq!(p.state, None);
    assert_eq!(m.phase(), Phase::Live);
}

#[test]
fn no_push_while_text_arrives() {
    let mut m = live("");
    assert_eq!(
        m.advance_at(text(": Alice (Witch) is now level 5\n"), 10),
        Command::Sleep(Pause::Short)
    );
    assert_eq!(m.advance_at(Event::Done, 10), Command::CheckLiveness);
    assert_eq!(m.advance_at(Event::Liveness(true), 10), Command::ReadAppended);
    assert_eq!(
        m.advance_at(text("] Generating level 3 area \"G1_town\" with seed 7\n"), 11),
        Command::Sleep(Pause::Short)
    );
    assert_eq!(m.advance_at(Event::Done, 11), Command::CheckLiveness);
    assert_eq!(m.advance_at(Event::Liveness(true), 11), Command::ReadAppended);
    assert!(m.tracker.status.has_pending());
    let p = pushed(m.advance_at(text(""), 12));
    assert_eq!(p.details, Some("Alice".to_string()));
    assert_eq!(p.large_image, Some("witch".to_string()));
    assert_eq!(p.state, Some("Ogham (3)".to_string()));
    assert_eq!(p.start, Some(11));
}

#[test]
fn push_clears_and_is_not_repeated() {
    let mut m = live(": Alice (Witch) is now level 5\n");
    pushed(m.advance_at(text(""), 0));
    assert!(!m.tracker.status.has_pending());
    assert_eq!(m.advance_at(Event::Sink(SinkReply::Accepted), 0), Command::Sleep(Pause::Short));
    assert_eq!(m.advance_at(Event::Done, 0), Command::CheckLiveness);
    assert_eq!(m.advance_at(Event::Liveness(true), 0), Command::ReadAppended);
    assert_eq!(m.advance_at(text(""), 0), Command::Sleep(Pause::Short));
    assert!(!m.tracker.status.has_pending());
}

#[test]
fn quiet_poll_with_nothing_pending_sleeps() {
    let mut m = live("");
    assert_eq!(m.advance_at(text(""), 0), Command::Sleep(Pause::Short));
    assert_eq!(m.step, Step::LivePause);
}

#[test]
fn broken_connection_gets_one_reconnect_and_one_retry() {
    let mut m = live(": Alice (Witch) is now level 5\n");
    let first = pushed(m.advance_at(text(""), 0));
    assert_eq!(m.advance_at(Event::Sink(SinkReply::Broken), 0), Command::Reconnect);
    let second = pushed(m.advance_at(Event::Sink(SinkReply::Accepted), 0));
    assert_eq!(second, first);
    // Whatever the retry comes to, it is the last.
    assert_eq!(m.advance_at(Event::Sink(SinkReply::Broken), 0), Command::Sleep(Pause::Short));
    assert!(!m.tracker.status.has_pending());
    assert_eq!(m.phase(), Phase::Live);
}

#[test]
fn failed_reconnect_drops_the_push() {
    let mut m = live(": Alice (Witch) is now level 5\n");
    pushed(m.advance_at(text(""), 0));
    assert_eq!(m.advance_at(Event::Sink(SinkReply::Broken), 0), Command::Reconnect);
    assert_eq!(m.advance_at(Event::Sink(SinkReply::Failed), 0), Command::Sleep(Pause::Short));
    assert!(!m.tracker.status.has_pending());
    let mut n = live(": Alice (Witch) is now level 5\n");
    pushed(n.advance_at(text(""), 0));
    assert_eq!(n.advance_at(Event::Sink(SinkReply::Broken), 0), Command::Reconnect);
    assert_eq!(n.advance_at(Event::Sink(SinkReply::Broken), 0), Command::Sleep(Pause::Short));
}

#[test]
fn other_failure_is_not_retried() {
    let mut m = live(": Alice (Witch) is now level 5\n");
    pushed(m.advance_at(text(""), 0));
    assert_eq!(m.advance_at(Event::Sink(SinkReply::Failed), 0), Command::Sleep(Pause::Short));
    assert!(!m.tracker.status.has_pending());
}

#[test]
fn process_exit_ends_the_session() {
    let mut m = live(": Bob has joined the area.\n: Alice (Witch) is now level 5\n");
    assert_eq!(m.advance_at(text("] Generating level 3 area \"G1_town\" with seed 7\n"), 5), Command::Sleep(Pause::Short));
    assert_eq!(m.advance_at(Event::Done, 5), Command::CheckLiveness);
    assert_eq!(m.advance_at(Event::Liveness(false), 5), Command::ClearStatus);
    assert_eq!(m.phase(), Phase::SessionEnd);
    assert_eq!(m.advance_at(Event::Done, 5), Command::Disconnect);
    assert_eq!(m.phase(), Phase::SessionEnd);
    assert_eq!(m.advance_at(Event::Done, 5), Command::Sleep(Pause::Long));
    assert_eq!(m.phase(), Phase::Idle);
    assert!(!m.tracker.status.has_pending());
    assert_eq!(m.tracker.filter.len(), 0);
    assert_eq!(m.advance_at(Event::Done, 5), Command::CheckLiveness);
}

#[test]
fn second_session_seeds_again() {
    let mut m = live(": Bob has joined the area.\n");
    assert_eq!(m.advance_at(text(""), 0), Command::Sleep(Pause::Short));
    m.advance_at(Event::Done, 0);
    m.advance_at(Event::Liveness(false), 0);
    m.advance_at(Event::Done, 0);
    m.advance_at(Event::Done, 0);
    assert_eq!(m.advance_at(Event::Done, 0), Command::CheckLiveness);
    assert_eq!(m.advance_at(Event::Liveness(true), 0), Command::Connect);
    assert_eq!(m.advance_at(Event::Done, 0), Command::ReadHistory);
    assert_eq!(m.advance_at(text(": Bob (Witch) is now level 5\n"), 0), Command::CheckLiveness);
    // Bob joined in the session before; the filter was reset since.
    assert_eq!(m.tracker.status.class.as_ref().unwrap().username, "Bob");
}

#[test]
fn unexpected_event_changes_nothing() {
    let mut m = monitor();
    assert_eq!(m.advance_at(Event::Done, 0), Command::CheckLiveness);
    assert_eq!(m.advance_at(text("x"), 0), Command::CheckLiveness);
    assert_eq!(m.advance_at(Event::Sink(SinkReply::Accepted), 0), Command::CheckLiveness);
    assert_eq!(m.step, Step::AwaitProcess);
    let mut l = live(": Alice (Witch) is now level 5\n");
    assert_eq!(l.advance_at(Event::Done, 0), Command::ReadAppended);
    assert_eq!(l.advance_at(Event::Liveness(false), 0), Command::ReadAppended);
    assert!(l.tracker.status.has_pending());
    let p = pushed(l.advance_at(text(""), 0));
    assert_eq!(pushed(l.advance_at(Event::Done, 0)), p);
    assert_eq!(pushed(l.advance_at(text("more"), 0)), p);
}

#[test]
fn malformed_lines_are_counted_per_read() {
    let mut m = live("");
    m.advance_at(text(": A (Nobody) is now level 1\n: B (Witch) is now level 70000\n"), 0);
    assert_eq!(m.dropped, 2);
    m.advance_at(Event::Done, 0);
    assert_eq!(m.dropped, 0);
}

#[test]
fn advance_stamps_areas_with_the_wall_clock() {
    let mut m = live("");
    let before = unix_seconds();
    assert_eq!(
        m.advance(text("] Generating level 3 area \"G1_town\" with seed 7\n")),
        Command::Sleep(Pause::Short)
    );
    let after = unix_seconds();
    let ts = m.tracker.status.area.as_ref().unwrap().ts;
    assert!(before <= ts && ts <= after);
}

#[test]
fn target_process_names() {
    assert!(is_target_process("PathOfExile_x64Steam.exe"));
    assert!(is_target_process("PathOfExile_x64.exe"));
    assert!(is_target_process("PathOfExileSteam.exe"));
    assert!(is_target_process("PathOfExile.exe"));
    assert!(!is_target_process("PathOfExile"));
    assert!(!is_target_process("pathofexile.exe"));
    assert!(!is_target_process("PathOfExile_x64Steam.exe "));
    assert!(!is_target_process(""));
    for name in ["PathOfExile_x64Steam.exe", "PathOfExile_x64.exe", "PathOfExileSteam.exe", "PathOfExile.exe"] {
        assert!(name.starts_with(PROCESS_STEM));
    }
}

#[test]
fn any_of_the_processes_may_be_the_target() {
    let names = |list: &[&str]| list.iter().map(|n| n.to_string()).collect::<Vec<String>>();
    assert!(!any_target_process(&[]));
    assert!(!any_target_process(&names(&["PathOfExile", "PathOfExileLauncher.exe"])));
    assert!(any_target_process(&names(&["PathOfExile.exe"])));
    assert!(any_target_process(&names(&["PathOfExileLauncher.exe", "PathOfExile_x64Steam.exe"])));
    assert!(any_target_process(&names(&["PathOfExileSteam.exe", "other"])));
}

#[test]
fn session_start_filters_against_the_whole_history() {
    let mut m = live(": Bob (Monk) is now level 9\n: Bob has joined the area.\n");
    assert!(m.tracker.filter.is_filtered("Bob"));
    assert!(!m.tracker.status.has_pending());
    assert_eq!(m.advance_at(text(""), 0), Command::Sleep(Pause::Short));
}
