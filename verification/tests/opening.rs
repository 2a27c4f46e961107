use maketemp::opening::{OpenStep, Opening};
use maketemp::protocol::{Action, Event, Kind};
use maketemp::{TempDir, TempFile};

const STAMP: u128 = 1_700_000_000_000_000;

fn pending_after(opening: Opening, event: Event) -> Opening {
    match opening.advance(event) {
        OpenStep::Pending(next) => next,
        other => panic!("the opening ended: {:?}", other),
    }
}

fn refused(message: &str) -> Event {
    Event::Refused { message: message.to_string() }
}

#[test]
fn an_opening_starts_with_the_clock() {
    assert_eq!(*TempDir::open("/tmp").pending(), Action::ReadClock);
    assert_eq!(*TempDir::open_with("/work", "abc-").pending(), Action::ReadClock);
    assert_eq!(*TempFile::open("/tmp").pending(), Action::ReadClock);
    assert_eq!(*TempFile::open_with("/work", "abc-", ".txt").pending(), Action::ReadClock);
}

#[test]
fn default_directory_is_named_temp_and_timestamp() {
    let opening = pending_after(TempDir::open("/tmp"), Event::Clock { micros: STAMP });
    assert_eq!(
        *opening.pending(),
        Action::Probe { path: "/tmp/temp-1700000000000000".to_string() }
    );
}

#[test]
fn default_file_is_named_by_the_bare_timestamp() {
    let opening = pending_after(TempFile::open("/tmp"), Event::Clock { micros: STAMP });
    assert_eq!(*opening.pending(), Action::Probe { path: "/tmp/1700000000000000".to_string() });
}

#[test]
fn directory_takes_the_prefix_and_no_suffix() {
    let opening = pending_after(TempDir::open_with("/work", "abc-"), Event::Clock { micros: 12 });
    assert_eq!(*opening.pending(), Action::Probe { path: "/work/abc-12".to_string() });
}

#[test]
fn file_takes_prefix_and_suffix() {
    let opening =
        pending_after(TempFile::open_with("/work", "abc-", ".txt"), Event::Clock { micros: 12 });
    assert_eq!(*opening.pending(), Action::Probe { path: "/work/abc-12.txt".to_string() });
}

#[test]
fn absent_candidate_is_created_as_a_directory() {
    let opening = pending_after(TempDir::open_with("/work", "abc-"), Event::Clock { micros: 12 });
    let opening = pending_after(opening, Event::Probed { present: false });
    assert_eq!(
        *opening.pending(),
        Action::Create { kind: Kind::Directory, path: "/work/abc-12".to_string() }
    );
    match opening.advance(Event::Done) {
        OpenStep::Dir(handle) => assert_eq!(handle.path(), "/work/abc-12"),
        other => panic!("no directory handle: {:?}", other),
    }
}

#[test]
fn absent_candidate_is_created_as_a_file() {
    let opening =
        pending_after(TempFile::open_with("/work", "abc-", ".txt"), Event::Clock { micros: 12 });
    let opening = pending_after(opening, Event::Probed { present: false });
    assert_eq!(
        *opening.pending(),
        Action::Create { kind: Kind::File, path: "/work/abc-12.txt".to_string() }
    );
    match opening.advance(Event::Done) {
        OpenStep::File(handle) => assert_eq!(handle.path(), "/work/abc-12.txt"),
        other => panic!("no file handle: {:?}", other),
    }
}

#[test]
fn taken_candidate_leads_to_a_pause_and_a_new_timestamp() {
    let opening = pending_after(TempDir::open("/tmp"), Event::Clock { micros: 100 });
    assert_eq!(*opening.pending(), Action::Probe { path: "/tmp/temp-100".to_string() });
    let opening = pending_after(opening, Event::Probed { present: true });
    assert_eq!(*opening.pending(), Action::Pause { micros: 1 });
    let opening = pending_after(opening, Event::Paused);
    assert_eq!(*opening.pending(), Action::ReadClock);
    let opening = pending_after(opening, Event::Clock { micros: 101 });
    assert_eq!(*opening.pending(), Action::Probe { path: "/tmp/temp-101".to_string() });
}

#[test]
fn a_clock_that_stands_still_is_asked_again() {
    let mut opening = TempFile::open("/tmp");
    for _ in 0..50 {
        opening = pending_after(opening, Event::Clock { micros: 7 });
        assert_eq!(*opening.pending(), Action::Probe { path: "/tmp/7".to_string() });
        opening = pending_after(opening, Event::Probed { present: true });
        opening = pending_after(opening, Event::Paused);
        assert_eq!(*opening.pending(), Action::ReadClock);
    }
    opening = pending_after(opening, Event::Clock { micros: 8 });
    opening = pending_after(opening, Event::Probed { present: false });
    match opening.advance(Event::Done) {
        OpenStep::File(handle) => assert_eq!(handle.path(), "/tmp/8"),
        other => panic!("no file handle: {:?}", other),
    }
}

#[test]
fn refused_creation_fails_with_the_message() {
    let opening = pending_after(TempDir::open_with("/root", "abc-"), Event::Clock { micros: 3 });
    let opening = pending_after(opening, Event::Probed { present: false });
    match opening.advance(refused("Permission denied (os error 13)")) {
        OpenStep::Failed(message) => assert_eq!(message, "Permission denied (os error 13)"),
        other => panic!("unexpected state. ({:?})", other),
    }
}

#[test]
fn missing_parent_fails_with_the_message() {
    let opening =
        pending_after(TempFile::open_with("/no/such/dir", "", ""), Event::Clock { micros: 3 });
    assert_eq!(*opening.pending(), Action::Probe { path: "/no/such/dir/3".to_string() });
    let opening = pending_after(opening, Event::Probed { present: false });
    match opening.advance(refused("No such file or directory (os error 2)")) {
        OpenStep::Failed(message) => assert_eq!(message, "No such file or directory (os error 2)"),
        other => panic!("unexpected state. ({:?})", other),
    }
}

#[test]
fn a_lost_race_fails_and_is_not_retried() {
    let opening = pending_after(TempDir::open("/tmp"), Event::Clock { micros: 3 });
    let opening = pending_after(opening, Event::Probed { present: false });
    match opening.advance(refused("File exists (os error 17)")) {
        OpenStep::Failed(message) => assert_eq!(message, "File exists (os error 17)"),
        other => panic!("unexpected state. ({:?})", other),
    }
}

#[test]
fn an_empty_message_is_still_a_failure() {
    let opening = pending_after(TempDir::open("/tmp"), Event::Clock { micros: 3 });
    let opening = pending_after(opening, Event::Probed { present: false });
    match opening.advance(refused("")) {
        OpenStep::Failed(message) => assert_eq!(message, ""),
        other => panic!("unexpected state. ({:?})", other),
    }
}

fn strays_for(pending: &Action) -> Vec<Event> {
    let all = vec![
        Event::Clock { micros: 5 },
        Event::Probed { present: true },
        Event::Probed { present: false },
        Event::Paused,
        Event::Done,
        refused("stray"),
    ];
    all.into_iter()
        .filter(|event| {
            !matches!(
                (pending, event),
                (Action::ReadClock, Event::Clock { .. })
                    | (Action::Probe { .. }, Event::Probed { .. })
                    | (Action::Pause { .. }, Event::Paused)
                    | (Action::Create { .. }, Event::Done)
                    | (Action::Create { .. }, Event::Refused { .. })
            )
        })
        .collect()
}

fn assert_strays_change_nothing(make: fn() -> Opening, expect: Action) {
    for stray in strays_for(&expect) {
        let text = format!("{:?}", stray);
        let opening = pending_after(make(), stray);
        assert_eq!(*opening.pending(), expect, "after {}", text);
    }
}

#[test]
fn an_event_that_answers_nothing_changes_nothing() {
    fn reading() -> Opening {
        TempDir::open_with("/work", "abc-")
    }
    fn probing() -> Opening {
        pending_after(reading(), Event::Clock { micros: 12 })
    }
    fn pausing() -> Opening {
        pending_after(probing(), Event::Probed { present: true })
    }
    fn creating() -> Opening {
        pending_after(probing(), Event::Probed { present: false })
    }
    assert_strays_change_nothing(reading, Action::ReadClock);
    assert_strays_change_nothing(probing, Action::Probe { path: "/work/abc-12".to_string() });
    assert_strays_change_nothing(pausing, Action::Pause { micros: 1 });
    assert_strays_change_nothing(
        creating,
        Action::Create { kind: Kind::Directory, path: "/work/abc-12".to_string() },
    );
}

#[test]
fn a_stray_event_does_not_lose_the_request() {
    let opening = pending_after(TempFile::open_with("/work", "p", ".s"), Event::Done);
    let opening = pending_after(opening, Event::Clock { micros: 1 });
    assert_eq!(*opening.pending(), Action::Probe { path: "/work/p1.s".to_string() });
}

#[test]
fn the_probe_follows_the_real_clock() {
    let now = std::time::SystemTime::now()
        .duration_since(std::time::UNIX_EPOCH)
        .unwrap()
        .as_micros();
    let opening = pending_after(TempDir::open("/tmp"), Event::Clock { micros: now });
    assert_eq!(*opening.pending(), Action::Probe { path: format!("/tmp/temp-{}", now) });
}
