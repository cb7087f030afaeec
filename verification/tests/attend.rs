use observatory::attend::{
    verify_code, AttendError, Attendable, AttendanceBook, AttendanceRecord, CodeWindow, Event,
    Meeting,
};
use observatory::users::{Identity, Tier};

fn member(id: i32) -> Identity {
    Identity {
        id,
        handle: format!("user{}", id),
        real_name: format!("User {}", id),
        password_hash: String::from("x"),
        salt: String::from("y"),
        bio: String::new(),
        email: String::new(),
        tier: Tier::Member,
        active: true,
    }
}

fn event(id: i32, time: i64, code: &str) -> Event {
    Event { id, name: String::from("Workshop"), time, code: code.to_string(), owner_id: 1 }
}

fn meeting(id: i32, group_id: i32, time: i64, code: &str) -> Meeting {
    Meeting {
        id,
        group_id,
        name: String::from("Weekly"),
        time,
        code: code.to_string(),
        owner_id: 2,
    }
}

const WINDOW: CodeWindow = CodeWindow { opens_before: 600, closes_after: 3_600 };

#[test]
fn correct_code_inside_the_window_is_accepted() {
    assert_eq!(verify_code("AHJNPZ29", "AHJNPZ29", 10_000, 10_000, &WINDOW), Ok(()));
    assert_eq!(verify_code("AHJNPZ29", "AHJNPZ29", 10_000, 9_400, &WINDOW), Ok(()));
    assert_eq!(verify_code("AHJNPZ29", "AHJNPZ29", 10_000, 13_600, &WINDOW), Ok(()));
}

#[test]
fn wrong_code_inside_the_window_is_a_mismatch() {
    assert_eq!(
        verify_code("AHJNPZ28", "AHJNPZ29", 10_000, 10_000, &WINDOW),
        Err(AttendError::CodeMismatch)
    );
    assert_eq!(
        verify_code("", "AHJNPZ29", 10_000, 10_000, &WINDOW),
        Err(AttendError::CodeMismatch)
    );
    assert_eq!(
        verify_code("ahjnpz29", "AHJNPZ29", 10_000, 10_000, &WINDOW),
        Err(AttendError::CodeMismatch)
    );
}

#[test]
fn correct_code_outside_the_window_is_window_closed() {
    assert_eq!(
        verify_code("AHJNPZ29", "AHJNPZ29", 10_000, 9_399, &WINDOW),
        Err(AttendError::WindowClosed)
    );
    assert_eq!(
        verify_code("AHJNPZ29", "AHJNPZ29", 10_000, 13_601, &WINDOW),
        Err(AttendError::WindowClosed)
    );
    assert_eq!(
        verify_code("AHJNPZ29", "AHJNPZ29", 10_000, 0, &WINDOW),
        Err(AttendError::WindowClosed)
    );
}

#[test]
fn wrong_code_outside_the_window_is_window_closed() {
    assert_eq!(
        verify_code("nope", "AHJNPZ29", 10_000, 20_000, &WINDOW),
        Err(AttendError::WindowClosed)
    );
}

#[test]
fn window_at_the_limits_of_time() {
    let wide = CodeWindow { opens_before: u32::MAX, closes_after: u32::MAX };
    assert!(wide.is_open(i64::MAX, i64::MAX));
    assert!(wide.is_open(i64::MIN, i64::MIN));
    assert!(!wide.is_open(i64::MIN, i64::MAX));
    assert!(wide.is_open(i64::MAX, i64::MAX - 4_294_967_295));
    assert!(!wide.is_open(i64::MAX, i64::MAX - 4_294_967_296));
    let point = CodeWindow { opens_before: 0, closes_after: 0 };
    assert!(point.is_open(50, 50));
    assert!(!point.is_open(50, 49));
    assert!(!point.is_open(50, 51));
}

#[test]
fn first_submission_adds_a_record() {
    let mut book = AttendanceBook::new();
    assert_eq!(book.len(), 0);
    let e = event(42, 10_000, "AHJNPZ29");
    assert_eq!(book.submit(&member(5), &e, "AHJNPZ29", 10_100, &WINDOW), Ok(()));
    assert_eq!(book.len(), 1);
    assert_eq!(
        book.get(0),
        Some(AttendanceRecord {
            user_id: 5,
            is_event: true,
            attendable_id: 42,
            time: 10_100,
            code: String::from("AHJNPZ29"),
        })
    );
    assert_eq!(book.get(1), None);
    assert_eq!(book.count(5, true, 42), 1);
    assert_eq!(book.count(5, false, 42), 0);
    assert_eq!(book.count(6, true, 42), 0);
}

#[test]
fn submitting_twice_yields_one_record() {
    let mut book = AttendanceBook::new();
    let e = event(42, 10_000, "AHJNPZ29");
    assert_eq!(book.submit(&member(5), &e, "AHJNPZ29", 10_100, &WINDOW), Ok(()));
    assert_eq!(book.submit(&member(5), &e, "AHJNPZ29", 10_200, &WINDOW), Ok(()));
    assert_eq!(book.len(), 1);
    assert_eq!(book.count(5, true, 42), 1);
    assert_eq!(book.find(5, true, 42).map(|r| r.time), Some(10_100));
}

#[test]
fn many_submissions_yield_one_record() {
    let mut book = AttendanceBook::new();
    let m = meeting(7, 3, 10_000, "QRSTUVWX");
    for n in 0..100 {
        assert_eq!(book.submit(&member(5), &m, "QRSTUVWX", 9_500 + n, &WINDOW), Ok(()));
    }
    assert_eq!(book.len(), 1);
    assert_eq!(book.count(5, false, 7), 1);
}

#[test]
fn submissions_in_any_order_yield_one_record_each() {
    let mut book = AttendanceBook::new();
    let e = event(42, 10_000, "AHJNPZ29");
    let m = meeting(42, 3, 10_000, "QRSTUVWX");
    let order = [(5, true), (6, false), (5, false), (6, true), (5, true), (6, false), (5, false)];
    for (who, at_event) in order {
        let r = if at_event {
            book.submit(&member(who), &e, "AHJNPZ29", 10_000, &WINDOW)
        } else {
            book.submit(&member(who), &m, "QRSTUVWX", 10_000, &WINDOW)
        };
        assert_eq!(r, Ok(()));
    }
    assert_eq!(book.len(), 4);
    for who in [5, 6] {
        assert_eq!(book.count(who, true, 42), 1);
        assert_eq!(book.count(who, false, 42), 1);
    }
}

#[test]
fn failed_submissions_write_nothing() {
    let mut book = AttendanceBook::new();
    let e = event(42, 10_000, "AHJNPZ29");
    assert_eq!(
        book.submit(&member(5), &e, "WRONG", 10_100, &WINDOW),
        Err(AttendError::CodeMismatch)
    );
    assert_eq!(
        book.submit(&member(5), &e, "AHJNPZ29", 20_000, &WINDOW),
        Err(AttendError::WindowClosed)
    );
    assert_eq!(
        book.submit(&member(5), &e, "WRONG", 20_000, &WINDOW),
        Err(AttendError::WindowClosed)
    );
    assert_eq!(book.len(), 0);
    assert_eq!(book.count(5, true, 42), 0);
    assert_eq!(book.find(5, true, 42), None);
}

#[test]
fn late_resubmission_keeps_the_record() {
    let mut book = AttendanceBook::new();
    let e = event(42, 10_000, "AHJNPZ29");
    assert_eq!(book.submit(&member(5), &e, "AHJNPZ29", 10_100, &WINDOW), Ok(()));
    assert_eq!(
        book.submit(&member(5), &e, "AHJNPZ29", 99_999, &WINDOW),
        Err(AttendError::WindowClosed)
    );
    assert_eq!(book.len(), 1);
    assert_eq!(book.count(5, true, 42), 1);
}

#[test]
fn record_under_another_code_is_a_conflict() {
    let mut book = AttendanceBook::new();
    let mut e = event(42, 10_000, "AHJNPZ29");
    assert_eq!(book.submit(&member(5), &e, "AHJNPZ29", 10_100, &WINDOW), Ok(()));
    e.code = String::from("BCDEFGKL");
    assert_eq!(
        book.submit(&member(5), &e, "BCDEFGKL", 10_200, &WINDOW),
        Err(AttendError::Conflict)
    );
    assert_eq!(
        book.submit(&member(5), &e, "AHJNPZ29", 10_200, &WINDOW),
        Err(AttendError::CodeMismatch)
    );
    assert_eq!(book.len(), 1);
    assert_eq!(book.find(5, true, 42).map(|r| r.code), Some(String::from("AHJNPZ29")));
    assert_eq!(book.submit(&member(6), &e, "BCDEFGKL", 10_200, &WINDOW), Ok(()));
    assert_eq!(book.len(), 2);
}

#[test]
fn event_and_meeting_with_one_id_are_different() {
    let mut book = AttendanceBook::new();
    let e = event(9, 10_000, "AHJNPZ29");
    let m = meeting(9, 1, 10_000, "AHJNPZ29");
    assert_eq!(book.submit(&member(5), &e, "AHJNPZ29", 10_000, &WINDOW), Ok(()));
    assert_eq!(book.submit(&member(5), &m, "AHJNPZ29", 10_000, &WINDOW), Ok(()));
    assert_eq!(book.len(), 2);
    assert_eq!(book.find(5, true, 9).map(|r| r.is_event), Some(true));
    assert_eq!(book.find(5, false, 9).map(|r| r.is_event), Some(false));
}

#[test]
fn failure_messages_are_distinct() {
    let all = [AttendError::CodeMismatch, AttendError::WindowClosed, AttendError::Conflict];
    for a in all {
        for b in all {
            assert_eq!(a == b, a.message() == b.message());
        }
        assert!(!a.message().is_empty());
    }
    assert_eq!(AttendError::CodeMismatch.message(), "That code is not correct.");
    assert_eq!(AttendError::WindowClosed.message(), "Attendance is not open at this time.");
    assert_eq!(
        AttendError::Conflict.message(),
        "You are already recorded under a different code."
    );
}

#[test]
fn event_capabilities() {
    let e = event(42, 10_000, "AHJNPZ29");
    assert_eq!(e.id(), 42);
    assert_eq!(e.name(), "Workshop");
    assert_eq!(e.time(), 10_000);
    assert_eq!(e.code(), "AHJNPZ29");
    assert_eq!(e.owner_id(), 1);
    assert!(e.is_event());
    assert_eq!(e.url(), "/calendar/42");
}

#[test]
fn meeting_capabilities() {
    let m = meeting(7, 1001, 20_000, "QRSTUVWX");
    assert_eq!(m.id(), 7);
    assert_eq!(m.name(), "Weekly");
    assert_eq!(m.time(), 20_000);
    assert_eq!(m.code(), "QRSTUVWX");
    assert_eq!(m.owner_id(), 2);
    assert!(!m.is_event());
    assert_eq!(m.url(), "/groups/1001");
}

fn is_code(code: &str) -> bool {
    code.chars().count() == 8
        && code.chars().all(|c| {
            (c.is_ascii_uppercase() && c != 'I' && c != 'O') || ('2'..='9').contains(&c)
        })
}

#[test]
fn created_attendables_get_a_code() {
    let e = Event::create(1, String::from("Launch"), 500, 3).expect("a code can be drawn");
    assert_eq!((e.id, e.name.as_str(), e.time, e.owner_id), (1, "Launch", 500, 3));
    assert!(is_code(&e.code));
    let m = Meeting::create(2, 8, String::from("Standup"), 600, 4).expect("a code can be drawn");
    assert_eq!((m.id, m.group_id, m.name.as_str(), m.time, m.owner_id), (2, 8, "Standup", 600, 4));
    assert!(is_code(&m.code));
}

#[test]
fn regenerating_replaces_the_code_only() {
    let mut e = event(42, 10_000, "");
    e.regenerate_code().expect("a code can be drawn");
    assert!(is_code(&e.code));
    assert_eq!((e.id, e.name.as_str(), e.time, e.owner_id), (42, "Workshop", 10_000, 1));
    let mut m = meeting(7, 3, 20_000, "");
    m.regenerate_code().expect("a code can be drawn");
    assert!(is_code(&m.code));
    assert_eq!((m.id, m.group_id, m.time, m.owner_id), (7, 3, 20_000, 2));
}

#[test]
fn generated_code_is_accepted_by_the_book() {
    let e = Event::create(1, String::from("Launch"), 500, 3).expect("a code can be drawn");
    let mut book = AttendanceBook::new();
    let code = e.code();
    assert_eq!(book.submit(&member(5), &e, &code, 500, &WINDOW), Ok(()));
    assert_eq!(book.count(5, true, 1), 1);
}

fn record(user_id: i32, is_event: bool, attendable_id: i32) -> AttendanceRecord {
    AttendanceRecord { user_id, is_event, attendable_id, time: 1, code: String::from("AHJNPZ29") }
}

#[test]
fn book_from_distinct_records() {
    let records = vec![
        record(1, true, 1),
        record(1, false, 1),
        record(2, true, 1),
        record(1, true, 2),
    ];
    let book = AttendanceBook::from_records(records).expect("no two records share a slot");
    assert_eq!(book.len(), 4);
    assert_eq!(book.get(2), Some(record(2, true, 1)));
    assert_eq!(book.count(1, true, 1), 1);
    assert_eq!(book.count(3, true, 1), 0);
    assert_eq!(book.find(1, true, 2), Some(record(1, true, 2)));
    let empty = AttendanceBook::from_records(Vec::new()).expect("nothing to clash");
    assert_eq!(empty.len(), 0);
}

#[test]
fn book_from_duplicate_records_is_refused() {
    assert!(AttendanceBook::from_records(vec![record(1, true, 1), record(1, true, 1)]).is_none());
    let mut later = record(1, true, 1);
    later.time = 99;
    later.code = String::from("BCDEFGKL");
    assert!(AttendanceBook::from_records(vec![
        record(1, true, 1),
        record(2, true, 1),
        record(3, false, 3),
        later,
    ])
    .is_none());
}

#[test]
fn loaded_book_takes_submissions() {
    let mut book =
        AttendanceBook::from_records(vec![record(5, true, 42)]).expect("one record cannot clash");
    let e = event(42, 10_000, "AHJNPZ29");
    assert_eq!(book.submit(&member(5), &e, "AHJNPZ29", 10_000, &WINDOW), Ok(()));
    assert_eq!(book.len(), 1);
    assert_eq!(book.submit(&member(6), &e, "AHJNPZ29", 10_000, &WINDOW), Ok(()));
    assert_eq!(book.len(), 2);
    assert_eq!(book.get(1).map(|r| (r.user_id, r.time)), Some((6, 10_000)));
}

#[test]
fn attendables_with_a_given_code() {
    let e = Event::with_code(3, String::from("Demo day"), 700, 9, String::from("AHJNPZ29"));
    assert_eq!(
        e,
        Event {
            id: 3,
            name: String::from("Demo day"),
            time: 700,
            code: String::from("AHJNPZ29"),
            owner_id: 9,
        }
    );
    let m = Meeting::with_code(4, 12, String::from("Retro"), 800, 9, String::from("QRSTUVWX"));
    assert_eq!(
        m,
        Meeting {
            id: 4,
            group_id: 12,
            name: String::from("Retro"),
            time: 800,
            code: String::from("QRSTUVWX"),
            owner_id: 9,
        }
    );
}

#[test]
fn setting_a_code_changes_the_code_only() {
    let mut e = event(42, 10_000, "AHJNPZ29");
    e.set_code(String::from("BCDEFGKL"));
    assert_eq!(e, event(42, 10_000, "BCDEFGKL"));
    let mut m = meeting(7, 3, 20_000, "QRSTUVWX");
    m.set_code(String::from("XY345678"));
    assert_eq!(m, meeting(7, 3, 20_000, "XY345678"));
}

#[test]
fn regenerated_code_replaces_the_old_one() {
    let mut e = event(42, 10_000, "not a code");
    e.regenerate_code().expect("a code can be drawn");
    assert_ne!(e.code, "not a code");
    let mut book = AttendanceBook::new();
    assert_eq!(
        book.submit(&member(5), &e, "not a code", 10_000, &WINDOW),
        Err(AttendError::CodeMismatch)
    );
    let code = e.code();
    assert_eq!(book.submit(&member(5), &e, &code, 10_000, &WINDOW), Ok(()));
}
