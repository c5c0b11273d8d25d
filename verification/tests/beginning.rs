//! How a report begins on each pair of readings.

use presence_report::clock::Moment;
use presence_report::payload::PresencePayload;
use presence_report::report::{begin, step, Action, Event, ReadError, Request, State};

fn midsummer() -> Moment {
    // 2024-06-21 08:15:30 UTC, shown two hours east.
    Moment::new(1_718_957_730, 0, 7_200).unwrap()
}

#[test]
fn unknown_idle_time_begins_nothing() {
    assert_eq!(begin("u", "t", None, None), Err(ReadError::IdleTimeUnknown));
    assert_eq!(begin("u", "t", None, Some(midsummer())), Err(ReadError::IdleTimeUnknown));
}

#[test]
fn present_user_without_a_usable_clock_begins_nothing() {
    for seconds in [0, 5, 60, 119] {
        assert_eq!(begin("u", "t", Some(seconds), None), Err(ReadError::ClockUnusable), "idle for {seconds} s");
    }
}

#[test]
fn idle_user_ends_the_report_whatever_the_clock_says() {
    for seconds in [120, 150, 86_400, u64::MAX] {
        assert_eq!(begin("u", "t", Some(seconds), None), Ok((State::Done, Action::Nothing)));
        assert_eq!(begin("u", "t", Some(seconds), Some(midsummer())), Ok((State::Done, Action::Nothing)));
    }
}

#[test]
fn present_user_begins_with_the_request() {
    let now = midsummer();
    let begun = begin("https://api.test/ping", "token-1", Some(42), Some(now));
    assert_eq!(
        begun,
        Ok((
            State::InFlight { stamped: now },
            Action::Post(Request {
                url: String::from("https://api.test/ping"),
                authorization: String::from("token-1"),
                payload: PresencePayload { timestamp: String::from("2024-06-21 10:15:30 +02:00") },
            }),
        ))
    );
}

#[test]
fn beginning_is_the_first_step_of_the_machine() {
    let now = midsummer();
    for seconds in [0, 59, 119, 120, 121, 10_000] {
        assert_eq!(
            begin("u", "t", Some(seconds), Some(now)),
            Ok(step("u", "t", State::Start, Event::Idle { seconds, now })),
            "idle for {seconds} s"
        );
    }
}
