//! One presence report, as a machine that decides and leaves the doing to its caller.
//!
//! A report starts by learning how long the user has been idle. An idle user ends it at once.
//! For a present user the machine asks for one request to be sent, waits for the outcome, and
//! asks for one notification to be emitted. [`step`] is the whole of the deciding: from a
//! state and an event to the next state and the action to carry out.
//!
//! [`online_check`] makes the two readings a report begins with, the idle time and the clock,
//! and hands them to [`begin`]. Sending the request and emitting the notification are the
//! caller's: it carries out each action and comes back to [`step`] with what happened.

use crate::clock::Moment;
use crate::idle::{counts_as_present, is_present, read_idle_seconds};
use crate::payload::{
    message_for, Delivery, NotificationPayload, NotificationPayloadView, PresencePayload,
    PresencePayloadView,
};
use vstd::prelude::*;

verus! {

/// The name under which a notification is emitted to the user interface.
pub const EVENT_NAME: &'static str = "online-check";

/// The header that carries the caller's token, unchanged.
pub const AUTHORIZATION_HEADER: &'static str = "Authorization";

/// The one status that counts as delivered.
pub const STATUS_DELIVERED: u16 = 200;

/// A POST to be sent: where to, the value of its authorization header, and its JSON body.
#[derive(Clone, Debug, PartialEq, Eq)]
pub struct Request {
    pub url: String,
    pub authorization: String,
    pub payload: PresencePayload,
}

/// The mathematical value of a [`Request`].
pub struct RequestView {
    pub url: Seq<char>,
    pub authorization: Seq<char>,
    pub payload: PresencePayloadView,
}

impl View for Request {
    type V = RequestView;

    open spec fn view(&self) -> RequestView {
        RequestView { url: self.url@, authorization: self.authorization@, payload: self.payload@ }
    }
}

/// Where a report stands.
#[derive(Clone, Copy, Debug, PartialEq, Eq)]
pub enum State {
    /// Nothing is known yet; the idle time is awaited.
    Start,
    /// The request stamped `stamped` was handed out; its outcome is awaited.
    InFlight { stamped: Moment },
    /// The report is over.
    Done,
}

/// What the caller learned from the world.
#[derive(Clone, Copy, Debug, PartialEq, Eq)]
pub enum Event {
    /// The user has been idle for `seconds`, and `now` is the local time. The time matters
    /// only where the user counts as present; for an idle user any moment will do.
    Idle { seconds: u64, now: Moment },
    /// The server answered with `status`.
    Response { status: u16 },
    /// No answer came.
    TransportError,
}

/// What the caller is to do next.
#[derive(Clone, Debug, PartialEq, Eq)]
pub enum Action {
    /// Nothing.
    Nothing,
    /// Send this request and come back with its outcome.
    Post(Request),
    /// Emit this payload under [`EVENT_NAME`].
    Emit(NotificationPayload),
}

/// The mathematical value of an [`Action`].
pub enum ActionView {
    Nothing,
    Post(RequestView),
    Emit(NotificationPayloadView),
}

impl View for Action {
    type V = ActionView;

    open spec fn view(&self) -> ActionView {
        match self {
            Action::Nothing => ActionView::Nothing,
            Action::Post(request) => ActionView::Post(request@),
            Action::Emit(payload) => ActionView::Emit(payload@),
        }
    }
}

/// Why a report could not begin.
#[derive(Clone, Copy, Debug, PartialEq, Eq)]
pub enum ReadError {
    /// The platform did not say how long the user has been idle.
    IdleTimeUnknown,
    /// The clock reads a time that RFC 3339 cannot express.
    ClockUnusable,
}

/// How a response with `status` counts.
pub open spec fn delivery_of_status(status: u16) -> Delivery {
    if status == STATUS_DELIVERED {
        Delivery::Delivered
    } else {
        Delivery::DeliveryFailed
    }
}

/// The request of a report for `url` and `token` made at `now`.
pub open spec fn request_for(url: Seq<char>, token: Seq<char>, now: Moment) -> RequestView {
    RequestView {
        url,
        authorization: token,
        payload: PresencePayloadView { timestamp: now@.local_text() },
    }
}

/// The notification of a report stamped `stamped` that ended as `delivery`.
pub open spec fn notification_for(stamped: Moment, delivery: Delivery) -> NotificationPayloadView {
    NotificationPayloadView { message: message_for(delivery, stamped@.rfc3339()) }
}

/// How the attempt ended, where `event` is the end of one: a transport error counts as a
/// failure, as does every status but 200.
pub open spec fn outcome_of(event: Event) -> Option<Delivery> {
    match event {
        Event::Response { status } => Some(delivery_of_status(status)),
        Event::TransportError => Some(Delivery::DeliveryFailed),
        Event::Idle { .. } => None,
    }
}

/// The machine: the state after `event` arrives in `state`, and the action it asks for.
///
/// An event that the state does not wait for changes nothing and asks for nothing.
pub open spec fn next(url: Seq<char>, token: Seq<char>, state: State, event: Event) -> (
    State,
    ActionView,
) {
    match (state, event) {
        (State::Start, Event::Idle { seconds, now }) => if counts_as_present(seconds) {
            (State::InFlight { stamped: now }, ActionView::Post(request_for(url, token, now)))
        } else {
            (State::Done, ActionView::Nothing)
        },
        (State::InFlight { stamped }, _) => match outcome_of(event) {
            Some(delivery) => (State::Done, ActionView::Emit(notification_for(stamped, delivery))),
            None => (state, ActionView::Nothing),
        },
        _ => (state, ActionView::Nothing),
    }
}

/// Sorts a response by its status: 200 is delivered, every other status has failed.
pub fn classify(status: u16) -> (delivery: Delivery)
    ensures
        delivery == delivery_of_status(status),
{
    if status == STATUS_DELIVERED {
        Delivery::Delivered
    } else {
        Delivery::DeliveryFailed
    }
}

/// Takes one step of a report for `url` and `token`.
pub fn step(url: &str, token: &str, state: State, event: Event) -> (out: (State, Action))
    ensures
        (out.0, out.1@) == next(url@, token@, state, event),
{
    match state {
        State::Start => match event {
            Event::Idle { seconds, now } => {
                if is_present(seconds) {
                    let request = Request {
                        url: url.to_owned(),
                        authorization: token.to_owned(),
                        payload: PresencePayload::at(&now),
                    };
                    (State::InFlight { stamped: now }, Action::Post(request))
                } else {
                    (State::Done, Action::Nothing)
                }
            },
            _ => (State::Start, Action::Nothing),
        },
        State::InFlight { stamped } => match event {
            Event::Response { status } => {
                let payload = NotificationPayload::reporting(classify(status), &stamped);
                (State::Done, Action::Emit(payload))
            },
            Event::TransportError => {
                let payload = NotificationPayload::reporting(Delivery::DeliveryFailed, &stamped);
                (State::Done, Action::Emit(payload))
            },
            Event::Idle { .. } => (State::InFlight { stamped }, Action::Nothing),
        },
        State::Done => (State::Done, Action::Nothing),
    }
}

/// How a report begins on what was read: `idle` is the user's idle time in seconds, if the
/// platform told it, and `now` the local time, if the clock gave one that can be reported.
///
/// Without the idle time nothing begins. An idle user ends the report at once, whatever the
/// clock says. For a present user the clock is needed, and the machine takes its first step.
pub open spec fn beginning(
    url: Seq<char>,
    token: Seq<char>,
    idle: Option<u64>,
    now: Option<Moment>,
) -> Result<(State, ActionView), ReadError> {
    match idle {
        None => Err(ReadError::IdleTimeUnknown),
        Some(seconds) => if !counts_as_present(seconds) {
            Ok((State::Done, ActionView::Nothing))
        } else {
            match now {
                None => Err(ReadError::ClockUnusable),
                Some(moment) => Ok(
                    next(url, token, State::Start, Event::Idle { seconds, now: moment }),
                ),
            }
        },
    }
}

/// Whether `begun` is the beginning that `model` describes.
pub open spec fn agrees(
    begun: Result<(State, Action), ReadError>,
    model: Result<(State, ActionView), ReadError>,
) -> bool {
    match (begun, model) {
        (Ok(out), Ok(expected)) => out.0 == expected.0 && out.1@ == expected.1,
        (Err(error), Err(expected)) => error == expected,
        _ => false,
    }
}

/// Begins a report for `url` and `token` on what was read: the idle time and the local time,
/// each if it could be had.
pub fn begin(url: &str, token: &str, idle: Option<u64>, now: Option<Moment>) -> (begun: Result<
    (State, Action),
    ReadError,
>)
    ensures
        agrees(begun, beginning(url@, token@, idle, now)),
{
    match idle {
        None => Err(ReadError::IdleTimeUnknown),
        Some(seconds) => {
            if !is_present(seconds) {
                Ok((State::Done, Action::Nothing))
            } else {
                match now {
                    None => Err(ReadError::ClockUnusable),
                    Some(moment) => Ok(
                        step(url, token, State::Start, Event::Idle { seconds, now: moment }),
                    ),
                }
            }
        },
    }
}

/// Begins a report for `url` and `token`: reads the user's idle time, reads the clock where
/// the user counts as present, and begins on the two readings.
///
/// Whatever the readings were, the result is the beginning of a report on them.
pub fn online_check(url: &str, token: &str) -> (begun: Result<(State, Action), ReadError>)
    ensures
        exists|idle: Option<u64>, now: Option<Moment>|
            (now matches Some(moment) ==> moment@.representable()) && agrees(
                begun,
                #[trigger] beginning(url@, token@, idle, now),
            ),
{
    match read_idle_seconds() {
        None => begin(url, token, None, None),
        Some(seconds) => {
            if is_present(seconds) {
                begin(url, token, Some(seconds), Moment::now())
            } else {
                begin(url, token, Some(seconds), None)
            }
        },
    }
}

} // verus!
