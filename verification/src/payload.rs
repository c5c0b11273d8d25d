//! The two values a report carries: the body sent to the server and the status shown to the
//! user.
//!
//! Both are built fresh for one report and never change afterwards.

use crate::clock::Moment;
use vstd::prelude::*;

verus! {

/// How an attempt to reach the server ended.
#[derive(Clone, Copy, Debug, PartialEq, Eq)]
pub enum Delivery {
    /// The server answered with status 200.
    Delivered,
    /// The server answered with another status, or no answer came.
    DeliveryFailed,
}

/// The body of the request: the moment of the report, human-readable.
#[derive(Clone, Debug, PartialEq, Eq)]
pub struct PresencePayload {
    pub timestamp: String,
}

/// The mathematical value of a [`PresencePayload`].
pub struct PresencePayloadView {
    pub timestamp: Seq<char>,
}

impl View for PresencePayload {
    type V = PresencePayloadView;

    open spec fn view(&self) -> PresencePayloadView {
        PresencePayloadView { timestamp: self.timestamp@ }
    }
}

/// The status shown to the user: a fragment of HTML.
#[derive(Clone, Debug, PartialEq, Eq)]
pub struct NotificationPayload {
    pub message: String,
}

/// The mathematical value of a [`NotificationPayload`].
pub struct NotificationPayloadView {
    pub message: Seq<char>,
}

impl View for NotificationPayload {
    type V = NotificationPayloadView;

    open spec fn view(&self) -> NotificationPayloadView {
        NotificationPayloadView { message: self.message@ }
    }
}

/// The class that marks the timestamp of a delivered report.
pub open spec fn success_marker() -> Seq<char> {
    "time-success"@
}

/// The class that marks the timestamp of a failed report.
pub open spec fn error_marker() -> Seq<char> {
    "time-error"@
}

/// The words shown for a delivered report.
pub open spec fn success_words() -> Seq<char> {
    "Data sent to server"@
}

/// The words shown for a failed report.
pub open spec fn failure_words() -> Seq<char> {
    "Error sending data to server"@
}

/// The fragment for a delivered report stamped `stamp`.
pub open spec fn success_message(stamp: Seq<char>) -> Seq<char> {
    "<span class='time-success'>"@ + stamp + "</span> <span>Data sent to server</span>"@
}

/// The fragment for a failed report stamped `stamp`.
pub open spec fn failure_message(stamp: Seq<char>) -> Seq<char> {
    "<span class='time-error'>"@ + stamp + "</span> <span>Error sending data to server</span>"@
}

/// The fragment for a report stamped `stamp` that ended as `delivery`.
pub open spec fn message_for(delivery: Delivery, stamp: Seq<char>) -> Seq<char> {
    match delivery {
        Delivery::Delivered => success_message(stamp),
        Delivery::DeliveryFailed => failure_message(stamp),
    }
}

/// Whether `needle` stands somewhere in `text`, unbroken.
pub open spec fn occurs_in(needle: Seq<char>, text: Seq<char>) -> bool {
    exists|at: int| 0 <= at <= text.len() && needle.is_prefix_of(#[trigger] text.skip(at))
}

impl PresencePayload {
    /// The payload of a report made at `moment`.
    pub fn at(moment: &Moment) -> (made: PresencePayload)
        ensures
            made@.timestamp == moment@.local_text(),
    {
        PresencePayload { timestamp: moment.to_local_string() }
    }
}

impl NotificationPayload {
    /// The notification for a report made at `moment` that ended as `delivery`.
    pub fn reporting(delivery: Delivery, moment: &Moment) -> (made: NotificationPayload)
        ensures
            made@.message == message_for(delivery, moment@.rfc3339()),
    {
        let stamp = moment.to_rfc3339();
        let message = match delivery {
            Delivery::Delivered => {
                let mut text = String::from_str("<span class='time-success'>");
                text.append(stamp.as_str());
                text.append("</span> <span>Data sent to server</span>");
                text
            },
            Delivery::DeliveryFailed => {
                let mut text = String::from_str("<span class='time-error'>");
                text.append(stamp.as_str());
                text.append("</span> <span>Error sending data to server</span>");
                text
            },
        };
        NotificationPayload { message }
    }
}

/// A delivered report's fragment carries the `time-success` class and the words
/// "Data sent to server", whatever its timestamp.
pub proof fn lemma_success_message_is_marked(stamp: Seq<char>)
    ensures
        occurs_in(success_marker(), success_message(stamp)),
        occurs_in(success_words(), success_message(stamp)),
{
    reveal_strlit("time-success");
    reveal_strlit("Data sent to server");
    reveal_strlit("<span class='time-success'>");
    reveal_strlit("</span> <span>Data sent to server</span>");
    let text = success_message(stamp);
    assert(success_marker().is_prefix_of(text.skip(13)));
    assert(success_words().is_prefix_of(text.skip(41 + stamp.len() as int)));
}

/// A failed report's fragment carries the `time-error` class and the words
/// "Error sending data to server", whatever its timestamp.
pub proof fn lemma_failure_message_is_marked(stamp: Seq<char>)
    ensures
        occurs_in(error_marker(), failure_message(stamp)),
        occurs_in(failure_words(), failure_message(stamp)),
{
    reveal_strlit("time-error");
    reveal_strlit("Error sending data to server");
    reveal_strlit("<span class='time-error'>");
    reveal_strlit("</span> <span>Error sending data to server</span>");
    let text = failure_message(stamp);
    assert(error_marker().is_prefix_of(text.skip(13)));
    assert(failure_words().is_prefix_of(text.skip(39 + stamp.len() as int)));
}

/// Every fragment holds its timestamp whole, between the opening tag and the closing one.
pub proof fn lemma_message_embeds_stamp(delivery: Delivery, stamp: Seq<char>)
    ensures
        occurs_in(stamp, message_for(delivery, stamp)),
{
    reveal_strlit("<span class='time-success'>");
    reveal_strlit("<span class='time-error'>");
    let text = message_for(delivery, stamp);
    match delivery {
        Delivery::Delivered => {
            assert(stamp.is_prefix_of(text.skip(27)));
        },
        Delivery::DeliveryFailed => {
            assert(stamp.is_prefix_of(text.skip(25)));
        },
    }
}

} // verus!
