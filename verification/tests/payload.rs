//! The request body and the notification, built by themselves.

use presence_report::clock::Moment;
use presence_report::payload::{Delivery, NotificationPayload, PresencePayload};

#[test]
fn presence_payload_carries_the_readable_time() {
    let moment = Moment::new(1_704_067_200, 0, 0).unwrap();
    assert_eq!(PresencePayload::at(&moment).timestamp, "2024-01-01 00:00:00 +00:00");
    let moment = Moment::new(1_704_067_200, 42_000_000, -12_600).unwrap();
    assert_eq!(PresencePayload::at(&moment).timestamp, "2023-12-31 20:30:00.042 -03:30");
}

#[test]
fn delivered_report_is_shown_as_success() {
    let moment = Moment::new(1_704_067_200, 0, 0).unwrap();
    let payload = NotificationPayload::reporting(Delivery::Delivered, &moment);
    assert_eq!(
        payload.message,
        "<span class='time-success'>2024-01-01T00:00:00+00:00</span> <span>Data sent to server</span>"
    );
}

#[test]
fn failed_report_is_shown_as_error() {
    let moment = Moment::new(1_704_067_200, 0, 0).unwrap();
    let payload = NotificationPayload::reporting(Delivery::DeliveryFailed, &moment);
    assert_eq!(
        payload.message,
        "<span class='time-error'>2024-01-01T00:00:00+00:00</span> <span>Error sending data to server</span>"
    );
}

#[test]
fn fragment_is_class_then_time_then_words() {
    let moment = Moment::new(1_719_835_200, 5_000, 32_400).unwrap();
    let stamp = moment.to_rfc3339();
    assert_eq!(stamp, "2024-07-01T21:00:00.000005+09:00");
    for (delivery, class, words) in [
        (Delivery::Delivered, "time-success", "Data sent to server"),
        (Delivery::DeliveryFailed, "time-error", "Error sending data to server"),
    ] {
        let message = NotificationPayload::reporting(delivery, &moment).message;
        assert_eq!(message, format!("<span class='{class}'>{stamp}</span> <span>{words}</span>"));
    }
}
