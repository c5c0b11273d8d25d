//! Presence reporting for a desktop tray utility.
//!
//! While the user is at the machine, the utility tells a server so from time to time and
//! shows in its window how that went. This library holds the deciding: when a report is
//! due, what is sent, and what is shown for each outcome. Sending and showing are left to
//! the application around it.
//!
//! - [`idle`]: how long the user may be away and still count as present.
//! - [`clock`]: moments of local time and their two texts.
//! - [`payload`]: the request body and the notification.
//! - [`report`]: one report as a machine of states, events and actions.
//! - [`run`]: what holds of every report, proved.

pub mod clock;
pub mod idle;
pub mod payload;
pub mod report;
pub mod run;
