//! Settings that steer the matching and the notification decisions.

use vstd::prelude::*;

verus! {

/// Order of the two components of a date key: month first or day first.
#[derive(Clone, Copy, PartialEq, Eq, Structural)]
pub enum DateFormat {
    MonthDay,
    DayMonth,
}

/// The part of the record-source settings that the matching logic reads.
#[derive(Clone, Copy)]
pub struct CsvSettings {
    /// Character placed between the two zero-padded components of a date key.
    pub date_separator: char,
    /// Which component of a date key comes first.
    pub date_format: DateFormat,
}

/// One notification destination, resolved once from its three raw settings.
///
/// A destination is `Configured` exactly when it is enabled and both the
/// webhook URL and the channel id are present; in every other case the
/// message is only printed, never sent.
pub enum NotifyTarget {
    Configured { webhook_url: String, channel_id: String },
    Unconfigured,
}

/// Resolves the three raw settings of one destination into a `NotifyTarget`.
pub fn resolve_target(
    enabled: bool,
    webhook_url: Option<String>,
    channel_id: Option<String>,
) -> (r: NotifyTarget)
    ensures
        r is Configured <==> (enabled && webhook_url is Some && channel_id is Some),
        r matches NotifyTarget::Configured { webhook_url: u, channel_id: c } ==> webhook_url
            == Some(u) && channel_id == Some(c),
{
    if enabled {
        match (webhook_url, channel_id) {
            (Some(u), Some(c)) => NotifyTarget::Configured { webhook_url: u, channel_id: c },
            _ => NotifyTarget::Unconfigured,
        }
    } else {
        NotifyTarget::Unconfigured
    }
}

} // verus!
