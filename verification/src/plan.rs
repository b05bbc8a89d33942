//! The run's decisions: which messages exist, what they say, and whether each
//! one is sent besides being printed.

use vstd::prelude::*;
use crate::config::{CsvSettings, NotifyTarget};
use crate::datekey::date_key_seq;
use crate::dates::{compute_keys, plus_days_md, valid_ymd, year_in_range};
use crate::formatter::{
    birthday_prefix, formatted_message, slack_format, tags_of, today_prefix, warning_prefix,
    warning_prefix_seq,
};
use crate::matcher::{match_dates, today_matches, upcoming_matches, BirthdayRow};

verus! {

/// One planned notification: the text to print, and — only when the
/// destination is configured — the webhook URL and channel id to send it to.
pub struct MessagePlan {
    pub text: String,
    pub send: Option<(String, String)>,
}

/// Plans the today-group message: none for an empty group; otherwise the
/// pluralized prefix followed by the mention list, sent exactly when the
/// destination is configured.
pub fn plan_today(group: Vec<BirthdayRow>, target: NotifyTarget) -> (r: Option<MessagePlan>)
    ensures
        r is Some <==> group@.len() > 0,
        r matches Some(p) ==> p.text@ == formatted_message(
            today_prefix(group@.len() as int),
            tags_of(group@),
        ),
        r matches Some(p) ==> (p.send is Some <==> target is Configured),
        r matches Some(p) ==> (target matches NotifyTarget::Configured {
            webhook_url: u,
            channel_id: c,
        } ==> p.send == Some((u, c))),
{
    if group.len() == 0 {
        return None;
    }
    let prefix = birthday_prefix(group.len());
    let text = slack_format(group, prefix.as_str());
    let send = match target {
        NotifyTarget::Configured { webhook_url, channel_id } => Some((webhook_url, channel_id)),
        NotifyTarget::Unconfigured => None,
    };
    Some(MessagePlan { text, send })
}

/// Plans the upcoming-group message: none for an empty group; otherwise the
/// warning prefix naming the offset followed by the mention list, sent
/// exactly when the destination is configured.
pub fn plan_upcoming(group: Vec<BirthdayRow>, warning_days: u8, target: NotifyTarget) -> (r:
    Option<MessagePlan>)
    ensures
        r is Some <==> group@.len() > 0,
        r matches Some(p) ==> p.text@ == formatted_message(
            warning_prefix_seq(warning_days as int),
            tags_of(group@),
        ),
        r matches Some(p) ==> (p.send is Some <==> target is Configured),
        r matches Some(p) ==> (target matches NotifyTarget::Configured {
            webhook_url: u,
            channel_id: c,
        } ==> p.send == Some((u, c))),
{
    if group.len() == 0 {
        return None;
    }
    let prefix = warning_prefix(warning_days);
    let text = slack_format(group, prefix.as_str());
    let send = match target {
        NotifyTarget::Configured { webhook_url, channel_id } => Some((webhook_url, channel_id)),
        NotifyTarget::Unconfigured => None,
    };
    Some(MessagePlan { text, send })
}

/// Plans one whole run for the date `(y, m, d)`: renders both keys, partitions
/// the records, and plans the two messages. A group without matches yields no
/// message and so no send; a planned message carries its destination exactly
/// when that destination is configured.
pub fn plan_run(
    records: Vec<BirthdayRow>,
    y: i32,
    m: u8,
    d: u8,
    warning_days: u8,
    cfg: &CsvSettings,
    slack_target: NotifyTarget,
    warning_target: NotifyTarget,
) -> (r: (Option<MessagePlan>, Option<MessagePlan>))
    requires
        valid_ymd(y as int, m as int, d as int),
        year_in_range(y as int),
    ensures
        ({
            let tkey = date_key_seq(m as int, d as int, cfg.date_separator, cfg.date_format);
            let wmd = plus_days_md(y as int, m as int, d as int, warning_days as int);
            let wkey = date_key_seq(wmd.0, wmd.1, cfg.date_separator, cfg.date_format);
            let today = today_matches(records@, tkey);
            let upcoming = upcoming_matches(records@, tkey, wkey);
            &&& (r.0 is Some <==> today.len() > 0)
            &&& (r.1 is Some <==> upcoming.len() > 0)
            &&& (r.0 matches Some(p) ==> p.text@ == formatted_message(
                today_prefix(today.len() as int),
                tags_of(today),
            ))
            &&& (r.1 matches Some(p) ==> p.text@ == formatted_message(
                warning_prefix_seq(warning_days as int),
                tags_of(upcoming),
            ))
            &&& (r.0 matches Some(p) ==> (p.send is Some <==> slack_target is Configured))
            &&& (r.1 matches Some(p) ==> (p.send is Some <==> warning_target is Configured))
            &&& (r.0 matches Some(p) ==> (slack_target matches NotifyTarget::Configured {
                webhook_url: u,
                channel_id: c,
            } ==> p.send == Some((u, c))))
            &&& (r.1 matches Some(p) ==> (warning_target matches NotifyTarget::Configured {
                webhook_url: u,
                channel_id: c,
            } ==> p.send == Some((u, c))))
        }),
{
    let (today_key, warning_key) = compute_keys(y, m, d, warning_days, cfg);
    let (current_birthdays, upcoming_birthdays) = match_dates(records, &today_key, &warning_key);
    let today_plan = plan_today(current_birthdays, slack_target);
    let upcoming_plan = plan_upcoming(upcoming_birthdays, warning_days, warning_target);
    (today_plan, upcoming_plan)
}

} // verus!
