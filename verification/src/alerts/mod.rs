//! Website alerts: the stored alert record, the `alerts` command, fetching a
//! watched value and deciding when an alert is due.
use vstd::prelude::*;
use crate::text::owned;

pub mod commands;
pub mod fetcher;
pub mod scheduler;

verus! {

/// A watched element on a web page and where to report its changes.
#[derive(Debug, Clone)]
pub struct Alert {
    pub name: String,
    pub url: String,
    pub css: String,
    pub property: String,
    pub schedule: String,
    pub room_id: String,
    pub creator: String,
    pub last_value: Option<String>,
    pub last_checked: Option<i64>,
    pub enabled: bool,
    pub created_at: i64,
}

/// An alert as plain values.
pub struct AlertView {
    pub name: Seq<char>,
    pub url: Seq<char>,
    pub css: Seq<char>,
    pub property: Seq<char>,
    pub schedule: Seq<char>,
    pub room_id: Seq<char>,
    pub creator: Seq<char>,
    pub last_value: Option<Seq<char>>,
    pub last_checked: Option<i64>,
    pub enabled: bool,
    pub created_at: i64,
}

impl View for Alert {
    type V = AlertView;

    open spec fn view(&self) -> AlertView {
        AlertView {
            name: self.name@,
            url: self.url@,
            css: self.css@,
            property: self.property@,
            schedule: self.schedule@,
            room_id: self.room_id@,
            creator: self.creator@,
            last_value: match self.last_value {
                Some(v) => Some(v@),
                None => None,
            },
            last_checked: self.last_checked,
            enabled: self.enabled,
            created_at: self.created_at,
        }
    }
}

pub open spec fn alert_views(v: Seq<Alert>) -> Seq<AlertView> {
    v.map_values(|a: Alert| a@)
}

fn copy_opt(o: &Option<String>) -> (r: Option<String>)
    ensures
        r == *o,
{
    match o {
        Some(s) => Some(s.clone()),
        None => None,
    }
}

/// A field-for-field copy of `a`.
pub fn copy_alert(a: &Alert) -> (r: Alert)
    ensures
        r == *a,
{
    Alert {
        name: a.name.clone(),
        url: a.url.clone(),
        css: a.css.clone(),
        property: a.property.clone(),
        schedule: a.schedule.clone(),
        room_id: a.room_id.clone(),
        creator: a.creator.clone(),
        last_value: copy_opt(&a.last_value),
        last_checked: a.last_checked,
        enabled: a.enabled,
        created_at: a.created_at,
    }
}

/// The column of the alert table that `update_field` may write for `field`:
/// only `url`, `css`, `property`, `schedule` and `room_id` are writable.
pub open spec fn column_spec(field: Seq<char>) -> Option<Seq<char>> {
    if field == "url"@ || field == "css"@ || field == "property"@ || field == "schedule"@
        || field == "room_id"@ {
        Some(field)
    } else {
        None
    }
}

/// The writable column named `field`, or `None` for any other name.
pub fn writable_column(field: &str) -> (r: Option<String>)
    ensures
        match r {
            Some(c) => column_spec(field@) == Some(c@),
            None => column_spec(field@) is None,
        },
{
    let f = owned(field);
    if f == owned("url") || f == owned("css") || f == owned("property") || f == owned("schedule")
        || f == owned("room_id") {
        Some(f)
    } else {
        None
    }
}

} // verus!
