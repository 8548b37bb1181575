//! How developments read.

use vstd::prelude::*;
use vstd::string::StringExecFns;

use crate::model::state::BulletinCategory;
use crate::model::units::UtcSeconds;
use crate::text::{decimal, decimal_text};
use crate::ui::calendar::{seconds_between, seconds_until};
use crate::ui::style::{plain, Style, Tone};

verus! {

pub open spec fn category_text(category: BulletinCategory) -> Seq<char> {
    match category {
        BulletinCategory::Local => "LOCAL"@,
        BulletinCategory::Authority => "AUTHORITY"@,
        BulletinCategory::Construction => "CONSTRUCTION"@,
        BulletinCategory::Network => "NETWORK"@,
    }
}

pub fn category_label(category: BulletinCategory) -> (result: &'static str)
    ensures
        result@ == category_text(category),
{
    match category {
        BulletinCategory::Local => "LOCAL",
        BulletinCategory::Authority => "AUTHORITY",
        BulletinCategory::Construction => "CONSTRUCTION",
        BulletinCategory::Network => "NETWORK",
    }
}

pub open spec fn category_tone(category: BulletinCategory) -> Style {
    match category {
        BulletinCategory::Local => plain(Tone::PrimaryValue),
        BulletinCategory::Authority => plain(Tone::FocusedTitle),
        BulletinCategory::Construction => plain(Tone::Warning),
        BulletinCategory::Network => plain(Tone::Success),
    }
}

pub fn category_style(category: BulletinCategory) -> (result: Style)
    ensures
        result == category_tone(category),
{
    match category {
        BulletinCategory::Local => Style::plain(Tone::PrimaryValue),
        BulletinCategory::Authority => Style::plain(Tone::FocusedTitle),
        BulletinCategory::Construction => Style::plain(Tone::Warning),
        BulletinCategory::Network => Style::plain(Tone::Success),
    }
}

/// The age of a development in its largest unit; what lies ahead counts as now.
pub open spec fn age_text(time: UtcSeconds, now: UtcSeconds) -> Seq<char> {
    let seconds = seconds_until(now, time);
    if seconds < 60 {
        "now"@
    } else if seconds < 3_600 {
        decimal((seconds / 60) as nat) + "m ago"@
    } else if seconds < 86_400 {
        decimal((seconds / 3_600) as nat) + "h ago"@
    } else {
        decimal((seconds / 86_400) as nat) + "d ago"@
    }
}

pub fn relative_time(time: UtcSeconds, now: UtcSeconds) -> (result: String)
    ensures
        result@ == age_text(time, now),
{
    let seconds: i64 = seconds_between(now, time);
    if seconds < 60 {
        "now".to_owned()
    } else if seconds < 3_600 {
        decimal_text((seconds / 60) as u64).concat("m ago")
    } else if seconds < 86_400 {
        decimal_text((seconds / 3_600) as u64).concat("h ago")
    } else {
        decimal_text((seconds / 86_400) as u64).concat("d ago")
    }
}

} // verus!
