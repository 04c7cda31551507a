//! Naming, rotation and retention of the daily log files.
//!
//! A log file is named `nobreak-YYYY-MM-DD.jsonl` after the UTC day of the
//! snapshots in it. Files whose day lies strictly before the cutoff are
//! expired; where the retention reaches back beyond the calendar there is no
//! cutoff, and nothing expires. Listing and removing files is the caller's
//! work; which names expire is decided here. The calendar itself is chrono's.

use chrono::Datelike;
use vstd::prelude::*;
use crate::snapshot::WallTime;
use crate::text::{ends_with, join3, opt_string_view, starts_with, str_eq, string_views};

verus! {

/// Seconds between two prunings.
pub const PRUNE_EVERY_SECS: u64 = 1800;

/// A day of the proleptic Gregorian calendar.
#[derive(Debug, Clone, Copy, PartialEq, Eq)]
pub struct CalendarDay {
    pub year: i32,
    pub month: u32,
    pub day: u32,
}

impl CalendarDay {
    /// Whether this day comes before `other`.
    pub open spec fn is_before(self, other: CalendarDay) -> bool {
        ||| self.year < other.year
        ||| self.year == other.year && self.month < other.month
        ||| self.year == other.year && self.month == other.month && self.day < other.day
    }

    /// Tests `is_before`.
    pub fn before(&self, other: &CalendarDay) -> (earlier: bool)
        ensures
            earlier == self.is_before(*other),
    {
        self.year < other.year || (self.year == other.year && (self.month < other.month || (
        self.month == other.month && self.day < other.day)))
    }
}

/// The day that chrono reads out of `text` under `format`, where it reads one.
pub uninterp spec fn parsed_date(text: Seq<char>, format: Seq<char>) -> Option<CalendarDay>;

/// The day that lies `days` days before `day` in chrono's calendar; none
/// where `day` is no date of that calendar or the result would leave its range.
pub uninterp spec fn date_minus_days(day: CalendarDay, days: u64) -> Option<CalendarDay>;

/// The UTC day that chrono places a timestamp in, where the timestamp is
/// within its range.
pub uninterp spec fn utc_date_of(unix_secs: i64, subsec_nanos: u32) -> Option<CalendarDay>;

/// The text that chrono writes for a timestamp's UTC time under `format`,
/// where the timestamp is within its range.
pub uninterp spec fn utc_text_of(unix_secs: i64, subsec_nanos: u32, format: Seq<char>) -> Option<
    Seq<char>,
>;

/// Calls chrono's `NaiveDate::parse_from_str` and hands out the year, month
/// and day of the date it returns. The format is held to the day format,
/// under which chrono tests every field before it computes with it. Nothing
/// is claimed of which texts parse, only that the answer is the one that
/// `parsed_date` names.
#[verifier::external_body]
fn parse_date(text: &str, format: &str) -> (day: Option<CalendarDay>)
    requires
        format@ == day_format(),
    ensures
        day == parsed_date(text@, format@),
{
    match chrono::NaiveDate::parse_from_str(text, format) {
        Ok(date) => Some(CalendarDay { year: date.year(), month: date.month(), day: date.day() }),
        Err(_) => None,
    }
}

/// Calls chrono's `NaiveDate::checked_sub_days` on the date that
/// `NaiveDate::from_ymd_opt` makes of `day`, and hands out the year, month
/// and day of the result. Nothing is claimed of the arithmetic, only that
/// the answer is the one that `date_minus_days` names.
#[verifier::external_body]
fn subtract_days(day: CalendarDay, days: u64) -> (earlier: Option<CalendarDay>)
    ensures
        earlier == date_minus_days(day, days),
{
    match chrono::NaiveDate::from_ymd_opt(day.year, day.month, day.day) {
        Some(date) => match date.checked_sub_days(chrono::Days::new(days)) {
            Some(d) => Some(CalendarDay { year: d.year(), month: d.month(), day: d.day() }),
            None => None,
        },
        None => None,
    }
}

/// Calls chrono's `DateTime::date_naive` on the UTC time that
/// `DateTime::from_timestamp` makes of `ts`, and hands out the year, month
/// and day of the date. Nothing is claimed of the calendar, only that the
/// answer is the one that `utc_date_of` names.
#[verifier::external_body]
fn utc_date(ts: WallTime) -> (day: Option<CalendarDay>)
    ensures
        day == utc_date_of(ts.unix_secs, ts.subsec_nanos),
{
    match chrono::DateTime::from_timestamp(ts.unix_secs, ts.subsec_nanos) {
        Some(time) => {
            let date = time.date_naive();
            Some(CalendarDay { year: date.year(), month: date.month(), day: date.day() })
        },
        None => None,
    }
}

/// Calls chrono's `DateTime::format` on the UTC time that
/// `DateTime::from_timestamp` makes of `ts`, and hands out the text. The
/// format is held to the day format, which chrono accepts. Nothing is
/// claimed of the text, only that it is the one that `utc_text_of` names.
#[verifier::external_body]
fn utc_text(ts: WallTime, format: &str) -> (text: Option<String>)
    requires
        format@ == day_format(),
    ensures
        opt_string_view(text) == utc_text_of(ts.unix_secs, ts.subsec_nanos, format@),
{
    match chrono::DateTime::from_timestamp(ts.unix_secs, ts.subsec_nanos) {
        Some(time) => Some(time.format(format).to_string()),
        None => None,
    }
}

/// The format that the day in a log file's name is written in.
pub open spec fn day_format() -> Seq<char> {
    "%Y-%m-%d"@
}

/// What a log file's name begins with.
pub open spec fn log_prefix() -> Seq<char> {
    "nobreak-"@
}

/// What a log file's name ends with.
pub open spec fn log_suffix() -> Seq<char> {
    ".jsonl"@
}

/// The name of the log file of the day written as `day_text`.
pub open spec fn log_file_name_of(day_text: Seq<char>) -> Seq<char> {
    log_prefix() + day_text + log_suffix()
}

/// The part of a log file's name that holds the day: what stands between
/// prefix and suffix. None where the name lacks either.
pub open spec fn log_day_text(name: Seq<char>) -> Option<Seq<char>> {
    if log_prefix().is_prefix_of(name) && log_suffix().is_suffix_of(name) && name.len()
        >= log_prefix().len() + log_suffix().len() {
        Some(name.subrange(log_prefix().len() as int, name.len() - log_suffix().len()))
    } else {
        None
    }
}

/// The day a file is the log of; none where the name is not a log file's
/// or its day does not parse.
pub open spec fn log_file_day(name: Seq<char>) -> Option<CalendarDay> {
    match log_day_text(name) {
        Some(text) => parsed_date(text, day_format()),
        None => None,
    }
}

/// The day before which log files expire: `retention_days` before `today`.
/// There is none where the calendar does not reach that far back: no day
/// is older than that.
pub open spec fn cutoff_of(today: CalendarDay, retention_days: u64) -> Option<CalendarDay> {
    date_minus_days(today, retention_days)
}

/// Whether a file of the given day, if it is a log file at all, has
/// expired: there is a cutoff, and the day lies strictly before it.
pub open spec fn day_expired(file_day: Option<CalendarDay>, cutoff: Option<CalendarDay>) -> bool {
    &&& file_day matches Some(day)
    &&& cutoff matches Some(limit)
    &&& day.is_before(limit)
}

/// Whether the file of this name has expired: it is a log file and its day
/// lies strictly before the cutoff.
pub open spec fn name_expired(name: Seq<char>, cutoff: Option<CalendarDay>) -> bool {
    day_expired(log_file_day(name), cutoff)
}

/// The expired among `names`, in the order given.
pub open spec fn expired_names(names: Seq<Seq<char>>, cutoff: Option<CalendarDay>) -> Seq<
    Seq<char>,
>
    decreases names.len(),
{
    if names.len() == 0 {
        Seq::empty()
    } else if name_expired(names.last(), cutoff) {
        expired_names(names.drop_last(), cutoff).push(names.last())
    } else {
        expired_names(names.drop_last(), cutoff)
    }
}

/// The name of the log file of a day.
pub fn log_file_name(day_text: &str) -> (name: String)
    ensures
        name@ == log_file_name_of(day_text@),
{
    join3("nobreak-", day_text, ".jsonl")
}

/// The day text of a timestamp, as log files are named after it; none where
/// the timestamp lies outside the calendar's range.
pub open spec fn log_day_of(ts: WallTime) -> Option<Seq<char>> {
    utc_text_of(ts.unix_secs, ts.subsec_nanos, day_format())
}

/// The day to rotate to: the snapshot's day where it is known and is not
/// the day of the open file.
pub open spec fn rotation_of(current_day: Seq<char>, snapshot_day: Option<Seq<char>>) -> Option<
    Seq<char>,
> {
    match snapshot_day {
        Some(day) => if day != current_day {
            Some(day)
        } else {
            None
        },
        None => None,
    }
}

/// The day text of a timestamp.
pub fn log_day(ts: WallTime) -> (day: Option<String>)
    ensures
        opt_string_view(day) == log_day_of(ts),
{
    utc_text(ts, "%Y-%m-%d")
}

/// Decides on a rotation from the day of the open file and the day of the
/// snapshot about to be written.
pub fn rotate_to(current_day: &str, snapshot_day: Option<String>) -> (next: Option<String>)
    ensures
        opt_string_view(next) == rotation_of(current_day@, opt_string_view(snapshot_day)),
{
    match snapshot_day {
        Some(day) => if needs_rotation(current_day, day.as_str()) {
            Some(day)
        } else {
            None
        },
        None => None,
    }
}

/// The day whose file a snapshot stamped `ts` has to go to, where that is
/// another than the open one.
pub fn rotation_target(current_day: &str, ts: WallTime) -> (next: Option<String>)
    ensures
        opt_string_view(next) == rotation_of(current_day@, log_day_of(ts)),
{
    rotate_to(current_day, log_day(ts))
}

/// Whether a snapshot of `snapshot_day` belongs in another file than the one
/// open for `current_day`.
pub fn needs_rotation(current_day: &str, snapshot_day: &str) -> (rotate: bool)
    ensures
        rotate == (current_day@ != snapshot_day@),
{
    !str_eq(current_day, snapshot_day)
}

/// Whether enough time has passed since the last pruning for another.
pub fn prune_is_due(secs_since_last: u64) -> (due: bool)
    ensures
        due == (secs_since_last >= PRUNE_EVERY_SECS),
{
    secs_since_last >= PRUNE_EVERY_SECS
}

/// Cuts the day out of a log file's name.
pub fn day_text_of_log_file(name: &str) -> (text: Option<&str>)
    ensures
        text is Some <==> log_day_text(name@) is Some,
        text matches Some(t) ==> Some(t@) == log_day_text(name@),
{
    proof {
        reveal_strlit("nobreak-");
        reveal_strlit(".jsonl");
    }
    let len: usize = name.unicode_len();
    if starts_with(name, "nobreak-") && ends_with(name, ".jsonl") && len >= 14 {
        Some(name.substring_char(8, len - 6))
    } else {
        None
    }
}

/// The day a file is the log of.
pub fn day_of_log_file(name: &str) -> (day: Option<CalendarDay>)
    ensures
        day == log_file_day(name@),
{
    match day_text_of_log_file(name) {
        Some(text) => parse_date(text, "%Y-%m-%d"),
        None => None,
    }
}

/// Whether a file of the given day has expired under the given cutoff.
pub fn is_day_expired(file_day: Option<CalendarDay>, cutoff: Option<CalendarDay>) -> (expired:
    bool)
    ensures
        expired == day_expired(file_day, cutoff),
{
    match (file_day, cutoff) {
        (Some(day), Some(limit)) => day.before(&limit),
        _ => false,
    }
}

/// The day before which log files expire, where there is one.
pub fn prune_cutoff(today: CalendarDay, retention_days: u64) -> (cutoff: Option<CalendarDay>)
    ensures
        cutoff == cutoff_of(today, retention_days),
{
    subtract_days(today, retention_days)
}

/// Picks the names to remove: the log files whose day lies strictly before
/// the cutoff, and none where there is no cutoff.
pub fn expired_log_files(names: &Vec<String>, cutoff: Option<CalendarDay>) -> (doomed: Vec<String>)
    ensures
        string_views(doomed@) == expired_names(string_views(names@), cutoff),
        cutoff is None ==> doomed@.len() == 0,
{
    let mut doomed: Vec<String> = Vec::new();
    let mut i: usize = 0;
    let ghost all = string_views(names@);
    assert(all.take(0) =~= Seq::<Seq<char>>::empty());
    assert(string_views(doomed@) =~= expired_names(all.take(0), cutoff));
    while i < names.len()
        invariant
            i <= names@.len(),
            all == string_views(names@),
            string_views(doomed@) == expired_names(all.take(i as int), cutoff),
            cutoff is None ==> doomed@.len() == 0,
        decreases names@.len() - i,
    {
        proof {
            assert(all.take(i + 1).drop_last() =~= all.take(i as int));
            assert(all.take(i + 1).last() == names@[i as int]@);
        }
        if is_day_expired(day_of_log_file(names[i].as_str()), cutoff) {
            let ghost before = string_views(doomed@);
            doomed.push(names[i].clone());
            assert(string_views(doomed@) =~= before.push(names@[i as int]@));
        }
        i = i + 1;
    }
    assert(all.take(i as int) =~= all);
    doomed
}

/// The names that a pruning at `now` removes from a listing, or none of an
/// answer where `now` lies outside the calendar's range.
pub open spec fn pruned_at(names: Seq<Seq<char>>, retention_days: u64, now: WallTime) -> Option<
    Seq<Seq<char>>,
> {
    match utc_date_of(now.unix_secs, now.subsec_nanos) {
        Some(today) => Some(expired_names(names, cutoff_of(today, retention_days))),
        None => None,
    }
}

/// Picks the names to remove from a directory's listing, `retention_days`
/// back from the UTC day of `now`.
pub fn prune_old_log_files(names: &Vec<String>, retention_days: u64, now: WallTime) -> (doomed:
    Option<Vec<String>>)
    ensures
        doomed is Some <==> pruned_at(string_views(names@), retention_days, now) is Some,
        doomed matches Some(list) ==> Some(string_views(list@)) == pruned_at(
            string_views(names@),
            retention_days,
            now,
        ),
{
    match utc_date(now) {
        Some(today) => Some(prune_from(names, retention_days, today)),
        None => None,
    }
}

/// Picks the names to remove from a directory's listing, `retention_days`
/// back from `today`: none where the calendar does not reach that far back.
pub fn prune_from(names: &Vec<String>, retention_days: u64, today: CalendarDay) -> (doomed: Vec<
    String,
>)
    ensures
        string_views(doomed@) == expired_names(
            string_views(names@),
            cutoff_of(today, retention_days),
        ),
        cutoff_of(today, retention_days) is None ==> doomed@.len() == 0,
{
    expired_log_files(names, prune_cutoff(today, retention_days))
}

/// Without a cutoff nothing expires, whatever the listing holds.
pub proof fn lemma_nothing_expires_without_cutoff(names: Seq<Seq<char>>)
    ensures
        expired_names(names, None) == Seq::<Seq<char>>::empty(),
    decreases names.len(),
{
    if names.len() > 0 {
        lemma_nothing_expires_without_cutoff(names.drop_last());
    }
}

/// A retention that reaches back beyond the calendar removes nothing: where
/// today is known and no day lies `retention_days` before it, the pruning
/// has an answer, and the answer is empty.
pub proof fn lemma_endless_retention_keeps_all(
    names: Seq<Seq<char>>,
    retention_days: u64,
    now: WallTime,
)
    requires
        utc_date_of(now.unix_secs, now.subsec_nanos) matches Some(today) && date_minus_days(
            today,
            retention_days,
        ) is None,
    ensures
        pruned_at(names, retention_days, now) == Some(Seq::<Seq<char>>::empty()),
{
    lemma_nothing_expires_without_cutoff(names);
}

/// A file whose day is the cutoff itself, or later, is kept; so is every
/// file that is no log file or whose day does not parse; and so is every
/// file where there is no cutoff.
pub proof fn lemma_kept(name: Seq<char>, cutoff: Option<CalendarDay>)
    ensures
        cutoff is Some && log_file_day(name) == cutoff ==> !name_expired(name, cutoff),
        log_file_day(name) is None ==> !name_expired(name, cutoff),
        log_day_text(name) is None ==> !name_expired(name, cutoff),
        cutoff is None ==> !name_expired(name, cutoff),
        (log_file_day(name) matches Some(day) && cutoff matches Some(limit) && !day.is_before(
            limit,
        )) ==> !name_expired(name, cutoff),
{
}

/// Exactly the expired names are picked: every picked name is among the
/// names and has expired, and every expired name among them is picked.
pub proof fn lemma_expired_names_exact(
    names: Seq<Seq<char>>,
    cutoff: Option<CalendarDay>,
    name: Seq<char>,
)
    ensures
        expired_names(names, cutoff).contains(name) <==> names.contains(name) && name_expired(
            name,
            cutoff,
        ),
    decreases names.len(),
{
    if names.len() > 0 {
        let rest = names.drop_last();
        lemma_expired_names_exact(rest, cutoff, name);
        if names.contains(name) {
            let at = choose|i: int| 0 <= i < names.len() && names[i] == name;
            if at < names.len() - 1 {
                assert(rest[at] == name);
            }
        }
        if rest.contains(name) {
            let at = choose|i: int| 0 <= i < rest.len() && rest[i] == name;
            assert(names[at] == name);
        }
        assert(names[names.len() - 1] == names.last());
        if name_expired(names.last(), cutoff) {
            let picked = expired_names(rest, cutoff);
            assert(picked.push(names.last())[picked.len() as int] == names.last());
            if picked.push(names.last()).contains(name) {
                let at = choose|i: int|
                    0 <= i < picked.push(names.last()).len() && picked.push(names.last())[i]
                        == name;
                if at < picked.len() {
                    assert(picked[at] == name);
                }
            }
            if picked.contains(name) {
                let at = choose|i: int| 0 <= i < picked.len() && picked[i] == name;
                assert(picked.push(names.last())[at] == name);
            }
        }
    }
}

/// The day text that a log file's name was made of is the one read back
/// out of it.
pub proof fn lemma_log_file_name_round_trip(day_text: Seq<char>)
    ensures
        log_day_text(log_file_name_of(day_text)) == Some(day_text),
        log_file_day(log_file_name_of(day_text)) == parsed_date(day_text, day_format()),
{
    reveal_strlit("nobreak-");
    reveal_strlit(".jsonl");
    let name = log_file_name_of(day_text);
    assert(name.subrange(0, 8) =~= log_prefix());
    assert(name.subrange(name.len() - 6, name.len() as int) =~= log_suffix());
    assert(name.subrange(8, name.len() - 6) =~= day_text);
}

} // verus!
