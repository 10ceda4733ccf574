//! The hour of the day, in a named time zone or in that of the machine.

use crate::text::optional_view;
use chrono::Timelike;
use vstd::prelude::*;

verus! {

/// First second that a date of `chrono` can hold: 1 January of the year -262143.
pub const MIN_UNIX_SECS: i64 = -8_334_601_228_800;

/// Last second that a date of `chrono` can hold: 31 December of the year 262142.
pub const MAX_UNIX_SECS: i64 = 8_210_266_876_799;

/// Whether a count of seconds since the Unix epoch is a date of `chrono`.
pub open spec fn is_unix_time(secs: int) -> bool {
    MIN_UNIX_SECS <= secs <= MAX_UNIX_SECS
}

/// Whether `chrono_tz` knows a time zone by this name.
pub uninterp spec fn is_zone_name(name: Seq<char>) -> bool;

/// The hour that the clocks of a zone of `chrono_tz` show at an instant, given
/// in seconds since the Unix epoch.
pub uninterp spec fn named_zone_hour(name: Seq<char>, secs: int) -> int;

/// `<chrono_tz::Tz as FromStr>::from_str`, which looks the name up in the table
/// of zones that the crate is built with. Whether it finds one depends on the
/// name alone.
#[verifier::external_body]
fn zone_is_known(name: &str) -> (known: bool)
    ensures
        known == is_zone_name(name@),
{
    name.parse::<chrono_tz::Tz>().is_ok()
}

/// `chrono::DateTime::with_timezone` to a zone of `chrono_tz`, and
/// `chrono::Timelike::hour`, which is from 0 to 23. The zone's rules are built
/// into `chrono_tz`, so the hour depends on the zone and the instant alone. The
/// sub-second part of an instant has no bearing on the hour.
#[verifier::external_body]
fn zone_hour(name: &str, secs: i64) -> (hour: u32)
    requires
        is_zone_name(name@),
        is_unix_time(secs as int),
    ensures
        hour == named_zone_hour(name@, secs as int),
        hour < 24,
{
    let zone: chrono_tz::Tz = name.parse().unwrap();
    chrono::DateTime::from_timestamp(secs, 0).unwrap().with_timezone(&zone).hour()
}

/// `chrono::DateTime::with_timezone` to `chrono::Local`, and
/// `chrono::Timelike::hour`, which is from 0 to 23. Which hour it is rests, besides
/// the instant, on the time zone that the machine is set to, so nothing more is
/// claimed.
#[verifier::external_body]
fn local_hour(secs: i64) -> (hour: u32)
    requires
        is_unix_time(secs as int),
    ensures
        hour < 24,
{
    chrono::DateTime::from_timestamp(secs, 0).unwrap().with_timezone(&chrono::Local).hour()
}

/// `chrono::Utc::now`, as whole seconds since the Unix epoch. It reads the
/// machine's clock, so which instant it is is not said: only that it is a date of
/// `chrono`. It does not return if the clock is set to before the epoch or past
/// the last such date, which no argument of a caller can bring about.
#[verifier::external_body]
fn utc_now() -> (secs: i64)
    ensures
        is_unix_time(secs as int),
{
    chrono::Utc::now().timestamp()
}

/// Whether an hour is one that the clocks of the machine can show at an instant:
/// one that converting the instant to the machine's own time zone can give.
pub closed spec fn machine_shows(secs: int, hour: u32) -> bool {
    exists|instant: i64|
        instant == secs && #[trigger] call_ensures(local_hour, (instant,), hour)
}

/// Whether an instant is one that reading the machine's clock can give.
pub closed spec fn read_by_clock(secs: int) -> bool {
    exists|instant: i64| instant == secs && #[trigger] call_ensures(utc_now, (), instant)
}

/// Whether an hour is one that clocks can show at an instant: in the given zone
/// if there is one of that name, and otherwise in the zone of the machine,
/// whichever that is.
pub open spec fn shows_hour(timezone: Option<Seq<char>>, secs: int, hour: u32) -> bool {
    &&& hour < 24
    &&& match timezone {
        Some(name) => if is_zone_name(name) {
            hour == named_zone_hour(name, secs)
        } else {
            machine_shows(secs, hour)
        },
        None => machine_shows(secs, hour),
    }
}

/// The instant that the machine's clock shows now, in whole seconds since the Unix
/// epoch. The clock has to be set to the epoch or later.
pub(crate) fn read_clock() -> (secs: i64)
    ensures
        read_by_clock(secs as int),
        is_unix_time(secs as int),
{
    utc_now()
}

/// The hour of the day at an instant in the given time zone, if there is one of
/// that name.
pub fn zone_hour_at(timezone: &Option<String>, secs: i64) -> (hour: Option<u32>)
    requires
        is_unix_time(secs as int),
    ensures
        match optional_view(*timezone) {
            Some(name) => if is_zone_name(name) {
                hour matches Some(shown) && shown == named_zone_hour(name, secs as int) && shown < 24
            } else {
                hour is None
            },
            None => hour is None,
        },
{
    match timezone {
        Some(name) => {
            if zone_is_known(name.as_str()) {
                Some(zone_hour(name.as_str(), secs))
            } else {
                None
            }
        },
        None => None,
    }
}

/// The hour of the day at an instant, in the given time zone. Without one, or if
/// there is none of that name, it is the hour in the zone of the machine; which
/// hour that is depends on how the machine is set up.
pub fn hour_at(timezone: &Option<String>, secs: i64) -> (hour: u32)
    requires
        is_unix_time(secs as int),
    ensures
        shows_hour(optional_view(*timezone), secs as int, hour),
        hour < 24,
        timezone matches Some(name) ==> is_zone_name(name@) ==> hour == named_zone_hour(
            name@,
            secs as int,
        ),
        timezone matches Some(name) ==> !is_zone_name(name@) ==> machine_shows(secs as int, hour),
        timezone is None ==> machine_shows(secs as int, hour),
{
    match zone_hour_at(timezone, secs) {
        Some(hour) => hour,
        None => local_hour(secs),
    }
}

/// In a zone that is known, the one hour that clocks show at an instant is the
/// zone's own at that very instant.
pub proof fn law_known_zone_sets_the_hour(name: Seq<char>, secs: int, hour: u32)
    requires
        is_zone_name(name),
        shows_hour(Some(name), secs, hour),
    ensures
        hour == named_zone_hour(name, secs),
{
}

/// Without a zone, or with a name that no zone has, the hours that clocks can show
/// at an instant are those of the machine at that very instant.
pub proof fn law_machine_sets_the_hour(name: Seq<char>, secs: int, hour: u32)
    requires
        !is_zone_name(name),
    ensures
        shows_hour(None, secs, hour) <==> hour < 24 && machine_shows(secs, hour),
        shows_hour(Some(name), secs, hour) <==> shows_hour(None, secs, hour),
{
}

/// An hour of the machine at an instant is what converting that very instant gives.
proof fn law_machine_hour_is_converted(secs: i64, hour: u32)
    ensures
        machine_shows(secs as int, hour) <==> call_ensures(local_hour, (secs,), hour),
{
}

/// An instant read by the clock is what the clock gave, unchanged.
proof fn law_clock_is_read_unchanged(secs: i64)
    ensures
        read_by_clock(secs as int) <==> call_ensures(utc_now, (), secs),
{
}

} // verus!
