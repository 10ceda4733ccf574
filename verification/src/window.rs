//! The hours in which inference is allowed.

use vstd::prelude::*;

verus! {

/// The daily window of hours in which requests may go out.
#[derive(Debug)]
pub struct InferenceWindowConfig {
    /// Whether the window is in force at all.
    pub enabled: bool,
    /// First hour of the window, from 0 to 23.
    pub start_hour: u32,
    /// The hour at which the window closes. If it does not come after
    /// `start_hour`, the window goes on past midnight.
    pub end_hour: u32,
    /// Name of the time zone in which the hours are read. The zone of the machine
    /// if there is none.
    pub timezone: Option<String>,
}

impl Clone for InferenceWindowConfig {
    fn clone(&self) -> (copy: InferenceWindowConfig)
        ensures
            copy == *self,
    {
        InferenceWindowConfig {
            enabled: self.enabled,
            start_hour: self.start_hour,
            end_hour: self.end_hour,
            timezone: match &self.timezone {
                Some(name) => Some(name.clone()),
                None => None,
            },
        }
    }
}

impl InferenceWindowConfig {
    /// Whether an hour lies in the window, which runs from its first hour up to,
    /// and without, its closing hour.
    pub open spec fn in_window(&self, hour: u32) -> bool {
        if self.start_hour < self.end_hour {
            self.start_hour <= hour < self.end_hour
        } else {
            self.start_hour <= hour || hour < self.end_hour
        }
    }

    /// Whether a request may go out at this hour.
    pub open spec fn lets_through(&self, hour: u32) -> bool {
        !self.enabled || self.in_window(hour)
    }

    /// Check if an hour lies in the window.
    pub fn is_allowed_hour(&self, hour: u32) -> (allowed: bool)
        ensures
            allowed == self.in_window(hour),
    {
        if self.start_hour < self.end_hour {
            self.start_hour <= hour && hour < self.end_hour
        } else {
            self.start_hour <= hour || hour < self.end_hour
        }
    }
}

/// The window is open at its first hour, as the notice of a pause says.
pub proof fn law_open_at_start_hour(config: InferenceWindowConfig)
    ensures
        config.in_window(config.start_hour),
{
}

/// A window that closes one hour after it opens, past midnight if need be, holds
/// its first hour and no other.
pub proof fn law_one_hour_window(config: InferenceWindowConfig, hour: u32)
    requires
        config.start_hour < 24,
        config.end_hour == (config.start_hour + 1) % 24,
        hour < 24,
    ensures
        config.in_window(hour) <==> hour == config.start_hour,
{
}

/// The window runs on without a break from its first hour up to its closing hour,
/// and stays closed from there up to its first hour, however long either takes: it
/// is open at the first hour and closed at the closing hour, and from one hour to
/// the next it changes only where the next is one of these two.
pub proof fn law_changes_only_at_its_ends(config: InferenceWindowConfig, hour: u32)
    requires
        config.start_hour != config.end_hour,
        hour < u32::MAX,
    ensures
        config.in_window(config.start_hour),
        !config.in_window(config.end_hour),
        hour + 1 == config.start_hour ==> !config.in_window(hour),
        hour + 1 == config.end_hour ==> config.in_window(hour),
        hour + 1 != config.start_hour && hour + 1 != config.end_hour ==> (config.in_window(hour)
            <==> config.in_window((hour + 1) as u32)),
{
}

/// The same around the clock, where midnight follows the last hour of the day: an
/// open hour is followed by an open one unless that is the closing hour, and a
/// closed hour by a closed one unless that is the first hour.
pub proof fn law_runs_around_the_clock(config: InferenceWindowConfig, hour: u32)
    requires
        config.start_hour < 24,
        config.end_hour < 24,
        config.start_hour != config.end_hour,
        hour < 24,
    ensures
        ({
            let next = ((hour + 1) % 24) as u32;
            &&& config.in_window(hour) ==> (config.in_window(next) <==> next != config.end_hour)
            &&& !config.in_window(hour) ==> (config.in_window(next) <==> next == config.start_hour)
        }),
{
}

/// A window that closes at the hour at which it opens is never closed.
pub proof fn law_full_day_window(config: InferenceWindowConfig, hour: u32)
    requires
        config.start_hour == config.end_hour,
    ensures
        config.in_window(hour),
{
}

/// A window lets requests through as long as it is open, and one that is not in
/// force lets them through at any hour.
pub proof fn law_lets_through(config: InferenceWindowConfig, hour: u32)
    ensures
        config.in_window(hour) ==> config.lets_through(hour),
        !config.enabled ==> config.lets_through(hour),
        config.enabled && !config.in_window(hour) ==> !config.lets_through(hour),
{
}

} // verus!
