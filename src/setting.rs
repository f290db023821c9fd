use vstd::prelude::*;

verus! {

/// Where the popup sits on screen, in the persisted settings.
pub const BOTTOM_RIGHT: u32 = 3;

/// Reminder interval, in minutes, when nothing was persisted.
pub const DEFAULT_REMIND_MINUTES: u64 = 60;

/// Task grouping by time, in the persisted settings.
pub const GROUP_BY_TIME: u32 = 0;

/// Persisted user settings.
#[derive(Clone, Debug, PartialEq, Eq)]
pub struct Setting {
    /// 0 top left, 1 bottom left, 2 top right, 3 bottom right.
    pub position: u32,
    /// Default reminder interval, in minutes.
    pub remind_time: u64,
    /// 0 groups tasks by time, 1 by task.
    pub task_type: u32,
    /// Directory that holds the configuration files.
    pub path: String,
}

/// Outcome of saving the settings.
#[derive(Clone, Debug, PartialEq, Eq)]
pub struct SaveResult {
    pub success: bool,
}

/// The settings in effect: those persisted, or the defaults when no settings
/// document exists yet (`config_dir` is the configuration directory).
pub open spec fn effective_setting(config_dir: String, persisted: Option<Setting>) -> Setting {
    match persisted {
        Some(s) => s,
        None => Setting {
            position: BOTTOM_RIGHT,
            remind_time: DEFAULT_REMIND_MINUTES,
            task_type: GROUP_BY_TIME,
            path: config_dir,
        },
    }
}

/// The settings in effect, given what the settings document held (`None`
/// when it does not exist).
pub fn load_setting_impl(config_dir: String, persisted: Option<Setting>) -> (r: Setting)
    ensures
        r == effective_setting(config_dir, persisted),
{
    match persisted {
        Some(s) => s,
        None => Setting {
            position: BOTTOM_RIGHT,
            remind_time: DEFAULT_REMIND_MINUTES,
            task_type: GROUP_BY_TIME,
            path: config_dir,
        },
    }
}

/// The process-wide "remind later" override, in hours; 0 means unset, so
/// that the persisted default applies.
#[derive(Clone, Debug, PartialEq, Eq)]
pub struct RemindLater {
    pub hours: u64,
}

impl RemindLater {
    /// No override set.
    pub fn new() -> (r: RemindLater)
        ensures
            r.hours == 0,
    {
        RemindLater { hours: 0 }
    }
}

/// A count of minutes that saturates at the largest `u64`.
pub open spec fn saturating_minutes(hours: u64) -> u64 {
    if hours * 60 <= u64::MAX {
        (hours * 60) as u64
    } else {
        u64::MAX
    }
}

/// The reminder interval in minutes: the override when one is set,
/// otherwise the persisted default.
pub open spec fn remind_minutes(later: RemindLater, setting: Setting) -> u64 {
    if later.hours == 0 {
        setting.remind_time
    } else {
        saturating_minutes(later.hours)
    }
}

/// Set the "remind later" override; 0 clears it. The caller hides the popup.
pub fn set_remind_later_impl(hours: u64, later: &mut RemindLater)
    ensures
        final(later).hours == hours,
{
    later.hours = hours;
}

/// The reminder interval in minutes when an override is set; nothing when
/// the persisted default applies, so that the settings need to be read only
/// then.
pub fn override_minutes(later: &RemindLater) -> (r: Option<u64>)
    ensures
        r == if later.hours == 0 {
            None
        } else {
            Some(saturating_minutes(later.hours))
        },
        r is Some ==> forall|s: Setting| r == Some(#[trigger] remind_minutes(*later, s)),
{
    if later.hours == 0 {
        None
    } else if later.hours > u64::MAX / 60 {
        Some(u64::MAX)
    } else {
        Some(later.hours * 60)
    }
}

/// The reminder interval in minutes, read once per popup cycle.
pub fn get_remind_later_impl(later: &RemindLater, setting: &Setting) -> (r: u64)
    ensures
        r == remind_minutes(*later, *setting),
{
    if later.hours == 0 {
        setting.remind_time
    } else if later.hours > u64::MAX / 60 {
        u64::MAX
    } else {
        later.hours * 60
    }
}

} // verus!
