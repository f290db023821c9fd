use task_reminder::setting::{
    get_remind_later_impl, load_setting_impl, set_remind_later_impl, RemindLater, Setting,
};

fn setting(remind_time: u64) -> Setting {
    Setting { position: 0, remind_time, task_type: 1, path: "/cfg".to_string() }
}

#[test]
fn missing_settings_use_defaults() {
    let s = load_setting_impl("/home/u/.config/app".to_string(), None);
    assert_eq!(
        s,
        Setting { position: 3, remind_time: 60, task_type: 0, path: "/home/u/.config/app".to_string() }
    );
}

#[test]
fn persisted_settings_are_used() {
    assert_eq!(load_setting_impl("/x".to_string(), Some(setting(15))), setting(15));
}

#[test]
fn unset_override_uses_setting_default() {
    let later = RemindLater::new();
    assert_eq!(get_remind_later_impl(&later, &setting(45)), 45);
}

#[test]
fn remind_later_override_in_minutes() {
    let mut later = RemindLater::new();
    set_remind_later_impl(2, &mut later);
    assert_eq!(get_remind_later_impl(&later, &setting(45)), 120);
    set_remind_later_impl(0, &mut later);
    assert_eq!(get_remind_later_impl(&later, &setting(45)), 45);
}

#[test]
fn huge_override_saturates() {
    let mut later = RemindLater::new();
    set_remind_later_impl(u64::MAX, &mut later);
    assert_eq!(get_remind_later_impl(&later, &setting(45)), u64::MAX);
}

#[test]
fn override_minutes_only_when_set() {
    let mut later = RemindLater::new();
    assert_eq!(task_reminder::setting::override_minutes(&later), None);
    set_remind_later_impl(3, &mut later);
    assert_eq!(task_reminder::setting::override_minutes(&later), Some(180));
    set_remind_later_impl(u64::MAX, &mut later);
    assert_eq!(task_reminder::setting::override_minutes(&later), Some(u64::MAX));
}
