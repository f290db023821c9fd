use task_reminder::window_manager::{
    start_cycle, step, PopupAction, PopupEvent, PopupState, EMPTY_BACKOFF_MS,
};

fn poll(visible: Option<bool>, now_ms: u64) -> PopupEvent {
    PopupEvent::Window { visible, now_ms }
}

fn counting(start_ms: u64, interval_ms: u64) -> PopupState {
    PopupState::CountingDown { start_ms, interval_ms }
}

#[test]
fn starts_by_polling_window() {
    assert_eq!(start_cycle(), (PopupState::WaitHidden, PopupAction::PollWindow { after_ms: 0 }));
}

#[test]
fn visible_window_polls_every_second() {
    let r = step(PopupState::WaitHidden, poll(Some(true), 5));
    assert_eq!(r, (PopupState::WaitHidden, PopupAction::PollWindow { after_ms: 1000 }));
}

#[test]
fn missing_window_retries_after_a_second() {
    let r = step(PopupState::WaitHidden, poll(None, 5));
    assert_eq!(r, (PopupState::WaitHidden, PopupAction::PollWindow { after_ms: 1000 }));
}

#[test]
fn hidden_window_queries_tasks() {
    let r = step(PopupState::WaitHidden, poll(Some(false), 5));
    assert_eq!(r, (PopupState::CheckTasks, PopupAction::LoadTasks));
}

#[test]
fn no_tasks_backs_off_then_requeries() {
    let (s, a) = step(PopupState::CheckTasks, PopupEvent::Tasks { count: 0 });
    assert_eq!((s, a), (PopupState::WaitHidden, PopupAction::PollWindow { after_ms: 60000 }));
    assert_eq!(EMPTY_BACKOFF_MS, 60000);
    let (s, a) = step(s, poll(Some(false), 60000));
    assert_eq!((s, a), (PopupState::CheckTasks, PopupAction::LoadTasks));
}

#[test]
fn tasks_lead_to_countdown() {
    let (s, a) = step(PopupState::CheckTasks, PopupEvent::Tasks { count: 3 });
    assert_eq!((s, a), (PopupState::AwaitInterval, PopupAction::ReadInterval));
    let (s, a) = step(s, PopupEvent::Interval { minutes: 2, now_ms: 1000 });
    assert_eq!((s, a), (counting(1000, 120000), PopupAction::PollWindow { after_ms: 0 }));
}

#[test]
fn countdown_reveals_after_interval() {
    let s = counting(1000, 60000);
    let r = step(s, poll(Some(false), 60999));
    assert_eq!(r, (s, PopupAction::PollWindow { after_ms: 200 }));
    let r = step(s, poll(Some(false), 61000));
    assert_eq!(r, (PopupState::WaitHidden, PopupAction::Reveal));
}

#[test]
fn visible_during_countdown_abandons_cycle() {
    let s = counting(1000, 60000);
    let (s, a) = step(s, poll(Some(true), 30000));
    assert_eq!((s, a), (PopupState::WaitHidden, PopupAction::PollWindow { after_ms: 0 }));
    let (s, a) = step(s, poll(Some(false), 70000));
    assert_eq!((s, a), (PopupState::CheckTasks, PopupAction::LoadTasks));
}

#[test]
fn visible_at_deadline_skips_popup() {
    let r = step(counting(1000, 60000), poll(Some(true), 61000));
    assert_eq!(r, (PopupState::WaitHidden, PopupAction::PollWindow { after_ms: 0 }));
}

#[test]
fn missing_window_during_countdown_abandons_cycle() {
    let r = step(counting(1000, 60000), poll(None, 61000));
    assert_eq!(r, (PopupState::WaitHidden, PopupAction::PollWindow { after_ms: 1000 }));
}

#[test]
fn unexpected_event_repeats_request() {
    let r = step(PopupState::CheckTasks, poll(Some(false), 1));
    assert_eq!(r, (PopupState::CheckTasks, PopupAction::LoadTasks));
    let r = step(PopupState::AwaitInterval, PopupEvent::Tasks { count: 1 });
    assert_eq!(r, (PopupState::AwaitInterval, PopupAction::ReadInterval));
    let r = step(PopupState::WaitHidden, PopupEvent::Tasks { count: 1 });
    assert_eq!(r, (PopupState::WaitHidden, PopupAction::PollWindow { after_ms: 0 }));
}

#[test]
fn interval_saturates() {
    let r = step(PopupState::AwaitInterval, PopupEvent::Interval { minutes: u64::MAX, now_ms: 7 });
    assert_eq!(r, (counting(7, u64::MAX), PopupAction::PollWindow { after_ms: 0 }));
}

#[test]
fn clock_reading_earlier_counts_as_no_time() {
    let s = counting(5000, 1);
    assert_eq!(step(s, poll(Some(false), 10)), (s, PopupAction::PollWindow { after_ms: 200 }));
}

#[test]
fn zero_interval_reveals_at_first_hidden_poll() {
    let (s, _) = step(PopupState::AwaitInterval, PopupEvent::Interval { minutes: 0, now_ms: 50 });
    assert_eq!(step(s, poll(Some(false), 50)), (PopupState::WaitHidden, PopupAction::Reveal));
}
