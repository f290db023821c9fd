use task_reminder::auth::{init_auth_info, AuthCache, AuthInfo, User};
use task_reminder::task_manager::{
    get_search_condition, load_tasks_impl, task_count, SaveResult, Task, TaskFilter, TaskList,
    TaskParams, Time,
};

fn credential() -> AuthInfo {
    AuthInfo {
        access_token: "tok".to_string(),
        bot_id: "bot".to_string(),
        duplicated_template_id: "db-1".to_string(),
        user: User {
            id: "u".to_string(),
            object: "user".to_string(),
            name: None,
            user_type: None,
            avatar_url: None,
            person: None,
        },
        refresh_token: None,
        request_id: "r".to_string(),
        token_type: "bearer".to_string(),
        workspace_icon: None,
        workspace_id: "w".to_string(),
        workspace_name: "W".to_string(),
    }
}

fn empty_result(success: bool) -> SaveResult {
    SaveResult { success, error: None, id: None, tasks: None, status: None, pages: None, tags: None }
}

fn task(id: &str) -> Task {
    Task {
        id: id.to_string(),
        text: "write report".to_string(),
        percent: 10,
        status: "Not started".to_string(),
        time: Time { start: "2024-05-01".to_string(), end: None, time_zone: None },
        tags: Some(vec!["work".to_string()]),
    }
}

fn strings(v: &[&str]) -> Vec<String> {
    v.iter().map(|s| s.to_string()).collect()
}

#[test]
fn query_without_credential_is_unauthorized() {
    let mut cache = AuthCache::new();
    init_auth_info(&mut cache, Ok(None));
    let r = load_tasks_impl(&cache);
    let mut expected = empty_result(false);
    expected.status = Some("unauthorized".to_string());
    assert_eq!(r, Err(expected));
}

#[test]
fn query_with_credential_uses_it() {
    let mut cache = AuthCache::new();
    init_auth_info(&mut cache, Ok(Some(credential())));
    assert_eq!(load_tasks_impl(&cache), Ok(credential()));
}

#[test]
fn task_count_of_successful_query() {
    let mut r = empty_result(true);
    r.tasks = Some(TaskList { tasks: vec![task("a"), task("b")] });
    assert_eq!(task_count(&r), 2);
}

#[test]
fn failed_query_counts_as_no_tasks() {
    let mut r = empty_result(false);
    r.tasks = Some(TaskList { tasks: vec![task("a")] });
    assert_eq!(task_count(&r), 0);
    assert_eq!(task_count(&empty_result(true)), 0);
}

#[test]
fn default_query_is_today_not_started() {
    let c = get_search_condition(&None, &"2024-05-01T00:00:00+08:00".to_string(), &"2024-05-01T23:59:59+08:00".to_string());
    assert_eq!(
        c.filters,
        vec![
            TaskFilter::OnOrAfter("2024-05-01T00:00:00+08:00".to_string()),
            TaskFilter::OnOrBefore("2024-05-01T23:59:59+08:00".to_string()),
            TaskFilter::StatusIn(strings(&["未开始", "Not started"])),
        ]
    );
}

#[test]
fn done_query_filters_done_names() {
    let p = TaskParams {
        start: Some("2024-01-01".to_string()),
        end: Some("2024-01-31".to_string()),
        status: Some("2".to_string()),
    };
    let c = get_search_condition(&Some(p), &"t0".to_string(), &"t1".to_string());
    assert_eq!(
        c.filters,
        vec![
            TaskFilter::OnOrAfter("2024-01-01".to_string()),
            TaskFilter::OnOrBefore("2024-01-31".to_string()),
            TaskFilter::StatusIn(strings(&["完成", "Done"])),
        ]
    );
}

#[test]
fn other_status_has_no_status_filter_and_missing_fields_are_empty() {
    let p = TaskParams { start: None, end: Some("2024-01-31".to_string()), status: Some("0".to_string()) };
    let c = get_search_condition(&Some(p), &"t0".to_string(), &"t1".to_string());
    assert_eq!(
        c.filters,
        vec![TaskFilter::OnOrAfter(String::new()), TaskFilter::OnOrBefore("2024-01-31".to_string())]
    );
}

#[test]
fn today_bounds_span_one_local_day() {
    let (begin, end) = task_reminder::task_manager::today_bounds().expect("local midnight exists");
    assert_eq!(&begin[..10], &end[..10]);
    assert_eq!(&begin[10..19], "T00:00:00");
    assert_eq!(&end[10..19], "T23:59:59");
}

#[test]
fn search_condition_with_params_ignores_clock() {
    let p = TaskParams { start: Some("a".to_string()), end: Some("b".to_string()), status: Some("0".to_string()) };
    let c = task_reminder::task_manager::search_condition_for(&Some(p)).unwrap();
    assert_eq!(c.filters, vec![TaskFilter::OnOrAfter("a".to_string()), TaskFilter::OnOrBefore("b".to_string())]);
}

#[test]
fn search_condition_without_params_is_today_not_started() {
    let c = task_reminder::task_manager::search_condition_for(&None).expect("local midnight exists");
    assert_eq!(c.filters.len(), 3);
    match (&c.filters[0], &c.filters[1]) {
        (TaskFilter::OnOrAfter(b), TaskFilter::OnOrBefore(e)) => {
            assert_eq!(&b[10..19], "T00:00:00");
            assert_eq!(&e[10..19], "T23:59:59");
            assert_eq!(&b[..10], &e[..10]);
        }
        _ => panic!("date filters expected first"),
    }
    assert_eq!(c.filters[2], TaskFilter::StatusIn(strings(&["未开始", "Not started"])));
}
