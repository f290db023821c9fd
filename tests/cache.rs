use task_reminder::auth::{
    clear_auth_info, get_auth_info_from_global, init_auth_info, load_auth_info, save_auth_info_impl,
    select_page, AuthCache, AuthInfo, CacheError, Person, SaveResult, User,
};

fn credential(target: &str) -> AuthInfo {
    AuthInfo {
        access_token: "secret-token".to_string(),
        bot_id: "bot-1".to_string(),
        duplicated_template_id: target.to_string(),
        user: User {
            id: "user-1".to_string(),
            object: "user".to_string(),
            name: Some("Ada".to_string()),
            user_type: Some("person".to_string()),
            avatar_url: None,
            person: Some(Person { email: "ada@example.com".to_string() }),
        },
        refresh_token: None,
        request_id: "req-1".to_string(),
        token_type: "bearer".to_string(),
        workspace_icon: None,
        workspace_id: "ws-1".to_string(),
        workspace_name: "Home".to_string(),
    }
}

fn done() -> SaveResult {
    SaveResult { success: true, error: None }
}

fn initialized_with(c: Option<AuthInfo>) -> AuthCache {
    let mut cache = AuthCache::new();
    init_auth_info(&mut cache, Ok(c));
    cache
}

#[test]
fn fresh_cache_holds_nothing() {
    let cache = AuthCache::new();
    assert_eq!(get_auth_info_from_global(&cache), None);
}

#[test]
fn init_loads_stored_credential() {
    let cache = initialized_with(Some(credential("db-1")));
    assert_eq!(get_auth_info_from_global(&cache), Some(credential("db-1")));
}

#[test]
fn init_read_failure_leaves_cache_empty() {
    let mut cache = AuthCache::new();
    init_auth_info(&mut cache, Err("corrupt document".to_string()));
    assert_eq!(get_auth_info_from_global(&cache), None);
}

#[test]
fn second_init_keeps_saved_credential() {
    let mut cache = initialized_with(None);
    let saved = save_auth_info_impl(&credential("db-2"), &mut cache, Ok(()));
    assert_eq!(saved, Ok(done()));
    init_auth_info(&mut cache, Ok(Some(credential("db-old"))));
    assert_eq!(get_auth_info_from_global(&cache), Some(credential("db-2")));
}

#[test]
fn load_prefers_memory() {
    let mut cache = initialized_with(Some(credential("db-1")));
    let r = load_auth_info(&mut cache, Ok(Some(credential("db-disk"))));
    assert_eq!(r, Some(credential("db-1")));
}

#[test]
fn load_falls_back_to_storage_and_keeps_it() {
    let mut cache = initialized_with(None);
    let r = load_auth_info(&mut cache, Ok(Some(credential("db-disk"))));
    assert_eq!(r, Some(credential("db-disk")));
    assert_eq!(get_auth_info_from_global(&cache), Some(credential("db-disk")));
}

#[test]
fn load_read_failure_is_absent() {
    let mut cache = initialized_with(None);
    let r = load_auth_info(&mut cache, Err("unreadable".to_string()));
    assert_eq!(r, None);
}

#[test]
fn load_before_init_does_not_keep() {
    let mut cache = AuthCache::new();
    let r = load_auth_info(&mut cache, Ok(Some(credential("db-disk"))));
    assert_eq!(r, Some(credential("db-disk")));
    assert_eq!(get_auth_info_from_global(&cache), None);
}

#[test]
fn load_after_save_returns_saved() {
    let mut cache = initialized_with(Some(credential("db-1")));
    assert_eq!(save_auth_info_impl(&credential("db-9"), &mut cache, Ok(())), Ok(done()));
    assert_eq!(load_auth_info(&mut cache, Ok(None)), Some(credential("db-9")));
}

#[test]
fn failed_save_reports_persistence_failure_and_keeps_memory() {
    let mut cache = initialized_with(Some(credential("db-1")));
    let r = save_auth_info_impl(&credential("db-9"), &mut cache, Err("disk full".to_string()));
    assert_eq!(r, Err(CacheError::PersistenceFailure { reason: "disk full".to_string() }));
    assert_eq!(get_auth_info_from_global(&cache), Some(credential("db-1")));
}

#[test]
fn load_after_clear_is_absent() {
    let mut cache = initialized_with(Some(credential("db-1")));
    assert_eq!(clear_auth_info(&mut cache, Ok(())), Ok(done()));
    assert_eq!(load_auth_info(&mut cache, Ok(None)), None);
}

#[test]
fn failed_remove_still_clears_memory() {
    let mut cache = initialized_with(Some(credential("db-1")));
    let r = clear_auth_info(&mut cache, Err("permission denied".to_string()));
    assert_eq!(r, Err(CacheError::PersistenceFailure { reason: "permission denied".to_string() }));
    assert_eq!(get_auth_info_from_global(&cache), None);
}

#[test]
fn select_without_credential_reports_no_active() {
    let mut cache = initialized_with(None);
    assert_eq!(select_page("db-5".to_string(), &mut cache), Err(CacheError::NoActiveCredential));
    assert_eq!(get_auth_info_from_global(&cache), None);
}

#[test]
fn select_before_init_reports_not_initialized() {
    let mut cache = AuthCache::new();
    assert_eq!(select_page("db-5".to_string(), &mut cache), Err(CacheError::NotInitialized));
}

#[test]
fn select_replaces_target_and_round_trips() {
    let mut cache = initialized_with(Some(credential("db-1")));
    let selected = select_page("db-5".to_string(), &mut cache).unwrap();
    assert_eq!(selected, credential("db-5"));
    assert_eq!(get_auth_info_from_global(&cache), Some(selected.clone()));
    assert_eq!(save_auth_info_impl(&selected, &mut cache, Ok(())), Ok(done()));
    assert_eq!(load_auth_info(&mut cache, Ok(Some(selected.clone()))), Some(credential("db-5")));
}

#[test]
fn lock_contention_is_a_distinct_error() {
    assert_ne!(CacheError::LockContention, CacheError::NotInitialized);
}
