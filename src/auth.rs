use vstd::prelude::*;

verus! {

/// Contact details of the account owner.
#[derive(Clone, Debug, PartialEq, Eq)]
pub struct Person {
    pub email: String,
}

/// Account that granted the credential.
#[derive(Clone, Debug, PartialEq, Eq)]
pub struct User {
    pub id: String,
    pub object: String,
    pub name: Option<String>,
    pub user_type: Option<String>,
    pub avatar_url: Option<String>,
    pub person: Option<Person>,
}

/// The credential for the remote task service: bearer token, target
/// collection (`duplicated_template_id`) and account metadata.
#[derive(Clone, Debug, PartialEq, Eq)]
pub struct AuthInfo {
    pub access_token: String,
    pub bot_id: String,
    pub duplicated_template_id: String,
    pub user: User,
    pub refresh_token: Option<String>,
    pub request_id: String,
    pub token_type: String,
    pub workspace_icon: Option<String>,
    pub workspace_id: String,
    pub workspace_name: String,
}

/// An exact copy of an optional string.
pub fn copy_opt_string(s: &Option<String>) -> (r: Option<String>)
    ensures
        r == *s,
{
    match s {
        Some(v) => Some(v.clone()),
        None => None,
    }
}

impl Person {
    /// An exact copy of this person.
    pub fn copied(&self) -> (r: Person)
        ensures
            r == *self,
    {
        Person { email: self.email.clone() }
    }
}

impl User {
    /// An exact copy of this user.
    pub fn copied(&self) -> (r: User)
        ensures
            r == *self,
    {
        let person = match &self.person {
            Some(p) => Some(p.copied()),
            None => None,
        };
        User {
            id: self.id.clone(),
            object: self.object.clone(),
            name: copy_opt_string(&self.name),
            user_type: copy_opt_string(&self.user_type),
            avatar_url: copy_opt_string(&self.avatar_url),
            person,
        }
    }
}

impl AuthInfo {
    /// An exact copy of this credential.
    pub fn copied(&self) -> (r: AuthInfo)
        ensures
            r == *self,
    {
        AuthInfo {
            access_token: self.access_token.clone(),
            bot_id: self.bot_id.clone(),
            duplicated_template_id: self.duplicated_template_id.clone(),
            user: self.user.copied(),
            refresh_token: copy_opt_string(&self.refresh_token),
            request_id: self.request_id.clone(),
            token_type: self.token_type.clone(),
            workspace_icon: copy_opt_string(&self.workspace_icon),
            workspace_id: self.workspace_id.clone(),
            workspace_name: self.workspace_name.clone(),
        }
    }
}


/// Outcome of a cache operation that the frontend reports to the user.
#[derive(Clone, Debug, PartialEq, Eq)]
pub struct SaveResult {
    pub success: bool,
    pub error: Option<String>,
}

/// Failures that the cache reports to its callers.
#[derive(Clone, Debug, PartialEq, Eq)]
pub enum CacheError {
    /// The cache was used before `init_auth_info` ran.
    NotInitialized,
    /// The lock guarding the shared cache could not be taken.
    LockContention,
    /// Durable storage could not be written or removed.
    PersistenceFailure { reason: String },
    /// An operation needs a credential and none is set.
    NoActiveCredential,
}

/// What the cache holds, as seen by contracts.
pub struct CacheView {
    pub initialized: bool,
    pub current: Option<AuthInfo>,
}

impl CacheView {
    /// Nothing is held before initialisation.
    pub open spec fn wf(self) -> bool {
        !self.initialized ==> self.current is None
    }
}

/// What a read of durable storage yields: a missing or unreadable document
/// counts as no credential.
pub open spec fn stored_credential(loaded: Result<Option<AuthInfo>, String>) -> Option<AuthInfo> {
    match loaded {
        Ok(found) => found,
        Err(_) => None,
    }
}

/// The cache after `init_auth_info`: the first initialisation wins.
pub open spec fn init_view(m: CacheView, loaded: Result<Option<AuthInfo>, String>) -> CacheView {
    if m.initialized {
        m
    } else {
        CacheView { initialized: true, current: stored_credential(loaded) }
    }
}

/// What `load_auth_info` returns: memory first, durable storage otherwise.
pub open spec fn load_result(m: CacheView, loaded: Result<Option<AuthInfo>, String>) -> Option<AuthInfo> {
    if m.current is Some {
        m.current
    } else {
        stored_credential(loaded)
    }
}

/// The cache after `load_auth_info`: a credential read from storage is kept
/// in memory once the cache is initialised.
pub open spec fn load_view(m: CacheView, loaded: Result<Option<AuthInfo>, String>) -> CacheView {
    if m.initialized && m.current is None {
        CacheView { initialized: true, current: stored_credential(loaded) }
    } else {
        m
    }
}

/// The cache after `save_auth_info_impl`: memory follows storage only when
/// the write succeeded.
pub open spec fn save_view(m: CacheView, c: AuthInfo, written: Result<(), String>) -> CacheView {
    if written is Ok && m.initialized {
        CacheView { initialized: true, current: Some(c) }
    } else {
        m
    }
}

/// The cache after `clear_auth_info`: memory is emptied in every case.
pub open spec fn clear_view(m: CacheView) -> CacheView {
    CacheView { initialized: m.initialized, current: None }
}

/// A credential with its target collection replaced.
pub open spec fn with_target(c: AuthInfo, target: String) -> AuthInfo {
    AuthInfo { duplicated_template_id: target, ..c }
}

/// What `select_page` returns.
pub open spec fn select_result(m: CacheView, target: String) -> Result<AuthInfo, CacheError> {
    if !m.initialized {
        Err(CacheError::NotInitialized)
    } else {
        match m.current {
            Some(c) => Ok(with_target(c, target)),
            None => Err(CacheError::NoActiveCredential),
        }
    }
}

/// The cache after `select_page`.
pub open spec fn select_view(m: CacheView, target: String) -> CacheView {
    match select_result(m, target) {
        Ok(c) => CacheView { initialized: true, current: Some(c) },
        Err(_) => m,
    }
}

/// The success report of a completed operation.
pub open spec fn done() -> SaveResult {
    SaveResult { success: true, error: None }
}

/// The error for a storage operation that failed.
pub open spec fn persistence_result(outcome: Result<(), String>) -> Result<SaveResult, CacheError> {
    match outcome {
        Ok(()) => Ok(done()),
        Err(reason) => Err(CacheError::PersistenceFailure { reason }),
    }
}

/// The process-wide holder of the current credential. Callers share one
/// instance behind a lock; durable storage is read and written by the caller,
/// which hands the outcome of each storage step to the operation.
pub struct AuthCache {
    initialized: bool,
    current: Option<AuthInfo>,
}

impl View for AuthCache {
    type V = CacheView;

    closed spec fn view(&self) -> CacheView {
        CacheView { initialized: self.initialized, current: self.current }
    }
}

fn done_result() -> (r: SaveResult)
    ensures
        r == done(),
{
    SaveResult { success: true, error: None }
}

fn persistence(outcome: Result<(), String>) -> (r: Result<SaveResult, CacheError>)
    ensures
        r == persistence_result(outcome),
{
    match outcome {
        Ok(()) => Ok(done_result()),
        Err(reason) => Err(CacheError::PersistenceFailure { reason }),
    }
}

fn stored(loaded: Result<Option<AuthInfo>, String>) -> (r: Option<AuthInfo>)
    ensures
        r == stored_credential(loaded),
{
    match loaded {
        Ok(found) => found,
        Err(_) => None,
    }
}

impl AuthCache {
    /// Nothing is held before initialisation.
    #[verifier::type_invariant]
    spec fn well_formed(&self) -> bool {
        !self.initialized ==> self.current is None
    }

    /// A cache that has not been initialised yet.
    pub fn new() -> (r: AuthCache)
        ensures
            r@ == (CacheView { initialized: false, current: None }),
    {
        AuthCache { initialized: false, current: None }
    }
}

/// Initialise the cache from what durable storage held at startup. A read
/// failure leaves the cache empty; a second call changes nothing.
pub fn init_auth_info(cache: &mut AuthCache, loaded: Result<Option<AuthInfo>, String>)
    ensures
        final(cache)@ == init_view(old(cache)@, loaded),
        final(cache)@.wf(),
{
    proof {
        use_type_invariant(&*cache);
    }
    if !cache.initialized {
        *cache = AuthCache { initialized: true, current: stored(loaded) };
    }
}

/// The credential held in memory, if any. Never consults storage.
pub fn get_auth_info_from_global(cache: &AuthCache) -> (r: Option<AuthInfo>)
    ensures
        r == cache@.current,
        cache@.wf(),
{
    proof {
        use_type_invariant(cache);
    }
    match &cache.current {
        Some(c) => Some(c.copied()),
        None => None,
    }
}

/// The current credential, preferring memory. `loaded` is what a read of
/// durable storage gave; it is used, and kept, only when memory is empty.
pub fn load_auth_info(cache: &mut AuthCache, loaded: Result<Option<AuthInfo>, String>) -> (r: Option<AuthInfo>)
    ensures
        r == load_result(old(cache)@, loaded),
        final(cache)@ == load_view(old(cache)@, loaded),
        final(cache)@.wf(),
{
    proof {
        use_type_invariant(&*cache);
    }
    if let Some(c) = &cache.current {
        return Some(c.copied());
    }
    let found = stored(loaded);
    if cache.initialized {
        match &found {
            Some(c) => {
                *cache = AuthCache { initialized: true, current: Some(c.copied()) };
            },
            None => {},
        }
    }
    found
}

/// Record that `auth` was written to durable storage, with the outcome of
/// that write. Memory is updated only when the write succeeded.
pub fn save_auth_info_impl(auth: &AuthInfo, cache: &mut AuthCache, written: Result<(), String>) -> (r: Result<SaveResult, CacheError>)
    ensures
        r == persistence_result(written),
        final(cache)@ == save_view(old(cache)@, *auth, written),
        final(cache)@.wf(),
{
    proof {
        use_type_invariant(&*cache);
    }
    if written.is_ok() && cache.initialized {
        *cache = AuthCache { initialized: true, current: Some(auth.copied()) };
    }
    persistence(written)
}

/// Log out: memory is emptied, and `removed` is the outcome of deleting the
/// stored document (deleting a missing one counts as success).
pub fn clear_auth_info(cache: &mut AuthCache, removed: Result<(), String>) -> (r: Result<SaveResult, CacheError>)
    ensures
        r == persistence_result(removed),
        final(cache)@ == clear_view(old(cache)@),
        final(cache)@.wf(),
{
    proof {
        use_type_invariant(&*cache);
    }
    *cache = AuthCache { initialized: cache.initialized, current: None };
    persistence(removed)
}

/// Point the current credential at another target collection. On success
/// the returned credential equals the one now in memory, and is what the
/// caller persists through `save_auth_info_impl`.
pub fn select_page(id: String, cache: &mut AuthCache) -> (r: Result<AuthInfo, CacheError>)
    ensures
        r == select_result(old(cache)@, id),
        final(cache)@ == select_view(old(cache)@, id),
        final(cache)@.wf(),
{
    proof {
        use_type_invariant(&*cache);
    }
    if !cache.initialized {
        return Err(CacheError::NotInitialized);
    }
    let updated = match &cache.current {
        Some(c) => {
            let mut u = c.copied();
            u.duplicated_template_id = id;
            u
        },
        None => {
            return Err(CacheError::NoActiveCredential);
        },
    };
    *cache = AuthCache { initialized: true, current: Some(updated.copied()) };
    Ok(updated)
}


/// A load right after a successful save returns the saved credential: from
/// memory once the cache is initialised, whatever storage then yields, and
/// otherwise from the document that the save wrote.
pub proof fn lemma_load_after_save(m: CacheView, c: AuthInfo, loaded: Result<Option<AuthInfo>, String>)
    requires
        m.wf(),
        m.initialized || loaded == Ok::<Option<AuthInfo>, String>(Some(c)),
    ensures
        load_result(save_view(m, c, Ok(())), loaded) == Some(c),
{
}

/// A load right after a clear returns nothing once storage no longer holds
/// the document; memory never supplies a credential after a clear.
pub proof fn lemma_load_after_clear(m: CacheView, loaded: Result<Option<AuthInfo>, String>)
    requires
        m.wf(),
        stored_credential(loaded) is None,
    ensures
        load_result(clear_view(m), loaded) is None,
        clear_view(m).current is None,
{
}

/// Selecting a target with no credential set reports `NoActiveCredential`
/// and leaves the cache unchanged.
pub proof fn lemma_select_without_credential(m: CacheView, target: String)
    requires
        m.wf(),
        m.initialized,
        m.current is None,
    ensures
        select_result(m, target) == Err::<AuthInfo, CacheError>(CacheError::NoActiveCredential),
        select_view(m, target) == m,
{
}

/// Selecting target `t` with credential `c` set makes the credential `c`
/// with its target replaced by `t` and nothing else changed; the copy handed
/// to storage equals the one in memory, and after it is saved a load returns
/// it, from memory or by reading it back from storage.
pub proof fn lemma_select_then_load(m: CacheView, target: String, loaded: Result<Option<AuthInfo>, String>)
    requires
        m.wf(),
        m.initialized,
        m.current is Some,
    ensures
        ({
            let c = m.current->Some_0;
            let sel = select_result(m, target);
            let after = select_view(m, target);
            &&& sel is Ok
            &&& sel->Ok_0 == with_target(c, target)
            &&& sel->Ok_0.duplicated_template_id == target
            &&& sel->Ok_0.access_token == c.access_token
            &&& sel->Ok_0.user == c.user
            &&& after.current == Some(sel->Ok_0)
            &&& load_result(after, loaded) == Some(sel->Ok_0)
            &&& load_result(save_view(after, sel->Ok_0, Ok(())), loaded) == Some(sel->Ok_0)
        }),
{
}

/// A second `init_auth_info` does not overwrite a credential saved after the
/// first one.
pub proof fn lemma_init_is_first_write_wins(
    m: CacheView,
    first: Result<Option<AuthInfo>, String>,
    c: AuthInfo,
    second: Result<Option<AuthInfo>, String>,
)
    requires
        m.wf(),
    ensures
        init_view(save_view(init_view(m, first), c, Ok(())), second).current == Some(c),
{
}

} // verus!
