use chrono::Datelike;
use chrono::TimeZone;
use vstd::prelude::*;
use crate::auth::{AuthCache, AuthInfo};
use crate::json::{
    at_index, at_key, deref, element, get, items_of, keys_of, lemma_lookup_at, member, object1,
    object2, str_value, opt_str_value, text, text_of, text_or_new, uint, uint_of, Json,
};

verus! {

/// When a task is scheduled.
#[derive(Clone, Debug, PartialEq, Eq)]
pub struct Time {
    pub start: String,
    pub end: Option<String>,
    pub time_zone: Option<String>,
}

/// A unit of work from the remote task service.
#[derive(Clone, Debug, PartialEq, Eq)]
pub struct Task {
    pub id: String,
    pub text: String,
    pub percent: u32,
    pub status: String,
    pub time: Time,
    pub tags: Option<Vec<String>>,
}

#[derive(Clone, Debug, PartialEq, Eq)]
pub struct TaskList {
    pub tasks: Vec<Task>,
}

/// A page or database of the remote workspace that can hold tasks.
#[derive(Clone, Debug, PartialEq, Eq)]
pub struct Page {
    pub id: String,
    /// "page" or "database".
    pub object: String,
    pub title: String,
    pub parent_type: String,
    pub parent_id: String,
    pub url: String,
}

/// What a task operation reports to the frontend.
#[derive(Clone, Debug, PartialEq, Eq)]
pub struct SaveResult {
    pub success: bool,
    pub error: Option<String>,
    /// Identifier of a task that was added.
    pub id: Option<String>,
    /// Tasks found by a query.
    pub tasks: Option<TaskList>,
    /// Outcome of a query: "unauthorized", "success" or the service's code.
    pub status: Option<String>,
    pub pages: Option<Vec<Page>>,
    pub tags: Option<Vec<String>>,
}

/// Filter of a task query.
#[derive(Clone, Debug, PartialEq, Eq)]
pub struct TaskParams {
    /// First day, inclusive.
    pub start: Option<String>,
    /// Last day, inclusive.
    pub end: Option<String>,
    /// "1" for not started, "2" for done, anything else for all.
    pub status: Option<String>,
}

/// The report of a query made without a credential.
pub open spec fn is_unauthorized(r: SaveResult) -> bool {
    &&& !r.success
    &&& r.error is None
    &&& r.id is None
    &&& r.tasks is None
    &&& r.status is Some && r.status->Some_0@ == "unauthorized"@
    &&& r.pages is None
    &&& r.tags is None
}

/// Decide how a task query proceeds: with the current credential, which the
/// caller then uses to query the remote service, or, when none is set, with
/// the "unauthorized" report and no remote call.
pub fn load_tasks_impl(cache: &AuthCache) -> (r: Result<AuthInfo, SaveResult>)
    ensures
        cache@.wf(),
        match cache@.current {
            Some(c) => r == Ok::<AuthInfo, SaveResult>(c),
            None => r is Err && is_unauthorized(r->Err_0),
        },
{
    match crate::auth::get_auth_info_from_global(cache) {
        Some(c) => Ok(c),
        None => Err(
            SaveResult {
                success: false,
                error: None,
                id: None,
                tasks: None,
                status: Some("unauthorized".to_owned()),
                pages: None,
                tags: None,
            },
        ),
    }
}

/// The number of tasks that a query found; a failed query counts as none.
pub open spec fn found_tasks(r: SaveResult) -> nat {
    if r.success && r.tasks is Some {
        r.tasks->Some_0.tasks@.len()
    } else {
        0
    }
}

/// The number of tasks that a query found, as the popup scheduler needs it.
pub fn task_count(r: &SaveResult) -> (n: usize)
    ensures
        n == found_tasks(*r),
{
    if r.success {
        match &r.tasks {
            Some(list) => list.tasks.len(),
            None => 0,
        }
    } else {
        0
    }
}


/// A condition of a task query.
#[derive(Clone, Debug, PartialEq, Eq)]
pub enum TaskFilter {
    /// Scheduled on or after this date.
    OnOrAfter(String),
    /// Scheduled on or before this date.
    OnOrBefore(String),
    /// Status named by one of these.
    StatusIn(Vec<String>),
}

/// A query condition as text.
pub enum FilterView {
    OnOrAfter(Seq<char>),
    OnOrBefore(Seq<char>),
    StatusIn(Seq<Seq<char>>),
}

impl View for TaskFilter {
    type V = FilterView;

    open spec fn view(&self) -> FilterView {
        match self {
            TaskFilter::OnOrAfter(d) => FilterView::OnOrAfter(d@),
            TaskFilter::OnOrBefore(d) => FilterView::OnOrBefore(d@),
            TaskFilter::StatusIn(names) => FilterView::StatusIn(names@.map_values(|n: String| n@)),
        }
    }
}

/// Body of a task query: every filter must hold. Results come sorted by
/// completion percentage, highest first, then by time, earliest first.
#[derive(Clone, Debug, PartialEq, Eq)]
pub struct SearchCondition {
    pub filters: Vec<TaskFilter>,
}

impl SearchCondition {
    pub open spec fn filters_view(&self) -> Seq<FilterView> {
        self.filters@.map_values(|f: TaskFilter| f@)
    }
}

/// The text of an optional string, empty when absent.
pub open spec fn string_or_empty(s: Option<String>) -> Seq<char> {
    match s {
        Some(v) => v@,
        None => Seq::empty(),
    }
}

/// First day, last day and status code of a query. Without parameters the
/// query asks for today's tasks that are not started.
pub open spec fn query_terms(params: Option<TaskParams>, today_start: Seq<char>, today_end: Seq<char>) -> (Seq<char>, Seq<char>, Seq<char>) {
    match params {
        Some(p) => (string_or_empty(p.start), string_or_empty(p.end), string_or_empty(p.status)),
        None => (today_start, today_end, "1"@),
    }
}

/// Status names, in both languages of the task template, that a status code
/// selects; none for a code that selects every status.
pub open spec fn status_names(code: Seq<char>) -> Seq<Seq<char>> {
    if code == "1"@ {
        seq!["未开始"@, "Not started"@]
    } else if code == "2"@ {
        seq!["完成"@, "Done"@]
    } else {
        seq![]
    }
}

/// The filters of a query with these terms.
pub open spec fn query_filters(terms: (Seq<char>, Seq<char>, Seq<char>)) -> Seq<FilterView> {
    let dates = seq![FilterView::OnOrAfter(terms.0), FilterView::OnOrBefore(terms.1)];
    if status_names(terms.2).len() == 0 {
        dates
    } else {
        dates.push(FilterView::StatusIn(status_names(terms.2)))
    }
}

fn string_or_new(s: &Option<String>) -> (r: String)
    ensures
        r@ == string_or_empty(*s),
{
    match s {
        Some(v) => v.clone(),
        None => String::new(),
    }
}

fn name_pair(first: &str, second: &str) -> (r: Vec<String>)
    ensures
        r@.map_values(|n: String| n@) == seq![first@, second@],
{
    let mut names: Vec<String> = Vec::new();
    names.push(first.to_owned());
    names.push(second.to_owned());
    assert(names@.map_values(|n: String| n@) =~= seq![first@, second@]);
    names
}

/// The query for tasks with `params`; `today_start` and `today_end` are the
/// bounds of the current local day, used when no parameters are given.
pub fn get_search_condition(params: &Option<TaskParams>, today_start: &String, today_end: &String) -> (r: SearchCondition)
    ensures
        r.filters_view() == query_filters(query_terms(*params, today_start@, today_end@)),
{
    let (start, end, code) = match params {
        Some(p) => (string_or_new(&p.start), string_or_new(&p.end), string_or_new(&p.status)),
        None => (today_start.clone(), today_end.clone(), "1".to_owned()),
    };
    let ghost terms = (start@, end@, code@);
    assert(terms == query_terms(*params, today_start@, today_end@));
    let mut filters: Vec<TaskFilter> = Vec::new();
    filters.push(TaskFilter::OnOrAfter(start));
    filters.push(TaskFilter::OnOrBefore(end));
    if code == "1".to_owned() {
        filters.push(TaskFilter::StatusIn(name_pair("未开始", "Not started")));
    } else if code == "2".to_owned() {
        filters.push(TaskFilter::StatusIn(name_pair("完成", "Done")));
    }
    let r = SearchCondition { filters };
    assert(r.filters_view() =~= query_filters(terms));
    r
}


/// An optional string that holds exactly the optional text `t`.
pub open spec fn holds_text(s: Option<String>, t: Option<Seq<char>>) -> bool {
    match (s, t) {
        (Some(v), Some(w)) => v@ == w,
        (None, None) => true,
        _ => false,
    }
}

/// The names of the items of a multi-select value, absent when it is no
/// array; an item without a name contributes an empty one.
pub open spec fn names_from(names: Option<Vec<String>>, items: Option<Seq<Json>>) -> bool {
    match (names, items) {
        (Some(v), Some(js)) => v@.len() == js.len() && forall|i: int|
            0 <= i < js.len() ==> #[trigger] v@[i]@ == crate::json::text_or_empty(member(js[i], "name"@)),
        (None, None) => true,
        _ => false,
    }
}

/// Completion percentage: the integer given, cut to 32 bits, or 0.
pub open spec fn percent_of(n: Option<u64>) -> u32 {
    match n {
        Some(v) => (v % 0x1_0000_0000) as u32,
        None => 0,
    }
}

/// Whether `t` is the task that the query record `rec` describes.
pub open spec fn task_from(t: Task, rec: Json) -> bool {
    let props = member(rec, "properties"@);
    let date = at_key(at_key(props, "time"@), "date"@);
    &&& t.id@ == crate::json::text_or_empty(member(rec, "id"@))
    &&& t.text@ == crate::json::text_or_empty(
        at_key(at_index(at_key(at_key(props, "task"@), "title"@), 0), "plain_text"@),
    )
    &&& t.percent == percent_of(uint_of(at_key(at_key(props, "percent"@), "number"@)))
    &&& t.status@ == crate::json::text_or_empty(at_key(at_key(at_key(props, "status"@), "status"@), "name"@))
    &&& t.time.start@ == crate::json::text_or_empty(at_key(date, "start"@))
    &&& holds_text(t.time.end, text_of(at_key(date, "end"@)))
    &&& holds_text(t.time.time_zone, text_of(at_key(date, "time_zone"@)))
    &&& names_from(t.tags, items_of(at_key(at_key(props, "tags"@), "multi_select"@)))
}

/// Whether `r` reports the task query whose response was `response`: the
/// tasks of its "results", or a failure with the service's "code".
pub open spec fn task_report(r: SaveResult, response: Json) -> bool {
    &&& r.error is None
    &&& r.id is None
    &&& r.pages is None
    &&& r.tags is None
    &&& match items_of(member(response, "results"@)) {
        Some(records) => {
            &&& r.success
            &&& r.status is None
            &&& r.tasks is Some
            &&& r.tasks->Some_0.tasks@.len() == records.len()
            &&& forall|i: int|
                0 <= i < records.len() ==> task_from(#[trigger] r.tasks->Some_0.tasks@[i], records[i])
        },
        None => {
            &&& !r.success
            &&& r.tasks is None
            &&& holds_text(r.status, Some(crate::json::text_or_empty(member(response, "code"@))))
        },
    }
}

/// The names of the items of a multi-select value.
pub fn names_of(items: Option<&Json>) -> (r: Option<Vec<String>>)
    ensures
        names_from(r, items_of(deref(items))),
{
    let js = match items {
        Some(Json::Array(js)) => js,
        _ => {
            return None;
        },
    };
    let mut names: Vec<String> = Vec::new();
    let mut i: usize = 0;
    while i < js.len()
        invariant
            0 <= i <= js@.len(),
            names@.len() == i,
            forall|k: int|
                0 <= k < i ==> #[trigger] names@[k]@ == crate::json::text_or_empty(member(js@[k], "name"@)),
        decreases js@.len() - i,
    {
        let name = text_or_new(get(Some(&js[i]), "name"));
        names.push(name);
        i = i + 1;
    }
    Some(names)
}

/// The task that a query record describes.
pub fn task_of(rec: &Json) -> (t: Task)
    ensures
        task_from(t, *rec),
{
    let props = get(Some(rec), "properties");
    let date = get(get(props, "time"), "date");
    let percent = match uint(get(get(props, "percent"), "number")) {
        Some(n) => (n % 0x1_0000_0000) as u32,
        None => 0,
    };
    Task {
        id: text_or_new(get(Some(rec), "id")),
        text: text_or_new(get(element(get(get(props, "task"), "title"), 0), "plain_text")),
        percent,
        status: text_or_new(get(get(get(props, "status"), "status"), "name")),
        time: Time {
            start: text_or_new(get(date, "start")),
            end: text(get(date, "end")),
            time_zone: text(get(date, "time_zone")),
        },
        tags: names_of(get(get(props, "tags"), "multi_select")),
    }
}

/// The report of a task query, from the service's response.
pub fn parse_task_query(response: &Json) -> (r: SaveResult)
    ensures
        task_report(r, *response),
{
    let records = match get(Some(response), "results") {
        Some(Json::Array(records)) => records,
        _ => {
            return SaveResult {
                success: false,
                error: None,
                id: None,
                tasks: None,
                status: Some(text_or_new(get(Some(response), "code"))),
                pages: None,
                tags: None,
            };
        },
    };
    let mut tasks: Vec<Task> = Vec::new();
    let mut i: usize = 0;
    while i < records.len()
        invariant
            0 <= i <= records@.len(),
            items_of(member(*response, "results"@)) == Some(records@),
            tasks@.len() == i,
            forall|k: int| 0 <= k < i ==> task_from(#[trigger] tasks@[k], records@[k]),
        decreases records@.len() - i,
    {
        let t = task_of(&records[i]);
        tasks.push(t);
        i = i + 1;
    }
    SaveResult {
        success: true,
        error: None,
        id: None,
        tasks: Some(TaskList { tasks }),
        status: None,
        pages: None,
        tags: None,
    }
}


/// Relies on `str::replace` with the pattern "-" and an empty replacement:
/// every dash is removed and the other characters keep their order.
#[verifier::external_body]
fn remove_dashes(s: &str) -> (r: String)
    ensures
        r@ == s@.filter(|c: char| c != '-'),
{
    s.replace("-", "")
}

/// Whether `p` is the page that the search record `rec` describes. Pages
/// keep their title in the "title" property, databases at the top level;
/// identifiers lose their dashes.
pub open spec fn page_from(p: Page, rec: Json) -> bool {
    let object = crate::json::text_or_empty(member(rec, "object"@));
    let title_list = if object == "page"@ {
        at_key(at_key(member(rec, "properties"@), "title"@), "title"@)
    } else {
        member(rec, "title"@)
    };
    let parent_type = crate::json::text_or_empty(at_key(member(rec, "parent"@), "type"@));
    &&& p.id@ == crate::json::text_or_empty(member(rec, "id"@)).filter(|c: char| c != '-')
    &&& p.object@ == object
    &&& p.title@ == crate::json::text_or_empty(at_key(at_index(title_list, 0), "plain_text"@))
    &&& p.parent_type@ == parent_type
    &&& p.parent_id@ == crate::json::text_or_empty(at_key(member(rec, "parent"@), parent_type)).filter(
        |c: char| c != '-',
    )
    &&& p.url@ == crate::json::text_or_empty(member(rec, "url"@))
}

/// Whether `r` reports the page search whose response was `response`.
pub open spec fn page_report(r: SaveResult, response: Json) -> bool {
    &&& r.error is None
    &&& r.id is None
    &&& r.tasks is None
    &&& r.tags is None
    &&& match items_of(member(response, "results"@)) {
        Some(records) => {
            &&& r.success
            &&& r.status is None
            &&& r.pages is Some
            &&& r.pages->Some_0@.len() == records.len()
            &&& forall|i: int| 0 <= i < records.len() ==> page_from(#[trigger] r.pages->Some_0@[i], records[i])
        },
        None => {
            &&& !r.success
            &&& r.pages is None
            &&& holds_text(r.status, Some(crate::json::text_or_empty(member(response, "code"@))))
        },
    }
}

/// The page that a search record describes.
pub fn page_of(rec: &Json) -> (p: Page)
    ensures
        page_from(p, *rec),
{
    let object = text_or_new(get(Some(rec), "object"));
    let title_list = if object == "page".to_owned() {
        get(get(get(Some(rec), "properties"), "title"), "title")
    } else {
        get(Some(rec), "title")
    };
    let parent = get(Some(rec), "parent");
    let parent_type = text_or_new(get(parent, "type"));
    let raw_id = text_or_new(get(Some(rec), "id"));
    let raw_parent_id = text_or_new(get(parent, parent_type.as_str()));
    Page {
        id: remove_dashes(raw_id.as_str()),
        object,
        title: text_or_new(get(element(title_list, 0), "plain_text")),
        parent_type: parent_type.clone(),
        parent_id: remove_dashes(raw_parent_id.as_str()),
        url: text_or_new(get(Some(rec), "url")),
    }
}

/// The report of a page search, from the service's response.
pub fn parse_page_search(response: &Json) -> (r: SaveResult)
    ensures
        page_report(r, *response),
{
    let records = match get(Some(response), "results") {
        Some(Json::Array(records)) => records,
        _ => {
            return SaveResult {
                success: false,
                error: None,
                id: None,
                tasks: None,
                status: Some(text_or_new(get(Some(response), "code"))),
                pages: None,
                tags: None,
            };
        },
    };
    let mut pages: Vec<Page> = Vec::new();
    let mut i: usize = 0;
    while i < records.len()
        invariant
            0 <= i <= records@.len(),
            items_of(member(*response, "results"@)) == Some(records@),
            pages@.len() == i,
            forall|k: int| 0 <= k < i ==> page_from(#[trigger] pages@[k], records@[k]),
        decreases records@.len() - i,
    {
        let p = page_of(&records[i]);
        pages.push(p);
        i = i + 1;
    }
    SaveResult {
        success: true,
        error: None,
        id: None,
        tasks: None,
        status: None,
        pages: Some(pages),
        tags: None,
    }
}

/// The tag options of a database description: the items of its
/// "properties"."tags"."multi_select"."options" array, or none.
pub open spec fn tag_options(response: Json) -> Seq<Json> {
    match items_of(
        at_key(at_key(at_key(member(response, "properties"@), "tags"@), "multi_select"@), "options"@),
    ) {
        Some(items) => items,
        None => Seq::empty(),
    }
}

/// Whether `r` reports success with the tag names of `response`.
pub open spec fn tags_report(r: SaveResult, response: Json) -> bool {
    &&& r.success
    &&& r.error is None
    &&& r.id is None
    &&& r.tasks is None
    &&& r.status is None
    &&& r.pages is None
    &&& names_from(r.tags, Some(tag_options(response)))
}

fn option_names(response: &Json) -> (r: Vec<String>)
    ensures
        names_from(Some(r), Some(tag_options(*response))),
{
    let options = get(get(get(get(Some(response), "properties"), "tags"), "multi_select"), "options");
    match names_of(options) {
        Some(names) => names,
        None => Vec::new(),
    }
}

fn tags_result(names: Vec<String>) -> (r: SaveResult)
    ensures
        r == (SaveResult {
            success: true,
            error: None,
            id: None,
            tasks: None,
            status: None,
            pages: None,
            tags: Some(names),
        }),
{
    SaveResult {
        success: true,
        error: None,
        id: None,
        tasks: None,
        status: None,
        pages: None,
        tags: Some(names),
    }
}

/// The report of loading the tag options, from the database description.
/// Without a "properties" object the load fails with no tags.
pub fn parse_loaded_tags(response: &Json) -> (r: SaveResult)
    ensures
        crate::json::is_object(member(*response, "properties"@)) ==> tags_report(r, *response),
        !crate::json::is_object(member(*response, "properties"@)) ==> {
            &&& !r.success
            &&& r.error is None
            &&& r.id is None
            &&& r.tasks is None
            &&& r.status is None
            &&& r.pages is None
            &&& r.tags is Some && r.tags->Some_0@.len() == 0
        },
{
    match get(Some(response), "properties") {
        Some(Json::Object(_)) => tags_result(option_names(response)),
        _ => SaveResult {
            success: false,
            error: None,
            id: None,
            tasks: None,
            status: None,
            pages: None,
            tags: Some(Vec::new()),
        },
    }
}

/// The report of replacing the tag options, from the service's answer.
/// Without a "properties" object the update fails with the service's
/// "message", if any.
pub fn parse_updated_tags(response: &Json) -> (r: SaveResult)
    ensures
        crate::json::is_object(member(*response, "properties"@)) ==> tags_report(r, *response),
        !crate::json::is_object(member(*response, "properties"@)) ==> {
            &&& !r.success
            &&& holds_text(r.error, text_of(member(*response, "message"@)))
            &&& r.id is None
            &&& r.tasks is None
            &&& r.status is None
            &&& r.pages is None
            &&& r.tags is None
        },
{
    match get(Some(response), "properties") {
        Some(Json::Object(_)) => tags_result(option_names(response)),
        _ => SaveResult {
            success: false,
            error: text(get(Some(response), "message")),
            id: None,
            tasks: None,
            status: None,
            pages: None,
            tags: None,
        },
    }
}


/// Whether `v` is the optional string `s` as a value: its text, or null.
pub open spec fn opt_text_value(v: Option<Json>, s: Option<String>) -> bool {
    match s {
        Some(t) => text_of(v) == Some(t@),
        None => v == Some(Json::Null),
    }
}

/// Whether `v` lists `names` as items of the form {"name": ...}.
pub open spec fn name_items_from(v: Option<Json>, names: Seq<String>) -> bool {
    &&& items_of(v) is Some
    &&& items_of(v)->Some_0.len() == names.len()
    &&& forall|i: int|
        0 <= i < names.len() ==> {
            &&& keys_of(#[trigger] items_of(v)->Some_0[i]) == seq!["name"@]
            &&& text_of(member(items_of(v)->Some_0[i], "name"@)) == Some(names[i]@)
        }
}

/// Whether `p` holds the properties of task `t` in the form the task service
/// takes them.
pub open spec fn properties_of(p: Json, t: Task) -> bool {
    let title = member(p, "task"@);
    let first = at_index(at_key(title, "title"@), 0);
    let percent = member(p, "percent"@);
    let status = member(p, "status"@);
    let time = member(p, "time"@);
    let date = at_key(time, "date"@);
    &&& keys_of(p) == if t.tags is Some {
        seq!["task"@, "percent"@, "status"@, "time"@, "tags"@]
    } else {
        seq!["task"@, "percent"@, "status"@, "time"@]
    }
    &&& keys_of(title->Some_0) == seq!["type"@, "title"@]
    &&& keys_of(first->Some_0) == seq!["type"@, "text"@]
    &&& keys_of(at_key(first, "text"@)->Some_0) == seq!["content"@]
    &&& keys_of(percent->Some_0) == seq!["type"@, "number"@]
    &&& keys_of(status->Some_0) == seq!["type"@, "status"@]
    &&& keys_of(at_key(status, "status"@)->Some_0) == seq!["name"@]
    &&& keys_of(time->Some_0) == seq!["type"@, "date"@]
    &&& keys_of(date->Some_0) == seq!["start"@, "end"@, "time_zone"@]
    &&& text_of(at_key(title, "type"@)) == Some("title"@)
    &&& items_of(at_key(title, "title"@)) is Some
    &&& items_of(at_key(title, "title"@))->Some_0.len() == 1
    &&& text_of(at_key(first, "type"@)) == Some("text"@)
    &&& text_of(at_key(at_key(first, "text"@), "content"@)) == Some(t.text@)
    &&& text_of(at_key(percent, "type"@)) == Some("number"@)
    &&& uint_of(at_key(percent, "number"@)) == Some(t.percent as u64)
    &&& text_of(at_key(status, "type"@)) == Some("status"@)
    &&& text_of(at_key(at_key(status, "status"@), "name"@)) == Some(t.status@)
    &&& text_of(at_key(time, "type"@)) == Some("date"@)
    &&& text_of(at_key(date, "start"@)) == Some(t.time.start@)
    &&& opt_text_value(at_key(date, "end"@), t.time.end)
    &&& opt_text_value(at_key(date, "time_zone"@), t.time.time_zone)
    &&& match t.tags {
        Some(names) => {
            &&& keys_of(member(p, "tags"@)->Some_0) == seq!["multi_select"@]
            &&& name_items_from(at_key(member(p, "tags"@), "multi_select"@), names@)
        },
        None => true,
    }
}

/// The items {"name": n} for each of `names`, in order.
pub fn name_items(names: &Vec<String>) -> (r: Json)
    ensures
        name_items_from(Some(r), names@),
{
    let mut items: Vec<Json> = Vec::new();
    let mut i: usize = 0;
    while i < names.len()
        invariant
            0 <= i <= names@.len(),
            items@.len() == i,
            forall|k: int|
                0 <= k < i ==> {
                    &&& keys_of(#[trigger] items@[k]) == seq!["name"@]
                    &&& text_of(member(items@[k], "name"@)) == Some(names@[k]@)
                },
        decreases names@.len() - i,
    {
        let item = object1("name", Json::Str(names[i].clone()));
        items.push(item);
        i = i + 1;
    }
    Json::Array(items)
}

/// The properties of task `t` in the form the task service takes them.
pub fn task_properties(t: &Task) -> (p: Json)
    ensures
        properties_of(p, *t),
{
    proof {
        reveal_strlit("type");
        reveal_strlit("title");
        reveal_strlit("text");
        reveal_strlit("content");
        reveal_strlit("number");
        reveal_strlit("status");
        reveal_strlit("name");
        reveal_strlit("date");
        reveal_strlit("start");
        reveal_strlit("end");
        reveal_strlit("time_zone");
        reveal_strlit("task");
        reveal_strlit("percent");
        reveal_strlit("time");
        reveal_strlit("tags");
        assert("type"@[1] != "text"@[1]);
        assert("type"@.len() != "title"@.len());
        assert("type"@.len() != "number"@.len());
        assert("type"@.len() != "status"@.len());
        assert("type"@.len() != "date"@.len() || "type"@[0] != "date"@[0]);
        assert("start"@.len() != "end"@.len());
        assert("start"@.len() != "time_zone"@.len());
        assert("end"@.len() != "time_zone"@.len());
        assert("task"@.len() != "percent"@.len());
        assert("task"@.len() != "status"@.len());
        assert("task"@[1] != "time"@[1]);
        assert("task"@[2] != "tags"@[2]);
        assert("percent"@.len() != "status"@.len());
        assert("percent"@.len() != "time"@.len());
        assert("percent"@.len() != "tags"@.len());
        assert("status"@.len() != "time"@.len());
        assert("status"@.len() != "tags"@.len());
        assert("time"@[1] != "tags"@[1]);
    }
    let first = object2("type", str_value("text"), "text", object1("content", Json::Str(t.text.clone())));
    let title_items = vec![first];
    assert(title_items@ == seq![first]);
    let title = object2("type", str_value("title"), "title", Json::Array(title_items));
    let percent = object2("type", str_value("number"), "number", Json::UInt(t.percent as u64));
    let status = object2("type", str_value("status"), "status", object1("name", Json::Str(t.status.clone())));
    let date = crate::json::object3(
        "start",
        Json::Str(t.time.start.clone()),
        "end",
        opt_str_value(&t.time.end),
        "time_zone",
        opt_str_value(&t.time.time_zone),
    );
    let time = object2("type", str_value("date"), "date", date);
    let mut members: Vec<(String, Json)> = Vec::new();
    members.push(("task".to_owned(), title));
    members.push(("percent".to_owned(), percent));
    members.push(("status".to_owned(), status));
    members.push(("time".to_owned(), time));
    match &t.tags {
        Some(names) => {
            members.push(("tags".to_owned(), object1("multi_select", name_items(names))));
        },
        None => {},
    }
    let p = Json::Object(members);
    proof {
        lemma_lookup_at(members@, 0);
        lemma_lookup_at(members@, 1);
        lemma_lookup_at(members@, 2);
        lemma_lookup_at(members@, 3);
        if t.tags is Some {
            lemma_lookup_at(members@, 4);
            assert(keys_of(p) =~= seq!["task"@, "percent"@, "status"@, "time"@, "tags"@]);
        } else {
            assert(keys_of(p) =~= seq!["task"@, "percent"@, "status"@, "time"@]);
        }
    }
    p
}


/// The body that updates task `t`: {"properties": ...}.
pub fn update_task_body(t: &Task) -> (r: Json)
    ensures
        keys_of(r) == seq!["properties"@],
        member(r, "properties"@) is Some,
        properties_of(member(r, "properties"@)->Some_0, *t),
{
    object1("properties", task_properties(t))
}

/// The body that adds task `t` to the database `database_id`:
/// {"parent": {"type": "database_id", "database_id": ...}, "properties": ...}.
pub fn add_task_body(t: &Task, database_id: &String) -> (r: Json)
    ensures
        keys_of(r) == seq!["parent"@, "properties"@],
        keys_of(member(r, "parent"@)->Some_0) == seq!["type"@, "database_id"@],
        text_of(at_key(member(r, "parent"@), "type"@)) == Some("database_id"@),
        text_of(at_key(member(r, "parent"@), "database_id"@)) == Some(database_id@),
        member(r, "properties"@) is Some,
        properties_of(member(r, "properties"@)->Some_0, *t),
{
    proof {
        reveal_strlit("type");
        reveal_strlit("database_id");
        reveal_strlit("parent");
        reveal_strlit("properties");
        assert("type"@.len() != "database_id"@.len());
        assert("parent"@.len() != "properties"@.len());
    }
    let parent = object2("type", str_value("database_id"), "database_id", Json::Str(database_id.clone()));
    object2("parent", parent, "properties", task_properties(t))
}

/// The body that replaces the tag options of a database with `tags`:
/// {"properties": {"tags": {"multi_select": {"options": [{"name": ...}]}}}}.
pub fn update_tags_body(tags: &Vec<String>) -> (r: Json)
    ensures
        keys_of(r) == seq!["properties"@],
        keys_of(member(r, "properties"@)->Some_0) == seq!["tags"@],
        keys_of(at_key(member(r, "properties"@), "tags"@)->Some_0) == seq!["multi_select"@],
        keys_of(at_key(at_key(member(r, "properties"@), "tags"@), "multi_select"@)->Some_0) == seq![
            "options"@,
        ],
        name_items_from(
            at_key(at_key(at_key(member(r, "properties"@), "tags"@), "multi_select"@), "options"@),
            tags@,
        ),
{
    let options = object1("options", name_items(tags));
    object1("properties", object1("tags", object1("multi_select", options)))
}


/// Whether `j` is {"property": "status", "status": {"equals": name}}.
pub open spec fn status_equals_json(j: Json, name: Seq<char>) -> bool {
    &&& keys_of(j) == seq!["property"@, "status"@]
    &&& text_of(member(j, "property"@)) == Some("status"@)
    &&& keys_of(member(j, "status"@)->Some_0) == seq!["equals"@]
    &&& text_of(at_key(member(j, "status"@), "equals"@)) == Some(name)
}

/// Whether `j` is {"property": "time", "date": {bound: date}}.
pub open spec fn date_json(j: Json, bound: Seq<char>, date: Seq<char>) -> bool {
    &&& keys_of(j) == seq!["property"@, "date"@]
    &&& text_of(member(j, "property"@)) == Some("time"@)
    &&& keys_of(member(j, "date"@)->Some_0) == seq![bound]
    &&& text_of(at_key(member(j, "date"@), bound)) == Some(date)
}

/// Whether `j` is the query filter `f` in the form the task service takes.
pub open spec fn filter_json(j: Json, f: FilterView) -> bool {
    match f {
        FilterView::OnOrAfter(d) => date_json(j, "on_or_after"@, d),
        FilterView::OnOrBefore(d) => date_json(j, "on_or_before"@, d),
        FilterView::StatusIn(names) => {
            &&& keys_of(j) == seq!["or"@]
            &&& items_of(member(j, "or"@)) is Some
            &&& items_of(member(j, "or"@))->Some_0.len() == names.len()
            &&& forall|i: int|
                0 <= i < names.len() ==> status_equals_json(
                    #[trigger] items_of(member(j, "or"@))->Some_0[i],
                    names[i],
                )
        },
    }
}

/// Whether `j` is {"property": property, "direction": direction}.
pub open spec fn sort_json(j: Json, property: Seq<char>, direction: Seq<char>) -> bool {
    &&& keys_of(j) == seq!["property"@, "direction"@]
    &&& text_of(member(j, "property"@)) == Some(property)
    &&& text_of(member(j, "direction"@)) == Some(direction)
}

fn status_or(names: &Vec<String>) -> (r: Json)
    ensures
        filter_json(r, FilterView::StatusIn(names@.map_values(|n: String| n@))),
{
    proof {
        reveal_strlit("property");
        reveal_strlit("status");
        assert("property"@.len() != "status"@.len());
    }
    let mut items: Vec<Json> = Vec::new();
    let mut i: usize = 0;
    while i < names.len()
        invariant
            0 <= i <= names@.len(),
            items@.len() == i,
            "property"@ != "status"@,
            forall|k: int| 0 <= k < i ==> status_equals_json(#[trigger] items@[k], names@[k]@),
        decreases names@.len() - i,
    {
        let item = object2(
            "property",
            str_value("status"),
            "status",
            object1("equals", Json::Str(names[i].clone())),
        );
        items.push(item);
        i = i + 1;
    }
    let r = object1("or", Json::Array(items));
    assert(items@.len() == names@.map_values(|n: String| n@).len());
    r
}

fn filter_value(f: &TaskFilter) -> (r: Json)
    ensures
        filter_json(r, f@),
{
    proof {
        reveal_strlit("property");
        reveal_strlit("date");
        assert("property"@.len() != "date"@.len());
    }
    match f {
        TaskFilter::OnOrAfter(d) => object2(
            "property",
            str_value("time"),
            "date",
            object1("on_or_after", Json::Str(d.clone())),
        ),
        TaskFilter::OnOrBefore(d) => object2(
            "property",
            str_value("time"),
            "date",
            object1("on_or_before", Json::Str(d.clone())),
        ),
        TaskFilter::StatusIn(names) => status_or(names),
    }
}

fn sort_value(property: &str, direction: &str) -> (r: Json)
    ensures
        sort_json(r, property@, direction@),
{
    proof {
        reveal_strlit("property");
        reveal_strlit("direction");
        assert("property"@.len() != "direction"@.len());
    }
    object2("property", str_value(property), "direction", str_value(direction))
}

/// The body of a task query: {"filter": {"and": [...]}, "sorts": [...]},
/// sorted by completion percentage, highest first, then by time.
pub fn search_body(condition: &SearchCondition) -> (r: Json)
    ensures
        keys_of(r) == seq!["filter"@, "sorts"@],
        keys_of(member(r, "filter"@)->Some_0) == seq!["and"@],
        items_of(at_key(member(r, "filter"@), "and"@)) is Some,
        items_of(at_key(member(r, "filter"@), "and"@))->Some_0.len() == condition.filters_view().len(),
        forall|i: int|
            0 <= i < condition.filters_view().len() ==> filter_json(
                #[trigger] items_of(at_key(member(r, "filter"@), "and"@))->Some_0[i],
                condition.filters_view()[i],
            ),
        items_of(member(r, "sorts"@)) is Some,
        items_of(member(r, "sorts"@))->Some_0.len() == 2,
        sort_json(items_of(member(r, "sorts"@))->Some_0[0], "percent"@, "descending"@),
        sort_json(items_of(member(r, "sorts"@))->Some_0[1], "time"@, "ascending"@),
{
    proof {
        reveal_strlit("filter");
        reveal_strlit("sorts");
        assert("filter"@[0] != "sorts"@[0]);
    }
    let mut filters: Vec<Json> = Vec::new();
    let mut i: usize = 0;
    while i < condition.filters.len()
        invariant
            0 <= i <= condition.filters@.len(),
            filters@.len() == i,
            forall|k: int| 0 <= k < i ==> filter_json(#[trigger] filters@[k], condition.filters@[k]@),
        decreases condition.filters@.len() - i,
    {
        let f = filter_value(&condition.filters[i]);
        filters.push(f);
        i = i + 1;
    }
    let sorts = vec![sort_value("percent", "descending"), sort_value("time", "ascending")];
    object2("filter", object1("and", Json::Array(filters)), "sorts", Json::Array(sorts))
}


/// The body of the search for databases, oldest edit first:
/// {"filter": {"value": "database", "property": "object"},
///  "sort": {"direction": "ascending", "timestamp": "last_edited_time"}}.
pub fn page_search_body() -> (r: Json)
    ensures
        keys_of(r) == seq!["filter"@, "sort"@],
        keys_of(member(r, "filter"@)->Some_0) == seq!["value"@, "property"@],
        text_of(at_key(member(r, "filter"@), "value"@)) == Some("database"@),
        text_of(at_key(member(r, "filter"@), "property"@)) == Some("object"@),
        keys_of(member(r, "sort"@)->Some_0) == seq!["direction"@, "timestamp"@],
        text_of(at_key(member(r, "sort"@), "direction"@)) == Some("ascending"@),
        text_of(at_key(member(r, "sort"@), "timestamp"@)) == Some("last_edited_time"@),
{
    proof {
        reveal_strlit("filter");
        reveal_strlit("sort");
        reveal_strlit("value");
        reveal_strlit("property");
        reveal_strlit("direction");
        reveal_strlit("timestamp");
        assert("filter"@.len() != "sort"@.len());
        assert("value"@.len() != "property"@.len());
        assert("direction"@[0] != "timestamp"@[0]);
    }
    let filter = object2("value", str_value("database"), "property", str_value("object"));
    let sort = object2("direction", str_value("ascending"), "timestamp", str_value("last_edited_time"));
    object2("filter", filter, "sort", sort)
}

/// The report of adding a task, from the service's answer: success with the
/// new task's "id"; nothing when the answer carries no id.
pub fn parse_added_task(response: &Json) -> (r: Option<SaveResult>)
    ensures
        r is Some <==> text_of(member(*response, "id"@)) is Some,
        r is Some ==> {
            let a = r->Some_0;
            &&& a.success
            &&& holds_text(a.id, text_of(member(*response, "id"@)))
            &&& a.error is None
            &&& a.tasks is None
            &&& a.status is None
            &&& a.pages is None
            &&& a.tags is None
        },
{
    match text(get(Some(response), "id")) {
        Some(id) => Some(
            SaveResult {
                success: true,
                error: None,
                id: Some(id),
                tasks: None,
                status: None,
                pages: None,
                tags: None,
            },
        ),
        None => None,
    }
}


/// A calendar date of the machine's time zone.
#[derive(Clone, Copy, Debug, PartialEq, Eq)]
pub struct LocalDate {
    pub year: i32,
    /// 1 to 12.
    pub month: u32,
    /// 1 to 31.
    pub day: u32,
}

/// The decimal digit `n`, for `n` from 0 to 9.
pub open spec fn digit(n: int) -> char {
    "0123456789"@[n]
}

/// The two decimal digits of `n`, for `n` from 0 to 99.
pub open spec fn two_digits(n: int) -> Seq<char> {
    seq![digit(n / 10), digit(n % 10)]
}

/// `YYYY-MM-DDTHH:MM:SS` for a wall-clock time on `date`, whose year is
/// from 0 to 9999.
pub open spec fn wall_clock_text(date: LocalDate, hour: u32, minute: u32, second: u32) -> Seq<char> {
    two_digits(date.year as int / 100) + two_digits(date.year as int % 100) + seq!['-'] + two_digits(date.month as int)
        + seq!['-'] + two_digits(date.day as int) + seq!['T'] + two_digits(hour as int) + seq![':']
        + two_digits(minute as int) + seq![':'] + two_digits(second as int)
}

/// Whether RFC 3339 text begins with the wall-clock time `hour:minute:second`
/// on `date`; said of the years from 0 to 9999, which are written in four
/// digits.
pub open spec fn starts_with_wall_clock(text: Seq<char>, date: LocalDate, hour: u32, minute: u32, second: u32) -> bool {
    0 <= date.year <= 9999 ==> text.len() >= 19 && text.subrange(0, 19) == wall_clock_text(
        date,
        hour,
        minute,
        second,
    )
}

/// Relies on chrono's `Local::now` and `DateTime::date_naive`: today's date
/// in the machine's time zone, whose month and day chrono keeps in range.
#[verifier::external_body]
fn local_today() -> (r: LocalDate)
    ensures
        1 <= r.month <= 12,
        1 <= r.day <= 31,
{
    let today = chrono::Local::now().date_naive();
    LocalDate { year: today.year(), month: today.month(), day: today.day() }
}

/// Relies on chrono's `TimeZone::from_local_datetime` for `Local`, taken
/// when it gives a single instant, and `DateTime::to_rfc3339`: the RFC 3339
/// text of a wall-clock time of the machine's time zone. Nothing when the
/// date does not exist or the time falls in a gap or a fold of that zone.
/// For a single instant the local time written is the one given, with no
/// fraction of a second, so the text begins with it.
#[verifier::external_body]
fn local_time_rfc3339(date: LocalDate, hour: u32, minute: u32, second: u32) -> (r: Option<String>)
    requires
        hour < 24,
        minute < 60,
        second < 60,
    ensures
        r is Some ==> starts_with_wall_clock(r->Some_0@, date, hour, minute, second),
{
    chrono::NaiveDate::from_ymd_opt(date.year, date.month, date.day)
        .and_then(|d| d.and_hms_opt(hour, minute, second))
        .and_then(|t| chrono::Local.from_local_datetime(&t).single())
        .map(|t| t.to_rfc3339())
}

/// The first and the last second of today in the machine's time zone, as
/// RFC 3339 text: the bounds of the default task query. Both come from one
/// reading of the date; nothing when either time does not exist there once.
pub fn today_bounds() -> (r: Option<(String, String)>)
    ensures
        r is Some ==> exists|d: LocalDate|
            starts_with_wall_clock(#[trigger] r->Some_0.0@, d, 0, 0, 0) && starts_with_wall_clock(
                r->Some_0.1@,
                d,
                23,
                59,
                59,
            ),
{
    let today = local_today();
    match (local_time_rfc3339(today, 0, 0, 0), local_time_rfc3339(today, 23, 59, 59)) {
        (Some(begin), Some(end)) => {
            assert(starts_with_wall_clock(begin@, today, 0, 0, 0));
            assert(starts_with_wall_clock(end@, today, 23, 59, 59));
            let r = Some((begin, end));
            assert(starts_with_wall_clock(r->Some_0.0@, today, 0, 0, 0) && starts_with_wall_clock(
                r->Some_0.1@,
                today,
                23,
                59,
                59,
            ));
            r
        },
        _ => None,
    }
}


/// The query for tasks with `params`. The clock is read only when no
/// parameters are given, for the bounds of today; nothing when those bounds
/// do not exist in the machine's time zone.
pub fn search_condition_for(params: &Option<TaskParams>) -> (r: Option<SearchCondition>)
    ensures
        params is Some ==> r is Some && r->Some_0.filters_view() == query_filters(
            query_terms(*params, Seq::empty(), Seq::empty()),
        ),
        params is None && r is Some ==> exists|d: LocalDate, begin: Seq<char>, end: Seq<char>|
            #![trigger starts_with_wall_clock(begin, d, 0, 0, 0), starts_with_wall_clock(end, d, 23, 59, 59)]
            starts_with_wall_clock(begin, d, 0, 0, 0) && starts_with_wall_clock(end, d, 23, 59, 59)
                && r->Some_0.filters_view() == query_filters(query_terms(None, begin, end)),
{
    match params {
        Some(_) => Some(get_search_condition(params, &String::new(), &String::new())),
        None => match today_bounds() {
            Some((begin, end)) => {
                let ghost d = choose|d: LocalDate|
                    starts_with_wall_clock(begin@, d, 0, 0, 0) && starts_with_wall_clock(end@, d, 23, 59, 59);
                let c = get_search_condition(params, &begin, &end);
                assert(starts_with_wall_clock(begin@, d, 0, 0, 0) && starts_with_wall_clock(end@, d, 23, 59, 59)
                    && c.filters_view() == query_filters(query_terms(None, begin@, end@)));
                Some(c)
            },
            None => None,
        },
    }
}

} // verus!
