//! The remote task tracker: the requests this dashboard sends to it, and how
//! its answers become tasks, a day start, or an `UpstreamError`.
//!
//! Sending a request and decoding a JSON body happen outside the library; the
//! functions here say what is sent and decide what an answer means.

use vstd::prelude::*;
use crate::calendar::WallClock;
use crate::schedule::{due_subsequence, due_tasks, Task};

verus! {

/// Base address of the tracker's API.
pub const API_BASE: &'static str = "https://habitica.com/api/v3";

/// Path of the task list, below the base address.
pub const TASKS_PATH: &'static str = "/tasks/user";

/// Path of the user's preferences, below the base address.
pub const PREFERENCES_PATH: &'static str = "/user?userFields=preferences";

/// Value of the client identifier header sent with every request.
pub const CLIENT_ID: &'static str = "test-app";

/// Header that names the client.
pub const CLIENT_HEADER: &'static str = "x-client";

/// Header that carries the user id.
pub const USER_HEADER: &'static str = "x-api-user";

/// Header that carries the API key.
pub const KEY_HEADER: &'static str = "x-api-key";

/// Header that gives the length of the request body.
pub const LENGTH_HEADER: &'static str = "Content-Length";

/// The length of an empty body.
pub const EMPTY_LENGTH: &'static str = "0";

/// The one status on which the scoring call succeeded.
pub const SCORED: u16 = 200;

/// The account on the remote tracker.
#[derive(Clone, Debug)]
pub struct Credentials {
    pub api_key: String,
    pub user_id: String,
}

/// The HTTP method of a request.
#[derive(Clone, Copy, Debug, PartialEq, Eq, Structural)]
pub enum Method {
    Get,
    Post,
}

/// One request header.
#[derive(Clone, Debug)]
pub struct Header {
    pub name: String,
    pub value: String,
}

/// A request to the tracker, with no body.
#[derive(Clone, Debug)]
pub struct ApiRequest {
    pub method: Method,
    pub url: String,
    pub headers: Vec<Header>,
}

/// A failed call to the tracker.
#[derive(Clone, Copy, Debug, PartialEq, Eq, Structural)]
pub enum UpstreamError {
    /// No answer came back: the connection failed or timed out.
    Transport,
    /// The answer carried this status, which is not a success.
    Status(u16),
    /// The answer's body did not have the expected shape.
    Malformed,
}

/// The headers that authenticate every request: the client identifier, the
/// user id and the API key, in that order.
pub open spec fn is_auth_headers(h: Seq<Header>, creds: Credentials) -> bool {
    &&& h.len() == 3
    &&& h[0].name@ == CLIENT_HEADER@ && h[0].value@ == CLIENT_ID@
    &&& h[1].name@ == USER_HEADER@ && h[1].value@ == creds.user_id@
    &&& h[2].name@ == KEY_HEADER@ && h[2].value@ == creds.api_key@
}

/// `r` is a request with the given method and address, carrying the
/// authentication headers.
pub open spec fn is_request(r: ApiRequest, method: Method, url: Seq<char>, creds: Credentials) -> bool {
    &&& r.method == method
    &&& r.url@ == url
    &&& is_auth_headers(r.headers@, creds)
}

/// `r` is a request with the given method and address, carrying the
/// authentication headers followed by a header that declares an empty body.
pub open spec fn is_empty_body_request(
    r: ApiRequest,
    method: Method,
    url: Seq<char>,
    creds: Credentials,
) -> bool {
    &&& r.method == method
    &&& r.url@ == url
    &&& r.headers@.len() == 4
    &&& is_auth_headers(r.headers@.subrange(0, 3), creds)
    &&& r.headers@[3].name@ == LENGTH_HEADER@
    &&& r.headers@[3].value@ == EMPTY_LENGTH@
}

/// Address of the call that scores the task `task_id` upward.
pub open spec fn score_url(task_id: Seq<char>) -> Seq<char> {
    API_BASE@ + seq!['/', 't', 'a', 's', 'k', 's', '/'] + task_id + seq![
        '/',
        's',
        'c',
        'o',
        'r',
        'e',
        '/',
        'u',
        'p',
    ]
}

/// The header `name: value`.
fn header(name: &str, value: &str) -> (r: Header)
    ensures
        r.name@ == name@,
        r.value@ == value@,
{
    Header { name: name.to_owned(), value: value.to_owned() }
}

/// The authentication headers for `creds`.
pub fn auth_headers(creds: &Credentials) -> (r: Vec<Header>)
    ensures
        is_auth_headers(r@, *creds),
{
    let mut r: Vec<Header> = Vec::new();
    r.push(header(CLIENT_HEADER, CLIENT_ID));
    r.push(header(USER_HEADER, creds.user_id.as_str()));
    r.push(header(KEY_HEADER, creds.api_key.as_str()));
    r
}

/// The authentication headers for `creds`, then the header that declares an
/// empty body.
fn empty_body_headers(creds: &Credentials) -> (r: Vec<Header>)
    ensures
        r@.len() == 4,
        is_auth_headers(r@.subrange(0, 3), *creds),
        r@[3].name@ == LENGTH_HEADER@,
        r@[3].value@ == EMPTY_LENGTH@,
{
    let mut r = auth_headers(creds);
    let ghost auth = r@;
    r.push(header(LENGTH_HEADER, EMPTY_LENGTH));
    assert(r@.subrange(0, 3) =~= auth);
    r
}

/// The request for the whole task list.
pub fn tasks_request(creds: &Credentials) -> (r: ApiRequest)
    ensures
        is_request(r, Method::Get, API_BASE@ + TASKS_PATH@, *creds),
{
    let mut url = API_BASE.to_owned();
    url.append(TASKS_PATH);
    ApiRequest { method: Method::Get, url, headers: auth_headers(creds) }
}

/// The request for the user's preferences, which hold the day start.
pub fn preferences_request(creds: &Credentials) -> (r: ApiRequest)
    ensures
        is_empty_body_request(r, Method::Get, API_BASE@ + PREFERENCES_PATH@, *creds),
{
    let mut url = API_BASE.to_owned();
    url.append(PREFERENCES_PATH);
    ApiRequest { method: Method::Get, url, headers: empty_body_headers(creds) }
}

/// The request that scores the task `task_id` upward, marking it done.
pub fn score_request(creds: &Credentials, task_id: &str) -> (r: ApiRequest)
    ensures
        is_empty_body_request(r, Method::Post, score_url(task_id@), *creds),
{
    let mut url = API_BASE.to_owned();
    proof {
        reveal_strlit("/tasks/");
        reveal_strlit("/score/up");
    }
    url.append("/tasks/");
    url.append(task_id);
    url.append("/score/up");
    assert(url@ =~= score_url(task_id@));
    ApiRequest { method: Method::Post, url, headers: empty_body_headers(creds) }
}

/// A status in the success class, 200 to 299.
pub open spec fn is_success(status: u16) -> bool {
    200 <= status < 300
}

/// What an answer with this status and decoded body means: the body's value
/// on a success status with a body of the expected shape; else the status
/// error, or, on a success status, the malformed-body error.
pub open spec fn answer<T>(status: u16, body: Option<T>) -> Result<T, UpstreamError> {
    if !is_success(status) {
        Err(UpstreamError::Status(status))
    } else {
        match body {
            Some(v) => Ok(v),
            None => Err(UpstreamError::Malformed),
        }
    }
}

/// Whether `status` is in the success class.
pub fn status_ok(status: u16) -> (r: bool)
    ensures
        r == is_success(status),
{
    200 <= status && status < 300
}

/// The task list from an answer to the task-list request; `body` is `None`
/// where the body did not decode.
pub fn read_tasks(status: u16, body: Option<Vec<Task>>) -> (r: Result<Vec<Task>, UpstreamError>)
    ensures
        r == answer(status, body),
{
    if !status_ok(status) {
        return Err(UpstreamError::Status(status));
    }
    match body {
        Some(v) => Ok(v),
        None => Err(UpstreamError::Malformed),
    }
}

/// The day start from an answer to the preferences request; `body` is `None`
/// where the body did not decode.
pub fn read_day_start(status: u16, body: Option<i32>) -> (r: Result<i32, UpstreamError>)
    ensures
        r == answer(status, body),
{
    if !status_ok(status) {
        return Err(UpstreamError::Status(status));
    }
    match body {
        Some(v) => Ok(v),
        None => Err(UpstreamError::Malformed),
    }
}

/// The outcome of the scoring call from the status of its answer: done on
/// status 200 alone, else the status error, with nothing further done. Other
/// statuses of the success class are failures here too.
pub fn read_score(status: u16) -> (r: Result<(), UpstreamError>)
    ensures
        r is Ok <==> status == SCORED,
        status != SCORED ==> r == Err::<(), UpstreamError>(UpstreamError::Status(status)),
{
    if status == SCORED {
        Ok(())
    } else {
        Err(UpstreamError::Status(status))
    }
}

/// The dashboard's task list: from the day start and the task list fetched
/// in that order, the tasks due at `now`, in the tracker's order. The first
/// failed call decides the error; no list is shown after a failure.
pub fn dashboard_tasks(
    day_start: Result<i32, UpstreamError>,
    tasks: Result<Vec<Task>, UpstreamError>,
    now: &WallClock,
) -> (r: Result<Vec<Task>, UpstreamError>)
    requires
        now.wf(),
    ensures
        day_start is Err ==> r == Err::<Vec<Task>, UpstreamError>(day_start->Err_0),
        day_start is Ok && tasks is Err ==> r == Err::<Vec<Task>, UpstreamError>(tasks->Err_0),
        day_start is Ok && tasks is Ok ==> r is Ok && (r->Ok_0)@ == due_subsequence(
            (tasks->Ok_0)@,
            now.spec_effective_weekday((day_start->Ok_0) as int),
        ),
{
    match day_start {
        Err(e) => Err(e),
        Ok(h) => match tasks {
            Err(e) => Err(e),
            Ok(ts) => Ok(due_tasks(&ts, now, h)),
        },
    }
}

} // verus!
