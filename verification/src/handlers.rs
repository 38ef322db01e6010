//! One function for each endpoint: what it asks of the worker router, and what it answers.
//!
//! An endpoint that merely relays gives the call to make; the answer to the call is the answer to
//! the request. The endpoints that manage workers look at the request first and phrase the answer
//! themselves. The module `exchange` puts the two halves of each endpoint together.

use vstd::prelude::*;
use vstd::string::StringExecFns;
use crate::json::{json_object, json_object_reads_back, json_object_text, read_object};
use crate::message::{
    Body, BodyView, Method, RequestHead, RequestHeadView, Response, ResponseView, BAD_REQUEST,
    NOT_FOUND, OK,
};

verus! {

/// A call on the worker router. `J` is a JSON value.
#[derive(Debug)]
pub enum RouterCall<J> {
    Liveness,
    Readiness,
    Health(RequestHead),
    HealthGenerate(RequestHead),
    ServerInfo(RequestHead),
    Models(RequestHead),
    ModelInfo(RequestHead),
    Generate(RequestHead, J),
    Chat(RequestHead, J),
    Completion(RequestHead, J),
    FlushCache,
    WorkerLoads,
    AddWorker(String),
    RemoveWorker(String),
    WorkerUrls,
}

/// The contents of a [`RouterCall`].
pub enum RouterCallView<J> {
    Liveness,
    Readiness,
    Health(RequestHeadView),
    HealthGenerate(RequestHeadView),
    ServerInfo(RequestHeadView),
    Models(RequestHeadView),
    ModelInfo(RequestHeadView),
    Generate(RequestHeadView, J),
    Chat(RequestHeadView, J),
    Completion(RequestHeadView, J),
    FlushCache,
    WorkerLoads,
    AddWorker(Seq<char>),
    RemoveWorker(Seq<char>),
    WorkerUrls,
}

impl<J> View for RouterCall<J> {
    type V = RouterCallView<J>;

    open spec fn view(&self) -> RouterCallView<J> {
        match *self {
            RouterCall::Liveness => RouterCallView::Liveness,
            RouterCall::Readiness => RouterCallView::Readiness,
            RouterCall::Health(head) => RouterCallView::Health(head@),
            RouterCall::HealthGenerate(head) => RouterCallView::HealthGenerate(head@),
            RouterCall::ServerInfo(head) => RouterCallView::ServerInfo(head@),
            RouterCall::Models(head) => RouterCallView::Models(head@),
            RouterCall::ModelInfo(head) => RouterCallView::ModelInfo(head@),
            RouterCall::Generate(head, json) => RouterCallView::Generate(head@, json),
            RouterCall::Chat(head, json) => RouterCallView::Chat(head@, json),
            RouterCall::Completion(head, json) => RouterCallView::Completion(head@, json),
            RouterCall::FlushCache => RouterCallView::FlushCache,
            RouterCall::WorkerLoads => RouterCallView::WorkerLoads,
            RouterCall::AddWorker(url) => RouterCallView::AddWorker(url@),
            RouterCall::RemoveWorker(url) => RouterCallView::RemoveWorker(url@),
            RouterCall::WorkerUrls => RouterCallView::WorkerUrls,
        }
    }
}

/// The head of a request that says nothing: `GET /`.
pub open spec fn blank_head() -> RequestHeadView {
    RequestHeadView { method: Method::Get, uri: "/"@ }
}

/// The head of a request that posts to a path.
pub open spec fn post_head(uri: Seq<char>) -> RequestHeadView {
    RequestHeadView { method: Method::Post, uri }
}

/// The answer to a request that no route takes.
pub open spec fn not_found() -> ResponseView {
    ResponseView { status: NOT_FOUND, body: BodyView::Empty }
}

fn blank() -> (r: RequestHead)
    ensures
        r@ == blank_head(),
{
    RequestHead { method: Method::Get, uri: "/".to_owned() }
}

fn post(uri: &str) -> (r: RequestHead)
    ensures
        r@ == post_head(uri@),
{
    RequestHead { method: Method::Post, uri: uri.to_owned() }
}

/// Answers a request that no route takes.
pub fn sink_handler() -> (r: Response)
    ensures
        r@ == not_found(),
        r.status == 404,
        r.body is Empty,
{
    Response { status: NOT_FOUND, body: Body::Empty }
}

/// `GET /liveness`
pub fn liveness<J>() -> (call: RouterCall<J>)
    ensures
        call@ == RouterCallView::<J>::Liveness,
        call is Liveness,
{
    RouterCall::Liveness
}

/// `GET /readiness`
pub fn readiness<J>() -> (call: RouterCall<J>)
    ensures
        call@ == RouterCallView::<J>::Readiness,
        call is Readiness,
{
    RouterCall::Readiness
}

/// `GET /health`
pub fn health<J>() -> (call: RouterCall<J>)
    ensures
        call@ == RouterCallView::<J>::Health(blank_head()),
        call matches RouterCall::Health(head) && head.method == Method::Get && head.uri@ == "/"@,
{
    RouterCall::Health(blank())
}

/// `GET /health_generate`
pub fn health_generate<J>() -> (call: RouterCall<J>)
    ensures
        call@ == RouterCallView::<J>::HealthGenerate(blank_head()),
        call matches RouterCall::HealthGenerate(head) && head.method == Method::Get && head.uri@
            == "/"@,
{
    RouterCall::HealthGenerate(blank())
}

/// `GET /get_server_info`
pub fn get_server_info<J>() -> (call: RouterCall<J>)
    ensures
        call@ == RouterCallView::<J>::ServerInfo(blank_head()),
        call matches RouterCall::ServerInfo(head) && head.method == Method::Get && head.uri@
            == "/"@,
{
    RouterCall::ServerInfo(blank())
}

/// `GET /v1/models`
pub fn v1_models<J>() -> (call: RouterCall<J>)
    ensures
        call@ == RouterCallView::<J>::Models(blank_head()),
        call matches RouterCall::Models(head) && head.method == Method::Get && head.uri@ == "/"@,
{
    RouterCall::Models(blank())
}

/// `GET /get_model_info`
pub fn get_model_info<J>() -> (call: RouterCall<J>)
    ensures
        call@ == RouterCallView::<J>::ModelInfo(blank_head()),
        call matches RouterCall::ModelInfo(head) && head.method == Method::Get && head.uri@
            == "/"@,
{
    RouterCall::ModelInfo(blank())
}

/// `POST /generate`, with the body of the request.
pub fn generate<J>(json_body: J) -> (call: RouterCall<J>)
    ensures
        call@ == RouterCallView::Generate(post_head("/generate"@), json_body),
        call matches RouterCall::Generate(head, json) && head.method == Method::Post && head.uri@
            == "/generate"@ && json == json_body,
{
    RouterCall::Generate(post("/generate"), json_body)
}

/// `POST /v1/chat/completions`, with the body of the request.
pub fn v1_chat_completions<J>(json_body: J) -> (call: RouterCall<J>)
    ensures
        call@ == RouterCallView::Chat(post_head("/v1/chat/completions"@), json_body),
        call matches RouterCall::Chat(head, json) && head.method == Method::Post && head.uri@
            == "/v1/chat/completions"@ && json == json_body,
{
    RouterCall::Chat(post("/v1/chat/completions"), json_body)
}

/// `POST /v1/completions`, with the body of the request.
pub fn v1_completions<J>(json_body: J) -> (call: RouterCall<J>)
    ensures
        call@ == RouterCallView::Completion(post_head("/v1/completions"@), json_body),
        call matches RouterCall::Completion(head, json) && head.method == Method::Post && head.uri@
            == "/v1/completions"@ && json == json_body,
{
    RouterCall::Completion(post("/v1/completions"), json_body)
}

/// `POST /flush_cache`
pub fn flush_cache<J>() -> (call: RouterCall<J>)
    ensures
        call@ == RouterCallView::<J>::FlushCache,
        call is FlushCache,
{
    RouterCall::FlushCache
}

/// `GET /get_loads`
pub fn get_loads<J>() -> (call: RouterCall<J>)
    ensures
        call@ == RouterCallView::<J>::WorkerLoads,
        call is WorkerLoads,
{
    RouterCall::WorkerLoads
}

/// The value of a query parameter: that of the last pair of the name, `None` where there is none.
pub open spec fn param_value(params: Seq<(Seq<char>, Seq<char>)>, name: Seq<char>) -> Option<
    Seq<char>,
>
    decreases params.len(),
{
    if params.len() == 0 {
        None
    } else if params.last().0 == name {
        Some(params.last().1)
    } else {
        param_value(params.drop_last(), name)
    }
}

/// The worker that a request to add or remove one names.
pub open spec fn worker_url(params: Seq<(Seq<char>, Seq<char>)>) -> Option<Seq<char>> {
    param_value(params, "url"@)
}

/// The answer to a request to add a worker that names none.
pub open spec fn url_required() -> ResponseView {
    ResponseView {
        status: BAD_REQUEST,
        body: BodyView::Text("Worker URL required. Provide 'url' query parameter"@),
    }
}

/// The answer to a request to add a worker, once the worker router was asked.
pub open spec fn add_worker_outcome(result: Result<Seq<char>, Seq<char>>) -> ResponseView {
    match result {
        Ok(message) => ResponseView { status: OK, body: BodyView::Text(message) },
        Err(error) => ResponseView { status: BAD_REQUEST, body: BodyView::Text(error) },
    }
}

/// The answer to a request to remove a worker.
pub open spec fn remove_worker_outcome(url: Option<Seq<char>>) -> ResponseView {
    match url {
        Some(url) => ResponseView {
            status: OK,
            body: BodyView::Text("Successfully removed worker: "@ + url),
        },
        None => ResponseView { status: BAD_REQUEST, body: BodyView::Empty },
    }
}

/// A text result, by the contents of the texts.
pub open spec fn text_result(result: Result<String, String>) -> Result<Seq<char>, Seq<char>> {
    match result {
        Ok(text) => Ok(text@),
        Err(text) => Err(text@),
    }
}

fn find_param(params: &Vec<(String, String)>, name: &str) -> (r: Option<String>)
    ensures
        r.deep_view() == param_value(params.deep_view(), name@),
        r is None <==> (forall|i: int|
            0 <= i < params@.len() ==> (#[trigger] params@[i]).0@ != name@),
        r matches Some(value) ==> exists|i: int|
            {
                &&& 0 <= i < params@.len()
                &&& (#[trigger] params@[i]).0@ == name@
                &&& params@[i].1@ == value@
                &&& forall|j: int| i < j < params@.len() ==> (#[trigger] params@[j]).0@ != name@
            },
{
    let name_text = name.to_owned();
    let ghost pairs = params.deep_view();
    let mut end: usize = params.len();
    proof {
        assert(pairs.take(end as int) =~= pairs);
    }
    while end > 0
        invariant
            end <= params.len(),
            pairs == params.deep_view(),
            name_text@ == name@,
            param_value(pairs.take(end as int), name@) == param_value(pairs, name@),
            forall|j: int| end <= j < params@.len() ==> (#[trigger] params@[j]).0@ != name@,
        decreases end,
    {
        end = end - 1;
        let ghost front = pairs.take(end as int + 1);
        proof {
            assert(front.drop_last() =~= pairs.take(end as int));
            assert(front.last() == params[end as int].deep_view());
        }
        if params[end].0 == name_text {
            return Some(params[end].1.clone());
        }
    }
    None
}

/// `POST /add_worker`, on the query's pairs in the order they came: the worker to add, or the
/// answer to a request that names none.
pub fn add_worker(params: &Vec<(String, String)>) -> (r: Result<String, Response>)
    ensures
        match r {
            Ok(url) => worker_url(params.deep_view()) == Some(url@),
            Err(response) => worker_url(params.deep_view()) is None && response@ == url_required(),
        },
        r is Err <==> (forall|i: int|
            0 <= i < params@.len() ==> (#[trigger] params@[i]).0@ != "url"@),
        r matches Ok(url) ==> exists|i: int|
            {
                &&& 0 <= i < params@.len()
                &&& (#[trigger] params@[i]).0@ == "url"@
                &&& params@[i].1@ == url@
                &&& forall|j: int| i < j < params@.len() ==> (#[trigger] params@[j]).0@ != "url"@
            },
        r matches Err(response) ==> response.status == 400 && (response.body matches Body::Text(
            text,
        ) && text@ == "Worker URL required. Provide 'url' query parameter"@),
{
    match find_param(params, "url") {
        Some(url) => Ok(url),
        None => Err(
            Response {
                status: BAD_REQUEST,
                body: Body::Text("Worker URL required. Provide 'url' query parameter".to_owned()),
            },
        ),
    }
}

/// Answers `POST /add_worker` with what the worker router said.
pub fn add_worker_response(result: Result<String, String>) -> (r: Response)
    ensures
        r@ == add_worker_outcome(text_result(result)),
        match result {
            Ok(message) => r.status == 200 && r.body == Body::Text(message),
            Err(error) => r.status == 400 && r.body == Body::Text(error),
        },
{
    match result {
        Ok(message) => Response { status: OK, body: Body::Text(message) },
        Err(error) => Response { status: BAD_REQUEST, body: Body::Text(error) },
    }
}

/// `POST /remove_worker`, on the query's pairs in the order they came: the worker to remove, if
/// the request names one, and the answer to give then.
pub fn remove_worker(params: &Vec<(String, String)>) -> (r: (Option<String>, Response))
    ensures
        r.0.deep_view() == worker_url(params.deep_view()),
        r.1@ == remove_worker_outcome(worker_url(params.deep_view())),
        r.0 is None <==> (forall|i: int|
            0 <= i < params@.len() ==> (#[trigger] params@[i]).0@ != "url"@),
        r.0 matches Some(url) ==> exists|i: int|
            {
                &&& 0 <= i < params@.len()
                &&& (#[trigger] params@[i]).0@ == "url"@
                &&& params@[i].1@ == url@
                &&& forall|j: int| i < j < params@.len() ==> (#[trigger] params@[j]).0@ != "url"@
            },
        r.0 is None ==> r.1.status == 400 && r.1.body is Empty,
        r.0 matches Some(url) ==> r.1.status == 200 && (r.1.body matches Body::Text(text) && text@
            == "Successfully removed worker: "@ + url@),
{
    match find_param(params, "url") {
        Some(url) => {
            let message = "Successfully removed worker: ".to_owned().concat(url.as_str());
            (Some(url), Response { status: OK, body: Body::Text(message) })
        },
        None => (None, Response { status: BAD_REQUEST, body: Body::Empty }),
    }
}

/// The answer to a request for the list of workers.
pub open spec fn worker_listing(urls: Seq<Seq<char>>) -> ResponseView {
    ResponseView { status: OK, body: BodyView::Json(json_object_text("urls"@, urls)) }
}

/// Answers `GET /list_workers` with the URLs that the worker router knows.
pub fn list_workers(worker_list: &Vec<String>) -> (r: Response)
    ensures
        r@ == worker_listing(worker_list.deep_view()),
        r.status == 200,
        r.body matches Body::Json(text) && read_object(text@) == Some(
            ("urls"@, worker_list.deep_view()),
        ),
{
    proof {
        json_object_reads_back("urls"@, worker_list.deep_view());
    }
    Response { status: OK, body: Body::Json(json_object("urls", worker_list)) }
}

} // verus!
