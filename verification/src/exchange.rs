//! One request from its endpoint to its answer: what the worker router is asked, at most once, and
//! what is answered then.

use vstd::prelude::*;
use crate::handlers::{
    add_worker, add_worker_outcome, add_worker_response, blank_head, flush_cache, generate,
    get_loads, get_model_info, get_server_info, health, health_generate, list_workers, liveness,
    post_head, readiness, remove_worker, remove_worker_outcome, text_result, url_required,
    v1_chat_completions, v1_completions, v1_models, worker_listing, worker_url, RouterCall,
    RouterCallView,
};
use crate::json::read_object;
use crate::message::{Body, Method, Response, ResponseView};
use crate::routes::Endpoint;

verus! {

/// What an endpoint takes from a request.
#[derive(Clone, Copy, Debug, PartialEq, Eq, Structural)]
pub enum InputKind {
    Nothing,
    Params,
    Json,
}

/// What was taken from a request. `J` is a JSON value.
#[derive(Debug)]
pub enum Input<J> {
    Nothing,
    /// The pairs of the query, in the order they came.
    Params(Vec<(String, String)>),
    /// The body.
    Json(J),
}

/// The contents of an [`Input`].
pub enum InputView<J> {
    Nothing,
    Params(Seq<(Seq<char>, Seq<char>)>),
    Json(J),
}

impl<J> View for Input<J> {
    type V = InputView<J>;

    open spec fn view(&self) -> InputView<J> {
        match *self {
            Input::Nothing => InputView::Nothing,
            Input::Params(params) => InputView::Params(params.deep_view()),
            Input::Json(json) => InputView::Json(json),
        }
    }
}

/// What the answer to a request still waits for.
#[derive(Debug)]
pub enum Pending {
    /// The router's response, which is the answer.
    Relayed,
    /// Whether the worker was added.
    Added,
    /// That the worker was removed; the answer is ready.
    Removed(Response),
    /// The URLs of the workers.
    Listed,
}

/// The contents of a [`Pending`].
pub enum PendingView {
    Relayed,
    Added,
    Removed(ResponseView),
    Listed,
}

impl View for Pending {
    type V = PendingView;

    open spec fn view(&self) -> PendingView {
        match *self {
            Pending::Relayed => PendingView::Relayed,
            Pending::Added => PendingView::Added,
            Pending::Removed(response) => PendingView::Removed(response@),
            Pending::Listed => PendingView::Listed,
        }
    }
}

/// What becomes of a request.
#[derive(Debug)]
pub enum Handling<J> {
    /// It is answered, and the router is asked nothing.
    Answered(Response),
    /// The router is asked this, once, and the answer waits for the reply.
    Asked(RouterCall<J>, Pending),
}

/// What the router replied. `R` is a response.
#[derive(Debug)]
pub enum RouterReply<R> {
    Response(R),
    Added(Result<String, String>),
    Removed,
    Urls(Vec<String>),
}

/// The contents of a [`RouterReply`].
pub enum RouterReplyView<R> {
    Response(R),
    Added(Result<Seq<char>, Seq<char>>),
    Removed,
    Urls(Seq<Seq<char>>),
}

impl<R> View for RouterReply<R> {
    type V = RouterReplyView<R>;

    open spec fn view(&self) -> RouterReplyView<R> {
        match *self {
            RouterReply::Response(response) => RouterReplyView::Response(response),
            RouterReply::Added(result) => RouterReplyView::Added(text_result(result)),
            RouterReply::Removed => RouterReplyView::Removed,
            RouterReply::Urls(urls) => RouterReplyView::Urls(urls.deep_view()),
        }
    }
}

/// The answer to a request: the router's response, or one of its own.
#[derive(Debug)]
pub enum Answer<R> {
    Relayed(R),
    Own(Response),
}

/// The contents of an [`Answer`].
pub enum AnswerView<R> {
    Relayed(R),
    Own(ResponseView),
}

impl<R> View for Answer<R> {
    type V = AnswerView<R>;

    open spec fn view(&self) -> AnswerView<R> {
        match *self {
            Answer::Relayed(response) => AnswerView::Relayed(response),
            Answer::Own(response) => AnswerView::Own(response@),
        }
    }
}

/// What an endpoint takes from a request.
pub open spec fn kind_for(endpoint: Endpoint) -> InputKind {
    match endpoint {
        Endpoint::Generate | Endpoint::ChatCompletions | Endpoint::Completions => InputKind::Json,
        Endpoint::AddWorker | Endpoint::RemoveWorker => InputKind::Params,
        _ => InputKind::Nothing,
    }
}

/// Whether an input is what an endpoint takes.
pub open spec fn fits<J>(input: InputView<J>, endpoint: Endpoint) -> bool {
    match kind_for(endpoint) {
        InputKind::Nothing => input is Nothing,
        InputKind::Params => input is Params,
        InputKind::Json => input is Json,
    }
}

/// The one call that a request makes on the router; `None` where it makes none.
pub open spec fn asked<J>(endpoint: Endpoint, input: InputView<J>) -> Option<RouterCallView<J>> {
    match endpoint {
        Endpoint::Generate => Some(RouterCallView::Generate(post_head("/generate"@), input->Json_0)),
        Endpoint::ChatCompletions => Some(
            RouterCallView::Chat(post_head("/v1/chat/completions"@), input->Json_0),
        ),
        Endpoint::Completions => Some(
            RouterCallView::Completion(post_head("/v1/completions"@), input->Json_0),
        ),
        Endpoint::Liveness => Some(RouterCallView::Liveness),
        Endpoint::Readiness => Some(RouterCallView::Readiness),
        Endpoint::Health => Some(RouterCallView::Health(blank_head())),
        Endpoint::HealthGenerate => Some(RouterCallView::HealthGenerate(blank_head())),
        Endpoint::Models => Some(RouterCallView::Models(blank_head())),
        Endpoint::ModelInfo => Some(RouterCallView::ModelInfo(blank_head())),
        Endpoint::ServerInfo => Some(RouterCallView::ServerInfo(blank_head())),
        Endpoint::AddWorker => match worker_url(input->Params_0) {
            Some(url) => Some(RouterCallView::AddWorker(url)),
            None => None,
        },
        Endpoint::RemoveWorker => match worker_url(input->Params_0) {
            Some(url) => Some(RouterCallView::RemoveWorker(url)),
            None => None,
        },
        Endpoint::ListWorkers => Some(RouterCallView::WorkerUrls),
        Endpoint::FlushCache => Some(RouterCallView::FlushCache),
        Endpoint::Loads => Some(RouterCallView::WorkerLoads),
    }
}

/// The answer to a request that makes no call on the router.
pub open spec fn refused(endpoint: Endpoint) -> ResponseView {
    match endpoint {
        Endpoint::AddWorker => url_required(),
        _ => remove_worker_outcome(None),
    }
}

/// What the answer to a request waits for once the router was asked.
pub open spec fn awaited<J>(endpoint: Endpoint, input: InputView<J>) -> PendingView {
    match endpoint {
        Endpoint::AddWorker => PendingView::Added,
        Endpoint::RemoveWorker => PendingView::Removed(
            remove_worker_outcome(worker_url(input->Params_0)),
        ),
        Endpoint::ListWorkers => PendingView::Listed,
        _ => PendingView::Relayed,
    }
}

/// Whether a reply is what an answer waits for.
pub open spec fn settles<R>(reply: RouterReplyView<R>, pending: PendingView) -> bool {
    match pending {
        PendingView::Relayed => reply is Response,
        PendingView::Added => reply is Added,
        PendingView::Removed(_) => reply is Removed,
        PendingView::Listed => reply is Urls,
    }
}

/// The answer once the router replied.
pub open spec fn concluded<R>(pending: PendingView, reply: RouterReplyView<R>) -> AnswerView<R> {
    match pending {
        PendingView::Relayed => AnswerView::Relayed(reply->Response_0),
        PendingView::Added => AnswerView::Own(add_worker_outcome(reply->Added_0)),
        PendingView::Removed(response) => AnswerView::Own(response),
        PendingView::Listed => AnswerView::Own(worker_listing(reply->Urls_0)),
    }
}

/// What an endpoint takes from a request.
pub fn input_kind(endpoint: Endpoint) -> (r: InputKind)
    ensures
        r == kind_for(endpoint),
        r is Json <==> endpoint is Generate || endpoint is ChatCompletions || endpoint
            is Completions,
        r is Params <==> endpoint is AddWorker || endpoint is RemoveWorker,
{
    match endpoint {
        Endpoint::Generate | Endpoint::ChatCompletions | Endpoint::Completions => InputKind::Json,
        Endpoint::AddWorker | Endpoint::RemoveWorker => InputKind::Params,
        _ => InputKind::Nothing,
    }
}

/// Whether a text is the value of the last pair of a query that is named `url`.
pub open spec fn is_last_url<J>(input: Input<J>, url: Seq<char>) -> bool {
    input matches Input::Params(params) && exists|i: int|
        {
            &&& 0 <= i < params@.len()
            &&& (#[trigger] params@[i]).0@ == "url"@
            &&& params@[i].1@ == url
            &&& forall|j: int| i < j < params@.len() ==> (#[trigger] params@[j]).0@ != "url"@
        }
}

/// Takes a request to its endpoint.
pub fn handle<J>(endpoint: Endpoint, input: Input<J>) -> (r: Handling<J>)
    requires
        fits(input@, endpoint),
    ensures
        match r {
            Handling::Answered(response) => asked(endpoint, input@) is None && response@ == refused(
                endpoint,
            ),
            Handling::Asked(call, pending) => asked(endpoint, input@) == Some(call@) && pending@
                == awaited(endpoint, input@),
        },
        endpoint is Liveness ==> r == Handling::<J>::Asked(RouterCall::Liveness, Pending::Relayed),
        endpoint is Readiness ==> r == Handling::<J>::Asked(
            RouterCall::Readiness,
            Pending::Relayed,
        ),
        endpoint is FlushCache ==> r == Handling::<J>::Asked(
            RouterCall::FlushCache,
            Pending::Relayed,
        ),
        endpoint is Loads ==> r == Handling::<J>::Asked(
            RouterCall::WorkerLoads,
            Pending::Relayed,
        ),
        endpoint is ListWorkers ==> r == Handling::<J>::Asked(
            RouterCall::WorkerUrls,
            Pending::Listed,
        ),
        endpoint is Health ==> (r matches Handling::Asked(
            RouterCall::Health(head),
            Pending::Relayed,
        ) && head.method == Method::Get && head.uri@ == "/"@),
        endpoint is HealthGenerate ==> (r matches Handling::Asked(
            RouterCall::HealthGenerate(head),
            Pending::Relayed,
        ) && head.method == Method::Get && head.uri@ == "/"@),
        endpoint is Models ==> (r matches Handling::Asked(
            RouterCall::Models(head),
            Pending::Relayed,
        ) && head.method == Method::Get && head.uri@ == "/"@),
        endpoint is ModelInfo ==> (r matches Handling::Asked(
            RouterCall::ModelInfo(head),
            Pending::Relayed,
        ) && head.method == Method::Get && head.uri@ == "/"@),
        endpoint is ServerInfo ==> (r matches Handling::Asked(
            RouterCall::ServerInfo(head),
            Pending::Relayed,
        ) && head.method == Method::Get && head.uri@ == "/"@),
        endpoint is Generate ==> (r matches Handling::Asked(
            RouterCall::Generate(head, json),
            Pending::Relayed,
        ) && head.method == Method::Post && head.uri@ == "/generate"@ && input == Input::Json(
            json,
        )),
        endpoint is ChatCompletions ==> (r matches Handling::Asked(
            RouterCall::Chat(head, json),
            Pending::Relayed,
        ) && head.method == Method::Post && head.uri@ == "/v1/chat/completions"@ && input == Input::Json(
            json,
        )),
        endpoint is Completions ==> (r matches Handling::Asked(
            RouterCall::Completion(head, json),
            Pending::Relayed,
        ) && head.method == Method::Post && head.uri@ == "/v1/completions"@ && input == Input::Json(
            json,
        )),
        r is Answered <==> (input matches Input::Params(params) && forall|i: int|
            0 <= i < params@.len() ==> (#[trigger] params@[i]).0@ != "url"@),
        endpoint is AddWorker ==> match r {
            Handling::Answered(response) => response.status == 400 && (response.body
                matches Body::Text(text) && text@
                == "Worker URL required. Provide 'url' query parameter"@),
            Handling::Asked(call, pending) => (call matches RouterCall::AddWorker(url)
                && is_last_url(input, url@)) && pending is Added,
        },
        endpoint is RemoveWorker ==> match r {
            Handling::Answered(response) => response.status == 400 && response.body is Empty,
            Handling::Asked(call, pending) => call matches RouterCall::RemoveWorker(url)
                && is_last_url(input, url@) && (pending matches Pending::Removed(response)
                && response.status == 200 && (response.body matches Body::Text(text) && text@
                == "Successfully removed worker: "@ + url@)),
        },
{
    match input {
        Input::Nothing => match endpoint {
            Endpoint::Liveness => Handling::Asked(liveness(), Pending::Relayed),
            Endpoint::Readiness => Handling::Asked(readiness(), Pending::Relayed),
            Endpoint::Health => Handling::Asked(health(), Pending::Relayed),
            Endpoint::HealthGenerate => Handling::Asked(health_generate(), Pending::Relayed),
            Endpoint::Models => Handling::Asked(v1_models(), Pending::Relayed),
            Endpoint::ModelInfo => Handling::Asked(get_model_info(), Pending::Relayed),
            Endpoint::ServerInfo => Handling::Asked(get_server_info(), Pending::Relayed),
            Endpoint::FlushCache => Handling::Asked(flush_cache(), Pending::Relayed),
            Endpoint::Loads => Handling::Asked(get_loads(), Pending::Relayed),
            _ => Handling::Asked(RouterCall::WorkerUrls, Pending::Listed),
        },
        Input::Params(params) => match endpoint {
            Endpoint::AddWorker => match add_worker(&params) {
                Ok(url) => Handling::Asked(RouterCall::AddWorker(url), Pending::Added),
                Err(response) => Handling::Answered(response),
            },
            _ => match remove_worker(&params) {
                (Some(url), response) => Handling::Asked(
                    RouterCall::RemoveWorker(url),
                    Pending::Removed(response),
                ),
                (None, response) => Handling::Answered(response),
            },
        },
        Input::Json(json) => match endpoint {
            Endpoint::Generate => Handling::Asked(generate(json), Pending::Relayed),
            Endpoint::ChatCompletions => Handling::Asked(
                v1_chat_completions(json),
                Pending::Relayed,
            ),
            _ => Handling::Asked(v1_completions(json), Pending::Relayed),
        },
    }
}

/// Answers a request once the router replied; `None` where the reply is not what the answer waits
/// for.
pub fn conclude<R>(pending: Pending, reply: RouterReply<R>) -> (r: Option<Answer<R>>)
    ensures
        match r {
            Some(answer) => settles(reply@, pending@) && answer@ == concluded(pending@, reply@),
            None => !settles(reply@, pending@),
        },
        match (pending, reply) {
            (Pending::Relayed, RouterReply::Response(response)) => r == Some(
                Answer::Relayed(response),
            ),
            (Pending::Added, RouterReply::Added(Ok(message))) => r matches Some(
                Answer::Own(own),
            ) && own.status == 200 && own.body == Body::Text(message),
            (Pending::Added, RouterReply::Added(Err(error))) => r matches Some(Answer::Own(own))
                && own.status == 400 && own.body == Body::Text(error),
            (Pending::Removed(response), RouterReply::Removed) => r == Some(
                Answer::<R>::Own(response),
            ),
            (Pending::Listed, RouterReply::Urls(urls)) => r matches Some(Answer::Own(own))
                && own.status == 200 && (own.body matches Body::Json(text) && read_object(text@)
                == Some(("urls"@, urls.deep_view()))),
            _ => r is None,
        },
{
    match (pending, reply) {
        (Pending::Relayed, RouterReply::Response(response)) => Some(Answer::Relayed(response)),
        (Pending::Added, RouterReply::Added(result)) => Some(
            Answer::Own(add_worker_response(result)),
        ),
        (Pending::Removed(response), RouterReply::Removed) => Some(Answer::Own(response)),
        (Pending::Listed, RouterReply::Urls(urls)) => Some(Answer::Own(list_workers(&urls))),
        _ => None,
    }
}

} // verus!
