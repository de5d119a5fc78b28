//! The decisions of one relay request, from the platform's answers to the
//! response. The caller performs each platform call and reports its result.
use vstd::prelude::*;

use crate::directory::Destination;
use crate::resolver::{
    lemma_resolution_deterministic, resolve, resolves_to, ResolutionError, SearchScope,
};

verus! {

/// What the caller asked for beyond the name.
#[derive(Clone, Copy, Debug, PartialEq, Eq, Structural)]
pub enum TypeHint {
    /// No hint, or one the relay does not know: search channels.
    Unspecified,
    /// Search active threads.
    Thread,
    /// Search channels, and crosspost the sent message.
    News,
}

/// How a request ends.
#[derive(Clone, Copy, Debug, PartialEq, Eq, Structural)]
pub enum Outcome {
    Success,
    NotFound(SearchScope),
    Ambiguous(SearchScope),
    /// The body of the request was malformed or lacked a required field.
    Invalid,
    /// A platform call failed.
    UpstreamError,
}

/// What the caller does after the directory has been read.
#[derive(Clone, Copy, Debug, PartialEq, Eq, Structural)]
pub enum SendStep {
    /// Send the message to the destination with this identifier.
    Send(u64),
    Finish(Outcome),
}

/// What the caller does after the send has been attempted.
#[derive(Clone, Copy, Debug, PartialEq, Eq, Structural)]
pub enum AfterSend {
    /// Crosspost the message that was sent.
    Crosspost,
    Finish(Outcome),
}

/// The answer to a request: an HTTP status and a fixed short message.
#[derive(Clone, Copy, Debug)]
pub struct Response {
    pub status_code: u16,
    pub message: &'static str,
}

/// A request whose required fields are present.
#[derive(Clone, Debug)]
pub struct IncomingRequest {
    pub name: String,
    pub message: String,
    pub hint: TypeHint,
}

/// Checks the fields of a request body: `name` and `message` are required,
/// `type` is optional. A missing required field gives `Outcome::Invalid`.
pub fn validate(name: Option<String>, message: Option<String>, type_field: Option<String>) -> (r:
    Result<IncomingRequest, Outcome>)
    ensures
        r is Ok <==> (name is Some && message is Some),
        r is Err ==> r == Err::<IncomingRequest, Outcome>(Outcome::Invalid),
        r matches Ok(req) ==> {
            &&& name == Some(req.name)
            &&& message == Some(req.message)
            &&& req.hint == hint_spec(type_field)
        },
{
    let hint = type_hint_of(&type_field);
    match (name, message) {
        (Some(name), Some(message)) => Ok(IncomingRequest { name, message, hint }),
        _ => Err(Outcome::Invalid),
    }
}

/// The hint that the optional `type` field gives.
pub open spec fn hint_spec(field: Option<String>) -> TypeHint {
    if field matches Some(t) && t@ == "thread"@ {
        TypeHint::Thread
    } else if field matches Some(t) && t@ == "news"@ {
        TypeHint::News
    } else {
        TypeHint::Unspecified
    }
}

/// Reads the optional `type` field of a request.
pub fn type_hint_of(field: &Option<String>) -> (r: TypeHint)
    ensures
        r == TypeHint::Thread <==> (field matches Some(t) && t@ == "thread"@),
        r == TypeHint::News <==> (field matches Some(t) && t@ == "news"@),
        r == hint_spec(*field),
{
    proof {
        reveal_strlit("thread");
        reveal_strlit("news");
        assert("thread"@[0] != "news"@[0]);
    }
    match field {
        None => TypeHint::Unspecified,
        Some(t) => {
            let thread = "thread".to_owned();
            let news = "news".to_owned();
            if t.eq(&thread) {
                TypeHint::Thread
            } else if t.eq(&news) {
                TypeHint::News
            } else {
                TypeHint::Unspecified
            }
        },
    }
}

/// Threads are searched for a thread hint, channels otherwise.
pub open spec fn scope_spec(hint: TypeHint) -> SearchScope {
    if hint == TypeHint::Thread {
        SearchScope::Threads
    } else {
        SearchScope::Channels
    }
}

/// The part of the directory to fetch for a request with this hint.
pub fn scope_of(hint: TypeHint) -> (r: SearchScope)
    ensures
        r == scope_spec(hint),
{
    match hint {
        TypeHint::Thread => SearchScope::Threads,
        _ => SearchScope::Channels,
    }
}

/// Decides, from the fetched directory (or the failure to fetch it), whether
/// to send and where. `directory` is `None` when the fetch failed.
pub fn after_directory(directory: &Option<Vec<Destination>>, name: &String, hint: TypeHint) -> (r:
    SendStep)
    ensures
        directory is None ==> r == SendStep::Finish(Outcome::UpstreamError),
        directory matches Some(snapshot) ==> {
            let scope = scope_spec(hint);
            &&& r matches SendStep::Send(id) ==> exists|i: usize|
                resolves_to(snapshot@, name@, scope, Ok(i)) && id == snapshot@[i as int].id_view()
            &&& r == SendStep::Finish(Outcome::NotFound(scope)) <==> resolves_to(
                snapshot@,
                name@,
                scope,
                Err(ResolutionError::NotFound),
            )
            &&& r == SendStep::Finish(Outcome::Ambiguous(scope)) <==> resolves_to(
                snapshot@,
                name@,
                scope,
                Err(ResolutionError::Ambiguous),
            )
            &&& r is Send || r == SendStep::Finish(Outcome::NotFound(scope)) || r
                == SendStep::Finish(Outcome::Ambiguous(scope))
        },
{
    match directory {
        None => SendStep::Finish(Outcome::UpstreamError),
        Some(snapshot) => {
            let scope = scope_of(hint);
            let res = resolve(snapshot, name, scope);
            proof {
                if resolves_to(snapshot@, name@, scope, Err(ResolutionError::NotFound)) {
                    lemma_resolution_deterministic(
                        snapshot@, name@, scope, res, Err(ResolutionError::NotFound));
                }
                if resolves_to(snapshot@, name@, scope, Err(ResolutionError::Ambiguous)) {
                    lemma_resolution_deterministic(
                        snapshot@, name@, scope, res, Err(ResolutionError::Ambiguous));
                }
            }
            match res {
                Ok(i) => SendStep::Send(snapshot[i].id()),
                Err(ResolutionError::NotFound) => SendStep::Finish(Outcome::NotFound(scope)),
                Err(ResolutionError::Ambiguous) => SendStep::Finish(Outcome::Ambiguous(scope)),
            }
        },
    }
}

/// The step after a send: crosspost for a news hint, finish otherwise.
pub open spec fn after_send_spec(hint: TypeHint, sent: bool) -> AfterSend {
    if !sent {
        AfterSend::Finish(Outcome::UpstreamError)
    } else if hint == TypeHint::News {
        AfterSend::Crosspost
    } else {
        AfterSend::Finish(Outcome::Success)
    }
}

/// Decides what follows a send attempt; `sent` tells whether it succeeded.
pub fn after_send(hint: TypeHint, sent: bool) -> (r: AfterSend)
    ensures
        r == after_send_spec(hint, sent),
{
    if !sent {
        AfterSend::Finish(Outcome::UpstreamError)
    } else if hint == TypeHint::News {
        AfterSend::Crosspost
    } else {
        AfterSend::Finish(Outcome::Success)
    }
}

/// How a request ends once the crosspost has been attempted.
pub fn after_crosspost(crossposted: bool) -> (r: Outcome)
    ensures
        r == (if crossposted { Outcome::Success } else { Outcome::UpstreamError }),
{
    if crossposted {
        Outcome::Success
    } else {
        Outcome::UpstreamError
    }
}

/// A crosspost is requested exactly when the hint is `News` and the send
/// succeeded.
pub proof fn lemma_crosspost_iff_news_and_sent(hint: TypeHint, sent: bool)
    ensures
        after_send_spec(hint, sent) is Crosspost <==> (hint == TypeHint::News && sent),
{
}

/// The status code owed for an outcome.
pub open spec fn status_spec(outcome: Outcome) -> u16 {
    match outcome {
        Outcome::Success => 200,
        Outcome::UpstreamError => 500,
        _ => 400,
    }
}

/// The message owed for an outcome.
pub open spec fn message_spec(outcome: Outcome) -> Seq<char> {
    match outcome {
        Outcome::Success => "Success"@,
        Outcome::NotFound(SearchScope::Channels) => "No channel found"@,
        Outcome::NotFound(SearchScope::Threads) => "No thread found"@,
        Outcome::Ambiguous(SearchScope::Channels) => "Multiple channels found"@,
        Outcome::Ambiguous(SearchScope::Threads) => "Multiple threads found"@,
        Outcome::Invalid => "Invalid request body"@,
        Outcome::UpstreamError => "Upstream request failed"@,
    }
}

/// The response that answers a request with this outcome.
pub fn respond(outcome: Outcome) -> (r: Response)
    ensures
        r.status_code == status_spec(outcome),
        r.message@ == message_spec(outcome),
{
    match outcome {
        Outcome::Success => Response { status_code: 200, message: "Success" },
        Outcome::NotFound(SearchScope::Channels) => Response {
            status_code: 400,
            message: "No channel found",
        },
        Outcome::NotFound(SearchScope::Threads) => Response {
            status_code: 400,
            message: "No thread found",
        },
        Outcome::Ambiguous(SearchScope::Channels) => Response {
            status_code: 400,
            message: "Multiple channels found",
        },
        Outcome::Ambiguous(SearchScope::Threads) => Response {
            status_code: 400,
            message: "Multiple threads found",
        },
        Outcome::Invalid => Response { status_code: 400, message: "Invalid request body" },
        Outcome::UpstreamError => Response { status_code: 500, message: "Upstream request failed" },
    }
}

} // verus!
