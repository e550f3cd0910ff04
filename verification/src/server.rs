//! The loop of the login server: what each event makes it send, and when it ends.
use vstd::prelude::*;

use crate::error::LoginError;
#[allow(unused_imports)]
use crate::error::{ErrorKind, LoginErrorView};
use crate::message::{response_with_disconnect, Header};
#[allow(unused_imports)]
use crate::message::{disconnect_response, header_views, HeaderView};
use crate::request::HandledRequest;
#[allow(unused_imports)]
use crate::request::{result_view, HandledView};
use crate::text::join2;

verus! {

broadcast use vstd::string::group_string_axioms;

/// What can happen to a login server while it waits.
pub enum ServerEvent {
    /// It is told to stop.
    Shutdown,
    /// No request can come any more.
    RequestsClosed,
    /// A request came, and this is its answer.
    Handled(HandledRequest),
}

/// What an event is.
pub enum ServerEventView {
    Shutdown,
    RequestsClosed,
    Handled(HandledView),
}

impl View for ServerEvent {
    type V = ServerEventView;

    open spec fn view(&self) -> ServerEventView {
        match *self {
            ServerEvent::Shutdown => ServerEventView::Shutdown,
            ServerEvent::RequestsClosed => ServerEventView::RequestsClosed,
            ServerEvent::Handled(handled) => ServerEventView::Handled(handled@),
        }
    }
}

/// What is sent to the client.
#[derive(Debug)]
pub enum Reply {
    /// A response with a status and a text.
    Text { status: u16, text: String },
    /// A response without a body, with a status and a header.
    Empty { code: u16, header: Header },
    /// Bytes to be written as they are, after which the connection is closed.
    Raw(Vec<u8>),
}

/// What a reply is.
pub enum ReplyView {
    Text { status: u16, text: Seq<char> },
    Empty { code: u16, header: HeaderView },
    Raw(Seq<u8>),
}

impl View for Reply {
    type V = ReplyView;

    open spec fn view(&self) -> ReplyView {
        match *self {
            Reply::Text { status, text } => ReplyView::Text { status, text: text@ },
            Reply::Empty { code, header } => ReplyView::Empty { code, header: header@ },
            Reply::Raw(bytes) => ReplyView::Raw(bytes@),
        }
    }
}

/// What an event makes the server do: a reply, if a request came, and the end, if it ends.
#[derive(Debug)]
pub struct ServerStep {
    pub reply: Option<Reply>,
    pub result: Option<Result<(), LoginError>>,
}

/// The error of a login that nobody finished.
pub open spec fn not_completed() -> LoginErrorView {
    LoginErrorView { kind: ErrorKind::Other, message: "Login was not completed"@ }
}

/// What is sent for an answer: a redirect has status 302, and the answer that ends the login is
/// written out with the connection closed.
pub open spec fn reply_to(handled: HandledView) -> ReplyView {
    match handled {
        HandledView::Response { status, text } => ReplyView::Text { status, text },
        HandledView::Redirect { header } => ReplyView::Empty { code: 302, header },
        HandledView::Exit { headers, body, result } => ReplyView::Raw(
            disconnect_response(headers, body),
        ),
    }
}

/// The reply that an event calls for.
pub open spec fn event_reply(event: ServerEventView) -> Option<ReplyView> {
    match event {
        ServerEventView::Handled(handled) => Some(reply_to(handled)),
        _ => None,
    }
}

/// The result with which an event ends the login, if it does.
pub open spec fn event_result(event: ServerEventView) -> Option<Result<(), LoginErrorView>> {
    match event {
        ServerEventView::Shutdown => Some(Err(not_completed())),
        ServerEventView::RequestsClosed => Some(Err(not_completed())),
        ServerEventView::Handled(handled) => match handled {
            HandledView::Exit { headers, body, result } => Some(result),
            _ => None,
        },
    }
}

/// Settles what an event makes the server do.
pub fn on_event(event: ServerEvent) -> (step: ServerStep)
    ensures
        match step.reply {
            Some(reply) => event_reply(event@) == Some(reply@),
            None => event_reply(event@) is None,
        },
        match step.result {
            Some(result) => event_result(event@) == Some(result_view(result)),
            None => event_result(event@) is None,
        },
        match event {
            ServerEvent::Shutdown => {
                &&& step.reply is None
                &&& step.result matches Some(Err(error))
                &&& error.kind == ErrorKind::Other
                &&& error.message@ == "Login was not completed"@
            },
            ServerEvent::RequestsClosed => {
                &&& step.reply is None
                &&& step.result matches Some(Err(error))
                &&& error.kind == ErrorKind::Other
                &&& error.message@ == "Login was not completed"@
            },
            ServerEvent::Handled(HandledRequest::Response { status, text }) => {
                &&& step.reply == Some(Reply::Text { status, text })
                &&& step.result is None
            },
            ServerEvent::Handled(HandledRequest::RedirectWithHeader(header)) => {
                &&& step.reply == Some(Reply::Empty { code: 302, header })
                &&& step.result is None
            },
            ServerEvent::Handled(HandledRequest::ResponseAndExit { headers, body, result }) => {
                &&& step.reply matches Some(Reply::Raw(bytes))
                &&& bytes@ == disconnect_response(header_views(headers@), body@)
                &&& step.result == Some(result)
            },
        },
{
    match event {
        ServerEvent::Shutdown => ServerStep {
            reply: None,
            result: Some(Err(LoginError::other("Login was not completed"))),
        },
        ServerEvent::RequestsClosed => ServerStep {
            reply: None,
            result: Some(Err(LoginError::other("Login was not completed"))),
        },
        ServerEvent::Handled(handled) => match handled {
            HandledRequest::Response { status, text } => ServerStep {
                reply: Some(Reply::Text { status, text }),
                result: None,
            },
            HandledRequest::RedirectWithHeader(header) => ServerStep {
                reply: Some(Reply::Empty { code: 302, header }),
                result: None,
            },
            HandledRequest::ResponseAndExit { headers, body, result } => {
                let bytes: Vec<u8> = response_with_disconnect(headers, body.as_slice());
                ServerStep { reply: Some(Reply::Raw(bytes)), result: Some(result) }
            },
        },
    }
}

/// What comes of waiting for the server's task: its own result, or that the task did not finish,
/// with what is known of why.
pub fn join_outcome(joined: Result<Result<(), LoginError>, String>) -> (outcome: Result<
    (),
    LoginError,
>)
    ensures
        match joined {
            Ok(result) => outcome == result,
            Err(text) => {
                &&& outcome matches Err(e)
                &&& e@ == (LoginErrorView {
                    kind: ErrorKind::Other,
                    message: "login server thread panicked: "@ + text@,
                })
            },
        },
{
    match joined {
        Ok(result) => result,
        Err(text) => {
            let message: String = join2("login server thread panicked: ", text.as_str());
            Err(LoginError::other(message.as_str()))
        },
    }
}

/// The result of a login through which these events come in order, if one of them ends it.
pub open spec fn login_result(events: Seq<ServerEventView>) -> Option<Result<(), LoginErrorView>>
    decreases events.len(),
{
    if events.len() == 0 {
        None
    } else {
        match event_result(events[0]) {
            Some(result) => Some(result),
            None => login_result(events.skip(1)),
        }
    }
}

/// Of the answers to requests, those that end the login are exactly the ones that close the
/// connection, and the login then has the result that the answer carries. Any other answer, of
/// whatever status and text, leaves the server waiting for the next request.
pub proof fn only_a_closing_answer_ends_the_login(handled: HandledRequest, step: ServerStep)
    requires
        call_ensures(on_event, (ServerEvent::Handled(handled),), step),
    ensures
        step.result is Some <==> handled is ResponseAndExit,
        handled matches HandledRequest::ResponseAndExit { headers, body, result } ==> step.result
            == Some(result),
        step.reply is Some,
        handled matches HandledRequest::Response { status, text } ==> step.reply == Some(
            Reply::Text { status, text },
        ),
        handled matches HandledRequest::RedirectWithHeader(header) ==> step.reply == Some(
            Reply::Empty { code: 302, header },
        ),
{
}

/// A login goes on through any number of answers that do not close the connection, and ends with
/// the result of the first one that does.
pub proof fn login_has_the_result_of_its_first_closing_answer(
    events: Seq<ServerEventView>,
    last: int,
)
    requires
        0 <= last < events.len(),
        forall|i: int|
            0 <= i < last ==> (#[trigger] events[i] matches ServerEventView::Handled(handled)
                && !(handled is Exit)),
        events[last] matches ServerEventView::Handled(handled) && handled is Exit,
    ensures
        events[last] matches ServerEventView::Handled(handled) && handled matches
            HandledView::Exit { headers, body, result } && login_result(events) == Some(result),
{
    assert forall|i: int| 0 <= i < last implies event_result(#[trigger] events[i]) is None by {
        assert(events[i] is Handled);
    }
    first_ending_event_settles_the_login(events, last);
}

/// The first event that ends the login settles its result; what comes later has no part in it.
pub proof fn first_ending_event_settles_the_login(events: Seq<ServerEventView>, last: int)
    requires
        0 <= last < events.len(),
        forall|i: int| 0 <= i < last ==> event_result(#[trigger] events[i]) is None,
        event_result(events[last]) is Some,
    ensures
        login_result(events) == event_result(events[last]),
    decreases events.len(),
{
    if last > 0 {
        assert(event_result(events[0]) is None);
        let rest = events.skip(1);
        assert forall|i: int| 0 <= i < last - 1 implies event_result(#[trigger] rest[i]) is None by {
            assert(rest[i] == events[i + 1]);
        }
        assert(rest[last - 1] == events[last]);
        first_ending_event_settles_the_login(rest, last - 1);
    }
}

/// A login that no event has ended goes on.
pub proof fn login_goes_on_without_an_ending_event(events: Seq<ServerEventView>)
    requires
        forall|i: int| 0 <= i < events.len() ==> event_result(#[trigger] events[i]) is None,
    ensures
        login_result(events) is None,
    decreases events.len(),
{
    if events.len() > 0 {
        assert(event_result(events[0]) is None);
        let rest = events.skip(1);
        assert forall|i: int| 0 <= i < rest.len() implies event_result(#[trigger] rest[i]) is None by {
            assert(rest[i] == events[i + 1]);
        }
        login_goes_on_without_an_ending_event(rest);
    }
}

/// A login that is told to stop, or whose requests run out, before any answer ended it, was not
/// completed.
pub proof fn interrupted_login_is_not_completed(events: Seq<ServerEventView>, last: int)
    requires
        0 <= last < events.len(),
        forall|i: int| 0 <= i < last ==> event_result(#[trigger] events[i]) is None,
        events[last] is Shutdown || events[last] is RequestsClosed,
    ensures
        login_result(events) == Some(Err::<(), LoginErrorView>(not_completed())),
{
    first_ending_event_settles_the_login(events, last);
}

/// A login that succeeds was ended by an answer that ends it well: neither a stop nor an answer
/// that waits for another request makes it succeed.
pub proof fn successful_login_was_answered_so(events: Seq<ServerEventView>)
    requires
        login_result(events) == Some(Ok::<(), LoginErrorView>(())),
    ensures
        exists|i: int|
            0 <= i < events.len() && (#[trigger] events[i] matches ServerEventView::Handled(handled)
                && handled matches HandledView::Exit { headers, body, result } && result is Ok),
    decreases events.len(),
{
    if event_result(events[0]) is Some {
        assert(events[0] is Handled);
    } else {
        let rest = events.skip(1);
        successful_login_was_answered_so(rest);
        let i = choose|i: int|
            0 <= i < rest.len() && (#[trigger] rest[i] matches ServerEventView::Handled(handled)
                && handled matches HandledView::Exit { headers, body, result } && result is Ok);
        assert(events[i + 1] == rest[i]);
    }
}

} // verus!
