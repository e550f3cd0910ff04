//! Binding the port of the login server, where an earlier login may still hold it.
use vstd::prelude::*;
use vstd::utf8::encode_utf8;

use crate::error::{ErrorKind, LoginError};
#[allow(unused_imports)]
use crate::error::LoginErrorView;
#[allow(unused_imports)]
use crate::request::CANCEL_PATH;
#[allow(unused_imports)]
use crate::text::decimal;
use crate::text::{decimal_text, join2};

verus! {

broadcast use vstd::string::group_string_axioms;

/// How often binding is tried.
pub const MAX_ATTEMPTS: u32 = 10;

/// How long to wait before the next try, in milliseconds.
pub const RETRY_DELAY_MILLIS: u64 = 200;

/// How long an earlier login server may take to answer, in seconds.
pub const CANCEL_TIMEOUT_SECONDS: u64 = 2;

/// The address on which the login server listens.
pub open spec fn listen_address(port: u16) -> Seq<char> {
    "127.0.0.1:"@ + decimal(port as nat)
}

/// Writes the address on which the login server listens.
pub fn bind_address(port: u16) -> (address: String)
    ensures
        address@ == listen_address(port),
        address@ == "127.0.0.1:"@ + decimal(port as nat),
{
    join2("127.0.0.1:", decimal_text(port as u64).as_str())
}

/// The request that asks an earlier login server to give way.
pub open spec fn cancel_request_text(port: u16) -> Seq<char> {
    "GET /cancel HTTP/1.1\r\n"@ + "Host: "@ + listen_address(port) + "\r\n"@
        + "Connection: close\r\n\r\n"@
}

/// Writes the request that asks an earlier login server to give way.
pub fn cancel_request(port: u16) -> (bytes: Vec<u8>)
    ensures
        bytes@ == encode_utf8(cancel_request_text(port)),
        bytes@ == encode_utf8(
            "GET /cancel HTTP/1.1\r\n"@ + "Host: "@ + ("127.0.0.1:"@ + decimal(port as nat))
                + "\r\n"@ + "Connection: close\r\n\r\n"@,
        ),
{
    let mut text: String = "GET /cancel HTTP/1.1\r\n".to_owned();
    text.append("Host: ");
    text.append(bind_address(port).as_str());
    text.append("\r\n");
    text.append("Connection: close\r\n\r\n");
    text.as_str().as_bytes_vec()
}

/// The request that asks an earlier login server to give way has the cancel path as its target,
/// whatever the port: the path that ends a login.
pub proof fn cancel_request_asks_for_the_cancel_path(port: u16)
    ensures
        ({
            let start = "GET "@ + CANCEL_PATH@ + " HTTP/1.1\r\n"@;
            start.is_prefix_of(cancel_request_text(port))
        }),
{
    reveal_strlit("GET ");
    reveal_strlit("/cancel");
    reveal_strlit(" HTTP/1.1\r\n");
    reveal_strlit("GET /cancel HTTP/1.1\r\n");
    let start = "GET "@ + CANCEL_PATH@ + " HTTP/1.1\r\n"@;
    assert(start =~= "GET /cancel HTTP/1.1\r\n"@);
    assert(cancel_request_text(port).take(start.len() as int) =~= start);
}

/// Why the port could not be bound.
#[derive(Debug)]
pub enum BindFailure {
    AddrInUse,
    Other(String),
}

/// What a failure is.
pub enum BindFailureView {
    AddrInUse,
    Other(Seq<char>),
}

impl View for BindFailure {
    type V = BindFailureView;

    open spec fn view(&self) -> BindFailureView {
        match *self {
            BindFailure::AddrInUse => BindFailureView::AddrInUse,
            BindFailure::Other(text) => BindFailureView::Other(text@),
        }
    }
}

/// How far binding has come: the number of failed tries, and whether an earlier login server was
/// asked to give way. It was, if there was a failed try that was not the last.
#[derive(Debug)]
pub struct BindState {
    attempts: u32,
    cancel_attempted: bool,
}

/// What a state of binding is.
pub struct BindStateView {
    pub attempts: nat,
    pub cancel_attempted: bool,
}

impl View for BindState {
    type V = BindStateView;

    closed spec fn view(&self) -> BindStateView {
        BindStateView { attempts: self.attempts as nat, cancel_attempted: self.cancel_attempted }
    }
}

/// What follows a failed try: another one, or the end.
#[derive(Debug)]
pub enum BindNext {
    Retry(BindState),
    Fail(LoginError),
}

/// What to do after a failed try, in this order: ask an earlier login server to give way, wait,
/// and go on.
#[derive(Debug)]
pub struct BindDecision {
    pub send_cancel: bool,
    pub delay_millis: u64,
    pub next: BindNext,
}

/// What follows a failed try.
pub enum BindNextView {
    Retry(BindStateView),
    Fail(LoginErrorView),
}

/// What to do after a failed try.
pub struct BindDecisionView {
    pub send_cancel: bool,
    pub delay_millis: u64,
    pub next: BindNextView,
}

impl View for BindNext {
    type V = BindNextView;

    open spec fn view(&self) -> BindNextView {
        match *self {
            BindNext::Retry(state) => BindNextView::Retry(state@),
            BindNext::Fail(error) => BindNextView::Fail(error@),
        }
    }
}

impl View for BindDecision {
    type V = BindDecisionView;

    open spec fn view(&self) -> BindDecisionView {
        BindDecisionView {
            send_cancel: self.send_cancel,
            delay_millis: self.delay_millis,
            next: self.next@,
        }
    }
}

/// The state before the first try.
pub open spec fn first_state() -> BindStateView {
    BindStateView { attempts: 0, cancel_attempted: false }
}

/// The error where the port stays in use.
pub open spec fn port_in_use(port: u16) -> LoginErrorView {
    LoginErrorView {
        kind: ErrorKind::AddrInUse,
        message: "Port "@ + listen_address(port) + " is already in use"@,
    }
}

/// What to do after one more failed try.
pub open spec fn bind_decision(
    state: BindStateView,
    failure: BindFailureView,
    port: u16,
) -> BindDecisionView {
    match failure {
        BindFailureView::AddrInUse => BindDecisionView {
            send_cancel: !state.cancel_attempted,
            delay_millis: RETRY_DELAY_MILLIS,
            next: if state.attempts + 1 >= MAX_ATTEMPTS {
                BindNextView::Fail(port_in_use(port))
            } else {
                BindNextView::Retry(
                    BindStateView { attempts: state.attempts + 1, cancel_attempted: true },
                )
            },
        },
        BindFailureView::Other(text) => BindDecisionView {
            send_cancel: false,
            delay_millis: 0,
            next: BindNextView::Fail(LoginErrorView { kind: ErrorKind::Other, message: text }),
        },
    }
}

impl BindState {
    #[verifier::type_invariant]
    closed spec fn well_formed(self) -> bool {
        &&& self.attempts < MAX_ATTEMPTS
        &&& self.cancel_attempted <==> self.attempts > 0
    }

    /// The state before the first try.
    pub fn new() -> (state: Self)
        ensures
            state@ == first_state(),
            state@.attempts == 0,
            !state@.cancel_attempted,
    {
        BindState { attempts: 0, cancel_attempted: false }
    }

    /// Settles what to do after a failed try. Where the port is in use, an earlier login server is
    /// asked once to give way, and binding is tried again after a while, ten times in all. Any
    /// other failure is final.
    pub fn after_failure(self, failure: BindFailure, port: u16) -> (decision: BindDecision)
        ensures
            decision@ == bind_decision(self@, failure@, port),
            match failure {
                BindFailure::AddrInUse => {
                    &&& decision.send_cancel == !self@.cancel_attempted
                    &&& decision.delay_millis == 200
                    &&& self@.attempts < 9 ==> {
                        &&& decision.next matches BindNext::Retry(next)
                        &&& next@.attempts == self@.attempts + 1
                        &&& next@.cancel_attempted
                    }
                    &&& self@.attempts >= 9 ==> {
                        &&& decision.next matches BindNext::Fail(error)
                        &&& error.kind == ErrorKind::AddrInUse
                        &&& error.message@ == "Port "@ + ("127.0.0.1:"@ + decimal(port as nat))
                            + " is already in use"@
                    }
                },
                BindFailure::Other(text) => {
                    &&& !decision.send_cancel
                    &&& decision.delay_millis == 0
                    &&& decision.next matches BindNext::Fail(error)
                    &&& error.kind == ErrorKind::Other
                    &&& error.message@ == text@
                },
            },
    {
        proof {
            use_type_invariant(&self);
        }
        match failure {
            BindFailure::AddrInUse => {
                let attempts: u32 = self.attempts + 1;
                let next: BindNext = if attempts >= MAX_ATTEMPTS {
                    let mut message: String = "Port ".to_owned();
                    message.append(bind_address(port).as_str());
                    message.append(" is already in use");
                    BindNext::Fail(LoginError::new(ErrorKind::AddrInUse, message.as_str()))
                } else {
                    BindNext::Retry(BindState { attempts, cancel_attempted: true })
                };
                BindDecision {
                    send_cancel: !self.cancel_attempted,
                    delay_millis: RETRY_DELAY_MILLIS,
                    next,
                }
            },
            BindFailure::Other(text) => BindDecision {
                send_cancel: false,
                delay_millis: 0,
                next: BindNext::Fail(LoginError::other(text.as_str())),
            },
        }
    }
}

/// What came of a run of failed tries: how often an earlier login server was asked to give way,
/// how many tries were made, how long was waited, and the error that ended the run, if one did.
pub struct BindRun {
    pub cancels: nat,
    pub tries: nat,
    pub waited_millis: nat,
    pub error: Option<LoginErrorView>,
}

/// Follows the decisions from a state through failed tries, until one is final.
pub open spec fn bind_run(
    state: BindStateView,
    failures: Seq<BindFailureView>,
    port: u16,
) -> BindRun
    decreases failures.len(),
{
    if failures.len() == 0 {
        BindRun { cancels: 0, tries: 0, waited_millis: 0, error: None }
    } else {
        let decision = bind_decision(state, failures[0], port);
        let rest = match decision.next {
            BindNextView::Retry(next) => bind_run(next, failures.skip(1), port),
            BindNextView::Fail(error) => BindRun {
                cancels: 0,
                tries: 0,
                waited_millis: 0,
                error: Some(error),
            },
        };
        BindRun {
            cancels: rest.cancels + if decision.send_cancel {
                1nat
            } else {
                0
            },
            tries: rest.tries + 1,
            waited_millis: rest.waited_millis + decision.delay_millis as nat,
            error: rest.error,
        }
    }
}

/// How many of the failures are that the port was in use.
pub open spec fn in_use_count(failures: Seq<BindFailureView>) -> nat {
    failures.filter(|f: BindFailureView| f is AddrInUse).len()
}

proof fn in_use_count_from_the_first(failures: Seq<BindFailureView>, count: nat)
    requires
        0 < count <= failures.len(),
    ensures
        in_use_count(failures.take(count as int)) == in_use_count(
            failures.skip(1).take(count - 1),
        ) + if failures[0] is AddrInUse {
            1nat
        } else {
            0
        },
{
    let in_use = |f: BindFailureView| f is AddrInUse;
    let first = seq![failures[0]];
    let rest = failures.skip(1).take(count - 1);
    assert(failures.take(count as int) =~= first + rest);
    Seq::filter_distributes_over_add(first, rest, in_use);
    reveal_with_fuel(Seq::filter, 2);
    assert(first.filter(in_use).len() == if failures[0] is AddrInUse {
        1nat
    } else {
        0
    });
}

/// Says that the first `count` failures are all that the port was in use.
pub open spec fn in_use_at_first(failures: Seq<BindFailureView>, count: nat) -> bool {
    &&& count <= failures.len()
    &&& forall|i: int| 0 <= i < count ==> #[trigger] failures[i] is AddrInUse
}

proof fn bind_run_from(state: BindStateView, failures: Seq<BindFailureView>, port: u16, count: nat)
    requires
        state.attempts < MAX_ATTEMPTS,
        state.cancel_attempted <==> state.attempts > 0,
    ensures
        ({
            let run = bind_run(state, failures, port);
            let left = (MAX_ATTEMPTS - state.attempts) as nat;
            &&& run.cancels <= 1
            &&& state.cancel_attempted ==> run.cancels == 0
            &&& run.tries <= left
            &&& run.tries <= failures.len()
            &&& run.waited_millis == 200 * in_use_count(failures.take(run.tries as int))
            &&& run.error is None ==> failures.len() < left
            &&& in_use_at_first(failures, left) ==> run.error == Some(port_in_use(port))
                && run.tries == left
            &&& count < left && in_use_at_first(failures, count) && count < failures.len()
                && failures[count as int] is Other ==> run.error == Some(
                LoginErrorView { kind: ErrorKind::Other, message: failures[count as int]->Other_0 },
            ) && run.tries == count + 1
            &&& count < left && in_use_at_first(failures, count) && count == failures.len()
                ==> run.error is None && run.tries == count
            &&& failures.len() > 0 && failures[0] is AddrInUse && !state.cancel_attempted
                ==> run.cancels == 1
            &&& failures.len() > 0 && failures[0] is Other ==> run.cancels == 0
        }),
    decreases failures.len(),
{
    reveal(Seq::filter);
    if failures.len() > 0 {
        let decision = bind_decision(state, failures[0], port);
        let rest = failures.skip(1);
        let run = bind_run(state, failures, port);
        if let BindNextView::Retry(next) = decision.next {
            bind_run_from(next, rest, port, (count - 1) as nat);
            let left = (MAX_ATTEMPTS - state.attempts) as nat;
            if in_use_at_first(failures, left) {
                assert forall|i: int| 0 <= i < left - 1 implies #[trigger] rest[i] is AddrInUse by {
                    assert(rest[i] == failures[i + 1]);
                }
            }
            if count > 0 && in_use_at_first(failures, count) {
                assert forall|i: int| 0 <= i < count - 1 implies #[trigger] rest[i] is AddrInUse by {
                    assert(rest[i] == failures[i + 1]);
                }
                if count < failures.len() {
                    assert(rest[count - 1] == failures[count as int]);
                }
            }
        }
        in_use_count_from_the_first(failures, run.tries);
    }
}

/// However binding fails, an earlier login server is asked to give way at most once, and only
/// where the first try found the port in use; there are at most ten tries, and 200 milliseconds of
/// waiting for each that found the port in use, which is at most two seconds.
pub proof fn binding_gives_up_after_ten_tries(failures: Seq<BindFailureView>, port: u16)
    ensures
        ({
            let run = bind_run(first_state(), failures, port);
            &&& run.cancels <= 1
            &&& run.cancels == 1 <==> failures.len() > 0 && failures[0] is AddrInUse
            &&& run.tries <= 10
            &&& run.tries <= failures.len()
            &&& run.waited_millis == 200 * in_use_count(failures.take(run.tries as int))
            &&& run.waited_millis <= 2000
            &&& failures.len() >= 10 ==> run.error is Some
            &&& in_use_at_first(failures, 10) ==> run.error == Some(port_in_use(port)) && run.tries
                == 10
        }),
{
    bind_run_from(first_state(), failures, port, 0);
    let run = bind_run(first_state(), failures, port);
    let in_use = |f: BindFailureView| f is AddrInUse;
    failures.take(run.tries as int).lemma_filter_len(in_use);
}

/// Fewer than ten tries that found the port in use are followed by another try; a failure of
/// another kind ends binding at once with its own message.
pub proof fn binding_retries_only_while_the_port_is_in_use(
    failures: Seq<BindFailureView>,
    port: u16,
    count: nat,
)
    requires
        count < 10,
        in_use_at_first(failures, count),
    ensures
        ({
            let run = bind_run(first_state(), failures, port);
            &&& count == failures.len() ==> run.error is None && run.tries == count
            &&& count < failures.len() && failures[count as int] is Other ==> run.tries == count + 1
                && run.error == Some(
                LoginErrorView { kind: ErrorKind::Other, message: failures[count as int]->Other_0 },
            )
        }),
{
    bind_run_from(first_state(), failures, port, count);
}

} // verus!
