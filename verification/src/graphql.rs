//! The exchange of one request with Stump: when it is sent again, and what an
//! answer means.

use crate::text;
use crate::text::{concat2, concat3, join_texts};
use crate::types;
use crate::types::SyncError;
use vstd::prelude::*;
use vstd::string::*;

verus! {

/// How often a request is sent at most.
pub const MAX_RETRIES: u32 = 3;

/// The wait before the first repetition, in milliseconds. Each further wait is
/// twice as long.
pub const INITIAL_BACKOFF_MS: u64 = 1000;

/// The wait before the attempt with this number, in milliseconds; the first
/// one has the number 0 and no wait.
pub open spec fn backoff(attempt: int) -> int {
    if attempt <= 0 {
        0
    } else {
        INITIAL_BACKOFF_MS * vstd::arithmetic::power2::pow2((attempt - 1) as nat)
    }
}

/// The wait before an attempt, in milliseconds.
fn backoff_ms(attempt: u32) -> (r: u64)
    requires
        attempt < MAX_RETRIES,
    ensures
        r == backoff(attempt as int),
{
    proof {
        vstd::arithmetic::power2::lemma2_to64();
    }
    if attempt == 0 {
        0
    } else if attempt == 1 {
        INITIAL_BACKOFF_MS
    } else {
        INITIAL_BACKOFF_MS * 2
    }
}

/// The status line of an HTTP status code, as `http` displays it.
pub uninterp spec fn status_display(code: u16) -> Seq<char>;

/// The `Display` of `StatusCode` of `http`, as `reqwest` offers it: the code,
/// a space, and the reason that the crate's table has for it. Codes outside
/// 100 to 999 do not exist.
#[verifier::external_body]
fn status_text(code: u16) -> (r: String)
    requires
        100 <= code <= 999,
    ensures
        r@ == status_display(code),
{
    reqwest::StatusCode::from_u16(code).map(|s| s.to_string()).unwrap_or_default()
}

/// The error for an answer with a server error; `status` is its status line.
pub fn server_error(status: &str, body: &str) -> (r: SyncError)
    ensures
        r@ == types::ErrorView::Http("server error "@ + status@ + ": "@ + body@),
{
    let mut m = concat3("server error ", status, ": ");
    m.append(body);
    SyncError::Http(m)
}

/// The error for an answer that is neither a success nor a server error;
/// `status` is its status line.
pub fn refusal(status: &str, body: &str) -> (r: SyncError)
    ensures
        r@ == types::ErrorView::Http("HTTP "@ + status@ + ": "@ + body@),
{
    let mut m = concat3("HTTP ", status, ": ");
    m.append(body);
    SyncError::Http(m)
}

/// What an answer means: reported errors win over data, and an answer without
/// either is an error.
pub open spec fn answered<T>(
    data: Option<T>,
    errors: Option<Seq<Seq<char>>>,
) -> Result<T, types::ErrorView> {
    match errors {
        Some(messages) if messages.len() > 0 => Err(
            types::ErrorView::GraphQL(text::joined(messages, "; "@)),
        ),
        _ => match data {
            Some(value) => Ok(value),
            None => Err(types::ErrorView::GraphQL("response contained no data"@)),
        },
    }
}

/// The texts of an optional list of strings.
pub open spec fn opt_texts(list: Option<Vec<String>>) -> Option<Seq<Seq<char>>> {
    match list {
        Some(v) => Some(text::texts(v@)),
        None => None,
    }
}

/// What an answer means.
pub fn answer<T>(data: Option<T>, errors: Option<Vec<String>>) -> (r: Result<T, SyncError>)
    ensures
        types::outcome(r) == answered(data, opt_texts(errors)),
{
    if let Some(messages) = errors {
        if messages.len() > 0 {
            return Err(SyncError::GraphQL(join_texts(&messages, "; ")));
        }
    }
    match data {
        Some(value) => Ok(value),
        None => Err(SyncError::GraphQL("response contained no data".to_owned())),
    }
}

/// Where an exchange stands.
#[derive(Debug, Clone, Copy)]
pub enum ExchangePhase {
    /// The request is to be sent.
    Sending,
    /// A server error with this status came back.
    ServerError(u16),
    /// Another failure with this status came back.
    Refused(u16),
    /// A success came back.
    Answered,
    Over,
}

/// What an exchange needs done next.
#[derive(Debug, Clone, Copy)]
pub enum ExchangeStep {
    /// Wait, then post the request; answered by `Unreachable` or `Status`.
    Post { delay_ms: u64 },
    /// Read the body as text; answered by `Text`.
    ReadText,
    /// Read the body as JSON; answered by `Json` or `BadJson`.
    ReadJson,
    /// Nothing: the exchange is over.
    Finish,
}

/// What came of a step.
#[derive(Debug)]
pub enum ExchangeReply<T> {
    /// The request could not be sent or not be answered.
    Unreachable(String),
    Status(u16),
    /// The body, `None` where it could not be read.
    Text(Option<String>),
    Json { data: Option<T>, errors: Option<Vec<String>> },
    /// The body is not the JSON that was expected.
    BadJson(String),
}

/// The contents of an [`ExchangeReply`].
pub enum ExchangeReplyView<T> {
    Unreachable(Seq<char>),
    Status(u16),
    Text(Option<Seq<char>>),
    Json { data: Option<T>, errors: Option<Seq<Seq<char>>> },
    BadJson(Seq<char>),
}

impl<T> View for ExchangeReply<T> {
    type V = ExchangeReplyView<T>;

    open spec fn view(&self) -> ExchangeReplyView<T> {
        match *self {
            ExchangeReply::Unreachable(m) => ExchangeReplyView::Unreachable(m@),
            ExchangeReply::Status(code) => ExchangeReplyView::Status(code),
            ExchangeReply::Text(t) => ExchangeReplyView::Text(text::opt_text(t)),
            ExchangeReply::Json { data, errors } => ExchangeReplyView::Json {
                data,
                errors: opt_texts(errors),
            },
            ExchangeReply::BadJson(m) => ExchangeReplyView::BadJson(m@),
        }
    }
}

/// The state of an exchange.
pub struct ExchangeView<T> {
    /// The number of the current attempt, from 0 on.
    pub attempt: int,
    pub phase: ExchangePhase,
    pub result: Option<Result<T, types::ErrorView>>,
}

/// The text, or nothing where there is none.
pub open spec fn body_text(body: Option<Seq<char>>) -> Seq<char> {
    match body {
        Some(t) => t,
        None => Seq::empty(),
    }
}

/// The reply can occur: a status code lies in the range of status codes.
pub open spec fn possible_reply<T>(reply: ExchangeReplyView<T>) -> bool {
    reply matches ExchangeReplyView::Status(code) ==> 100 <= code <= 999
}

impl<T> ExchangeView<T> {
    /// The state is one that an exchange can be in.
    pub open spec fn wf(self) -> bool {
        &&& 0 <= self.attempt < MAX_RETRIES
        &&& self.phase is Over <==> self.result is Some
        &&& self.phase matches ExchangePhase::ServerError(code) ==> 500 <= code <= 599
        &&& self.phase matches ExchangePhase::Refused(code) ==> 100 <= code <= 999
    }

    /// The exchange is over.
    pub open spec fn ended(self, result: Result<T, types::ErrorView>) -> ExchangeView<T> {
        ExchangeView { phase: ExchangePhase::Over, result: Some(result), ..self }
    }

    /// The attempt failed in a way that another one may mend. The last attempt
    /// ends the exchange with its error.
    pub open spec fn failed(self, e: types::ErrorView) -> ExchangeView<T> {
        if self.attempt + 1 < MAX_RETRIES {
            ExchangeView { attempt: self.attempt + 1, phase: ExchangePhase::Sending, ..self }
        } else {
            self.ended(Err(e))
        }
    }

    /// The next step.
    pub open spec fn next(self) -> ExchangeStep {
        match self.phase {
            ExchangePhase::Sending => ExchangeStep::Post {
                delay_ms: backoff(self.attempt) as u64,
            },
            ExchangePhase::ServerError(_) => ExchangeStep::ReadText,
            ExchangePhase::Refused(_) => ExchangeStep::ReadText,
            ExchangePhase::Answered => ExchangeStep::ReadJson,
            ExchangePhase::Over => ExchangeStep::Finish,
        }
    }

    /// The exchange after a reply. A reply that does not fit the current step
    /// changes nothing.
    pub open spec fn step(self, reply: ExchangeReplyView<T>) -> ExchangeView<T> {
        match (self.phase, reply) {
            (ExchangePhase::Sending, ExchangeReplyView::Unreachable(m)) => self.failed(
                types::ErrorView::Http(m),
            ),
            (ExchangePhase::Sending, ExchangeReplyView::Status(code)) => ExchangeView {
                phase: if 500 <= code <= 599 {
                    ExchangePhase::ServerError(code)
                } else if 200 <= code <= 299 {
                    ExchangePhase::Answered
                } else {
                    ExchangePhase::Refused(code)
                },
                ..self
            },
            (ExchangePhase::ServerError(code), ExchangeReplyView::Text(body)) => self.failed(
                types::ErrorView::Http(
                    "server error "@ + status_display(code) + ": "@ + body_text(body),
                ),
            ),
            (ExchangePhase::Refused(code), ExchangeReplyView::Text(body)) => self.ended(
                Err(
                    types::ErrorView::Http(
                        "HTTP "@ + status_display(code) + ": "@ + body_text(body),
                    ),
                ),
            ),
            (ExchangePhase::Answered, ExchangeReplyView::BadJson(m)) => self.ended(
                Err(types::ErrorView::Http("failed to parse response: "@ + m)),
            ),
            (ExchangePhase::Answered, ExchangeReplyView::Json { data, errors }) => self.ended(
                answered(data, errors),
            ),
            _ => self,
        }
    }
}

/// The state at the start of an exchange.
pub open spec fn exchange_started<T>() -> ExchangeView<T> {
    ExchangeView { attempt: 0, phase: ExchangePhase::Sending, result: None }
}

/// The exchange of one request.
pub struct Exchange<T> {
    attempt: u32,
    phase: ExchangePhase,
    result: Option<Result<T, SyncError>>,
}

impl<T> View for Exchange<T> {
    type V = ExchangeView<T>;

    closed spec fn view(&self) -> ExchangeView<T> {
        ExchangeView {
            attempt: self.attempt as int,
            phase: self.phase,
            result: match self.result {
                Some(r) => Some(types::outcome(r)),
                None => None,
            },
        }
    }
}

/// The body as text, empty where it could not be read.
fn body_or_empty(body: Option<String>) -> (r: String)
    ensures
        r@ == body_text(text::opt_text(body)),
{
    match body {
        Some(t) => t,
        None => {
            let r = String::new();
            assert(r@ =~= Seq::<char>::empty());
            r
        },
    }
}

impl<T> Exchange<T> {
    /// The exchange is in a possible state.
    pub closed spec fn inv(self) -> bool {
        self@.wf()
    }

    /// Starts the exchange of a request.
    pub fn new() -> (r: Exchange<T>)
        ensures
            r.inv(),
            r@ == exchange_started::<T>(),
    {
        Exchange { attempt: 0, phase: ExchangePhase::Sending, result: None }
    }

    /// The exchange is over.
    fn ended(self, result: Result<T, SyncError>) -> (r: Exchange<T>)
        requires
            0 <= self@.attempt < MAX_RETRIES,
        ensures
            r.inv(),
            r@ == self@.ended(types::outcome(result)),
    {
        Exchange { attempt: self.attempt, phase: ExchangePhase::Over, result: Some(result) }
    }

    /// The attempt failed in a way that another one may mend.
    fn failed(self, e: SyncError) -> (r: Exchange<T>)
        requires
            self.inv(),
            !(self@.phase is Over),
        ensures
            r.inv(),
            r@ == self@.failed(e@),
    {
        if self.attempt + 1 < MAX_RETRIES {
            Exchange { attempt: self.attempt + 1, phase: ExchangePhase::Sending, result: None }
        } else {
            self.ended(Err(e))
        }
    }

    /// The next step.
    pub fn next(&self) -> (r: ExchangeStep)
        requires
            self.inv(),
        ensures
            r == self@.next(),
    {
        match self.phase {
            ExchangePhase::Sending => ExchangeStep::Post { delay_ms: backoff_ms(self.attempt) },
            ExchangePhase::ServerError(_) => ExchangeStep::ReadText,
            ExchangePhase::Refused(_) => ExchangeStep::ReadText,
            ExchangePhase::Answered => ExchangeStep::ReadJson,
            ExchangePhase::Over => ExchangeStep::Finish,
        }
    }

    /// Takes the reply to the current step and moves on. A reply that does not
    /// fit the current step changes nothing.
    pub fn feed(self, reply: ExchangeReply<T>) -> (r: Exchange<T>)
        requires
            self.inv(),
            possible_reply(reply@),
        ensures
            r.inv(),
            r@ == self@.step(reply@),
    {
        match (self.phase, reply) {
            (ExchangePhase::Sending, ExchangeReply::Unreachable(m)) => self.failed(
                SyncError::Http(m),
            ),
            (ExchangePhase::Sending, ExchangeReply::Status(code)) => {
                let phase = if code >= 500 && code <= 599 {
                    ExchangePhase::ServerError(code)
                } else if code >= 200 && code <= 299 {
                    ExchangePhase::Answered
                } else {
                    ExchangePhase::Refused(code)
                };
                Exchange { attempt: self.attempt, phase, result: None }
            },
            (ExchangePhase::ServerError(code), ExchangeReply::Text(body)) => {
                let body = body_or_empty(body);
                let status = status_text(code);
                self.failed(server_error(status.as_str(), body.as_str()))
            },
            (ExchangePhase::Refused(code), ExchangeReply::Text(body)) => {
                let body = body_or_empty(body);
                let status = status_text(code);
                self.ended(Err(refusal(status.as_str(), body.as_str())))
            },
            (ExchangePhase::Answered, ExchangeReply::BadJson(m)) => self.ended(
                Err(SyncError::Http(concat2("failed to parse response: ", m.as_str()))),
            ),
            (ExchangePhase::Answered, ExchangeReply::Json { data, errors }) => self.ended(
                answer(data, errors),
            ),
            _ => self,
        }
    }

    /// What came of the exchange: `None` while it is not over.
    pub fn into_result(self) -> (r: Option<Result<T, SyncError>>)
        ensures
            (match r {
                Some(result) => Some(types::outcome(result)),
                None => None,
            }) == self@.result,
    {
        self.result
    }
}

/// Only a request that could not be delivered or that met a server error is
/// sent again; any other answer ends the exchange.
pub proof fn only_transport_and_server_errors_are_retried<T>(
    exchange: ExchangeView<T>,
    reply: ExchangeReplyView<T>,
)
    requires
        exchange.wf(),
        exchange.step(reply).attempt > exchange.attempt,
    ensures
        exchange.step(reply).attempt == exchange.attempt + 1,
        exchange.step(reply).attempt < MAX_RETRIES,
        exchange.phase is Sending && reply is Unreachable || exchange.phase is ServerError
            && reply is Text,
{
}

/// A request is sent at most as often as the limit says: an exchange in its
/// last attempt never sends again.
pub proof fn last_attempt_is_the_last<T>(
    exchange: ExchangeView<T>,
    reply: ExchangeReplyView<T>,
)
    requires
        exchange.wf(),
        exchange.attempt == MAX_RETRIES - 1,
        !(exchange.phase is Sending),
    ensures
        !(exchange.step(reply).phase is Sending),
{
}

/// Where every attempt fails the exchange ends with the error of the last one.
pub proof fn last_error_is_returned<T>(
    first: Seq<char>,
    second: Seq<char>,
    third: Seq<char>,
)
    ensures
        exchange_started::<T>().step(ExchangeReplyView::Unreachable(first)).step(
            ExchangeReplyView::Unreachable(second),
        ).step(ExchangeReplyView::Unreachable(third)).result == Some(
            Err::<T, types::ErrorView>(types::ErrorView::Http(third)),
        ),
{
}

/// A possible state stays possible under every possible reply.
pub proof fn exchange_states_stay_possible<T>(
    exchange: ExchangeView<T>,
    reply: ExchangeReplyView<T>,
)
    requires
        exchange.wf(),
        possible_reply(reply),
    ensures
        exchange.step(reply).wf(),
{
}

/// There is no wait before the first attempt, and each wait after the second
/// is twice the one before.
pub proof fn waits_double(attempt: int)
    requires
        attempt >= 1,
    ensures
        backoff(0) == 0,
        backoff(1) == INITIAL_BACKOFF_MS,
        backoff(attempt + 1) == 2 * backoff(attempt),
{
    vstd::arithmetic::power2::lemma2_to64();
    vstd::arithmetic::power2::lemma_pow2_unfold(attempt as nat);
    assert(INITIAL_BACKOFF_MS * (2 * vstd::arithmetic::power2::pow2((attempt - 1) as nat)) == 2 * (INITIAL_BACKOFF_MS
        * vstd::arithmetic::power2::pow2((attempt - 1) as nat))) by (nonlinear_arith);
}

/// An answer that reports errors is a failure with all of their messages,
/// whatever data it brings. Any other answer is its data, and a failure only
/// where it brings none.
pub proof fn reported_errors_win_over_data<T>(
    data: Option<T>,
    errors: Option<Seq<Seq<char>>>,
)
    ensures
        errors matches Some(messages) && messages.len() > 0 ==> answered(data, errors)
            == Err::<T, types::ErrorView>(
            types::ErrorView::GraphQL(text::joined(errors->0, "; "@)),
        ),
        (errors matches Some(messages) ==> messages.len() == 0) ==> {
            &&& data matches Some(value) ==> answered(data, errors) == Ok::<T, types::ErrorView>(
                value,
            )
            &&& data is None ==> answered(data, errors) == Err::<T, types::ErrorView>(
                types::ErrorView::GraphQL("response contained no data"@),
            )
        },
{
}

/// A request is posted at once.
pub proof fn first_post_does_not_wait<T>()
    ensures
        exchange_started::<T>().next() == (ExchangeStep::Post { delay_ms: 0 }),
        exchange_started::<T>().result is None,
        exchange_started::<T>().attempt == 0,
{
}

/// A success is read as JSON, and what it says is what comes of the exchange,
/// in whichever attempt it came.
pub proof fn success_is_read_and_returned<T>(
    exchange: ExchangeView<T>,
    code: u16,
    data: Option<T>,
    errors: Option<Seq<Seq<char>>>,
    m: Seq<char>,
)
    requires
        exchange.phase is Sending,
        200 <= code <= 299,
    ensures
        ({
            let reading = exchange.step(ExchangeReplyView::Status(code));
            let done = reading.step(ExchangeReplyView::Json { data, errors });
            let unreadable = reading.step(ExchangeReplyView::BadJson(m));
            &&& reading.next() is ReadJson
            &&& done.next() is Finish
            &&& done.result == Some(answered(data, errors))
            &&& unreadable.next() is Finish
            &&& unreadable.result == Some(
                Err::<T, types::ErrorView>(
                    types::ErrorView::Http("failed to parse response: "@ + m),
                ),
            )
        }),
{
}

/// A request that could not be delivered is posted again after a wait, one
/// second before the second attempt and two before the third; behind the third
/// the exchange ends with its error.
pub proof fn undelivered_request_is_posted_again<T>(exchange: ExchangeView<T>, m: Seq<char>)
    requires
        exchange.phase is Sending,
        0 <= exchange.attempt <= 2,
    ensures
        ({
            let next = exchange.step(ExchangeReplyView::Unreachable(m));
            &&& exchange.attempt == 0 ==> next.next() == ExchangeStep::Post { delay_ms: 1000 }
            &&& exchange.attempt == 1 ==> next.next() == ExchangeStep::Post { delay_ms: 2000 }
            &&& exchange.attempt < 2 ==> next.attempt == exchange.attempt + 1 && next.phase is Sending
                && next.result == exchange.result
            &&& exchange.attempt == 2 ==> next.next() is Finish && next.result == Some(
                Err::<T, types::ErrorView>(types::ErrorView::Http(m)),
            )
        }),
{
    vstd::arithmetic::power2::lemma2_to64();
}

/// A server error is read as text and the request is posted again after the
/// same waits; behind the third attempt the exchange ends with the status and
/// the text, where it could be read.
pub proof fn server_error_is_posted_again<T>(
    exchange: ExchangeView<T>,
    code: u16,
    body: Option<Seq<char>>,
)
    requires
        exchange.phase is Sending,
        0 <= exchange.attempt <= 2,
        500 <= code <= 599,
    ensures
        ({
            let reading = exchange.step(ExchangeReplyView::Status(code));
            let next = reading.step(ExchangeReplyView::Text(body));
            let words = match body {
                Some(t) => t,
                None => Seq::empty(),
            };
            &&& reading.next() is ReadText
            &&& exchange.attempt == 0 ==> next.next() == ExchangeStep::Post { delay_ms: 1000 }
            &&& exchange.attempt == 1 ==> next.next() == ExchangeStep::Post { delay_ms: 2000 }
            &&& exchange.attempt < 2 ==> next.attempt == exchange.attempt + 1 && next.phase is Sending
                && next.result == exchange.result
            &&& exchange.attempt == 2 ==> next.next() is Finish && next.result == Some(
                Err::<T, types::ErrorView>(
                    types::ErrorView::Http(
                        "server error "@ + status_display(code) + ": "@ + words,
                    ),
                ),
            )
        }),
{
    vstd::arithmetic::power2::lemma2_to64();
}

/// Any other status ends the exchange, in whichever attempt it came, with the
/// status and the text, where it could be read.
pub proof fn refusal_ends_the_exchange<T>(
    exchange: ExchangeView<T>,
    code: u16,
    body: Option<Seq<char>>,
)
    requires
        exchange.phase is Sending,
        !(200 <= code <= 299),
        !(500 <= code <= 599),
    ensures
        ({
            let reading = exchange.step(ExchangeReplyView::Status(code));
            let next = reading.step(ExchangeReplyView::Text(body));
            let words = match body {
                Some(t) => t,
                None => Seq::empty(),
            };
            &&& reading.next() is ReadText
            &&& next.next() is Finish
            &&& next.result == Some(
                Err::<T, types::ErrorView>(
                    types::ErrorView::Http("HTTP "@ + status_display(code) + ": "@ + words),
                ),
            )
        }),
{
}

/// The reply is one that the step asks for.
pub open spec fn fits<T>(reply: ExchangeReplyView<T>, step: ExchangeStep) -> bool {
    match step {
        ExchangeStep::Post { .. } => reply is Unreachable || reply is Status,
        ExchangeStep::ReadText => reply is Text,
        ExchangeStep::ReadJson => reply is Json || reply is BadJson,
        ExchangeStep::Finish => false,
    }
}

/// A reply that does not fit the current step changes nothing, and an exchange
/// that is over stays as it is.
pub proof fn unfitting_reply_is_ignored<T>(
    exchange: ExchangeView<T>,
    reply: ExchangeReplyView<T>,
)
    requires
        !fits(reply, exchange.next()),
    ensures
        exchange.step(reply) == exchange,
{
}

/// Every status code that there is may come back.
pub proof fn every_status_code_may_come_back<T>(code: u16, m: Seq<char>)
    ensures
        possible_reply::<T>(ExchangeReplyView::Status(code)) <==> 100 <= code <= 999,
        possible_reply::<T>(ExchangeReplyView::Unreachable(m)),
        possible_reply::<T>(ExchangeReplyView::Text(Some(m))),
        possible_reply::<T>(ExchangeReplyView::BadJson(m)),
{
}

/// The contents of a reply are what it says.
pub proof fn exchange_replies_show_what_they_say<T>(reply: ExchangeReply<T>)
    ensures
        reply matches ExchangeReply::Unreachable(m) ==> reply@
            == ExchangeReplyView::<T>::Unreachable(m@),
        reply matches ExchangeReply::Status(code) ==> reply@
            == ExchangeReplyView::<T>::Status(code),
        reply matches ExchangeReply::Text(Some(t)) ==> reply@
            == ExchangeReplyView::<T>::Text(Some(t@)),
        reply matches ExchangeReply::Text(None) ==> reply@ == ExchangeReplyView::<T>::Text(None),
        reply matches ExchangeReply::BadJson(m) ==> reply@
            == ExchangeReplyView::<T>::BadJson(m@),
        reply matches ExchangeReply::Json { data, errors } ==> (
        reply@ matches ExchangeReplyView::Json { data: d, errors: e } && d == data && (
        errors is None <==> e is None) && (errors matches Some(v) ==> e matches Some(messages)
            && messages == text::texts(v@))),
{
}

/// An exchange is what its state says: the step that it names is the one of its
/// state, and a reply takes it to the state that follows.
pub proof fn exchange_follows_its_state<T>(
    exchange: Exchange<T>,
    step: ExchangeStep,
    reply: ExchangeReply<T>,
    next: Exchange<T>,
)
    requires
        call_ensures(Exchange::<T>::next, (&exchange,), step),
        call_ensures(Exchange::<T>::feed, (exchange, reply), next),
    ensures
        step == exchange@.next(),
        next@ == exchange@.step(reply@),
{
}

} // verus!
