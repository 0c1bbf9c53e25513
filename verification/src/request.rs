//! The decisions made around one RPC request on a backend connection: which
//! provider carries it, how a failed response is classified and logged, when the
//! connection is marked rate limited, and which reverts are saved.
use vstd::prelude::*;
use std::sync::Arc;
use crate::entities::sea_orm_active_enums::{method_from_value, Method};
use crate::hex::{hex_prefixed, to_hex_prefixed};
use crate::text::{contains, seq_contains, seq_starts_with, starts_with, str_equals};

verus! {

/// The severity levels that a revert handler can be made from.
#[derive(Clone, Copy, Debug, PartialEq, Eq, Structural)]
pub enum LogLevel {
    Error,
    Warn,
    Info,
    Debug,
    Trace,
}

/// Depending on the context, RPC errors can require different handling.
#[derive(Clone, Copy, Debug, PartialEq, Eq, Structural)]
pub enum RequestRevertHandler {
    /// Log at the trace level. Use when errors are expected.
    TraceLevel,
    /// Log at the debug level. Use when errors are expected.
    DebugLevel,
    /// Log at the error level. Use when errors are bad.
    ErrorLevel,
    /// Log at the warn level. Use when errors do not cause problems.
    WarnLevel,
    /// Potentially save the revert. Users can tune how often this happens
    Save,
}

impl RequestRevertHandler {
    /// The handler that logs at `level`; there is none for `Info`.
    pub fn from(level: LogLevel) -> (h: Self)
        requires
            level != LogLevel::Info,
        ensures
            h == match level {
                LogLevel::Trace => RequestRevertHandler::TraceLevel,
                LogLevel::Debug => RequestRevertHandler::DebugLevel,
                LogLevel::Error => RequestRevertHandler::ErrorLevel,
                _ => RequestRevertHandler::WarnLevel,
            },
    {
        match level {
            LogLevel::Trace => RequestRevertHandler::TraceLevel,
            LogLevel::Debug => RequestRevertHandler::DebugLevel,
            LogLevel::Error => RequestRevertHandler::ErrorLevel,
            _ => RequestRevertHandler::WarnLevel,
        }
    }
}

/// How often reverts are saved, as far as the decision reads it: never (a chance
/// of 0), always (a chance of 1), or by a random draw.
#[derive(Clone, Copy, Debug, PartialEq, Eq, Structural)]
pub enum RevertChance {
    Never,
    Always,
    Sometimes,
}

/// The checks made on a request's key.
#[derive(Clone, Debug)]
pub struct AuthorizationChecks {
    /// The secret key that the request came with, if any.
    pub rpc_secret_key_id: Option<u64>,
    /// How often the key's reverts are saved.
    pub log_revert_chance: RevertChance,
}

/// Who a request is made for, as far as the request handling reads it.
#[derive(Clone, Debug)]
pub struct Authorization {
    pub checks: AuthorizationChecks,
    /// Whether a database connection is available to save reverts in.
    pub has_db_conn: bool,
}

/// A backend RPC server, as far as the request handling reads it.
#[derive(Clone, Debug)]
pub struct Web3Rpc {
    pub name: String,
    /// Whether the server can be marked rate limited until a given time.
    pub has_hard_limit: bool,
}

/// Makes a second handle on the same shared value (`Arc::clone`, which, as
/// std documents, points the new `Arc` at the same allocation).
#[verifier::external_body]
fn arc_clone<T>(a: &Arc<T>) -> (r: Arc<T>)
    ensures
        r == *a,
{
    Arc::clone(a)
}

/// Make RPC requests through this handle and drop it when you are done.
/// Opening this handle checks rate limits. Developers, try to keep opening a
/// handle and using it as close together as possible.
#[derive(Debug)]
pub struct OpenRequestHandle {
    authorization: Arc<Authorization>,
    conn: Arc<Web3Rpc>,
}

/// A point in time, as tokio measures it.
#[verifier::external_type_specification]
#[verifier::external_body]
pub struct ExInstant(tokio::time::Instant);

/// What trying to open a request gave.
#[derive(Debug)]
pub enum OpenRequestResult {
    Handle(OpenRequestHandle),
    /// Unable to start a request. Retry at the given time.
    RetryAt(tokio::time::Instant),
    /// Unable to start a request because the server is not synced;
    /// contains "true" if backup servers were attempted.
    NotReady(bool),
}

impl OpenRequestHandle {
    pub fn new(authorization: Arc<Authorization>, conn: Arc<Web3Rpc>) -> (h: Self)
        ensures
            h.authorization() == *authorization,
            h.connection() == *conn,
    {
        OpenRequestHandle { authorization, conn }
    }

    /// Who the request is made for.
    pub closed spec fn authorization(&self) -> Authorization {
        *self.authorization
    }

    /// The server the request goes to.
    pub closed spec fn connection(&self) -> Web3Rpc {
        *self.conn
    }

    /// The name of the server the request goes to.
    pub fn connection_name(&self) -> (name: String)
        ensures
            name@ == self.connection().name@,
    {
        self.conn.name.clone()
    }

    /// A shared handle on the server the request goes to.
    pub fn clone_connection(&self) -> (conn: Arc<Web3Rpc>)
        ensures
            *conn == self.connection(),
    {
        arc_clone(&self.conn)
    }
}

// ---------------------------------------------------------------------------
// Waiting for a provider.

/// Where the provider of a request comes from.
#[derive(Clone, Copy, Debug, PartialEq, Eq, Structural)]
pub enum ProviderSource {
    /// The provider handed in with the request.
    Unlocked,
    /// The connection's head client, once it has one.
    HeadClient,
}

/// A provider handed in with the request is used as it is; otherwise the
/// connection's head client is waited for.
pub fn provider_source(has_unlocked_provider: bool) -> (s: ProviderSource)
    ensures
        s == (if has_unlocked_provider {
            ProviderSource::Unlocked
        } else {
            ProviderSource::HeadClient
        }),
{
    if has_unlocked_provider {
        ProviderSource::Unlocked
    } else {
        ProviderSource::HeadClient
    }
}

/// What to do after looking at the connection's head client.
#[derive(Clone, Copy, Debug, PartialEq, Eq, Structural)]
pub enum HeadClientStep {
    /// Use the head client.
    Use,
    /// Sleep for a moment and look again; `log` says whether to report the
    /// wait first.
    Wait { log: bool },
}

/// The wait for a connection's head client, which reports itself once.
#[derive(Clone, Copy, Debug, PartialEq, Eq, Structural)]
pub struct HeadClientWait {
    pub logged: bool,
}

/// One step of the wait: use the head client when it is ready, else wait,
/// reporting the wait only if it has not been reported; the second component
/// says whether the wait has been reported afterwards.
pub open spec fn wait_step(logged: bool, ready: bool) -> (HeadClientStep, bool) {
    if ready {
        (HeadClientStep::Use, logged)
    } else {
        (HeadClientStep::Wait { log: !logged }, true)
    }
}

/// How many of the steps taken on successive `readings` of the head client
/// report the wait.
pub open spec fn reports(logged: bool, readings: Seq<bool>) -> nat
    decreases readings.len(),
{
    if readings.len() == 0 {
        0
    } else {
        let (step, logged_after) = wait_step(logged, readings[0]);
        (if step == (HeadClientStep::Wait { log: true }) {
            1nat
        } else {
            0nat
        }) + reports(logged_after, readings.drop_first())
    }
}

impl HeadClientWait {
    /// A wait that has not reported itself yet.
    pub fn new() -> (w: Self)
        ensures
            !w.logged,
    {
        HeadClientWait { logged: false }
    }

    /// The next step once the head client was found `ready` or not.
    pub fn step(&mut self, ready: bool) -> (s: HeadClientStep)
        ensures
            (s, final(self).logged) == wait_step(old(self).logged, ready),
    {
        if ready {
            HeadClientStep::Use
        } else {
            let log = !self.logged;
            self.logged = true;
            HeadClientStep::Wait { log }
        }
    }
}

proof fn lemma_no_reports_once_logged(readings: Seq<bool>)
    ensures
        reports(true, readings) == 0,
    decreases readings.len(),
{
    if readings.len() > 0 {
        lemma_no_reports_once_logged(readings.drop_first());
    }
}

/// However often the head client is found not ready, a wait that starts out
/// unreported reports itself at most once.
pub proof fn head_client_wait_reports_once(readings: Seq<bool>)
    ensures
        reports(false, readings) <= 1,
    decreases readings.len(),
{
    if readings.len() > 0 {
        if readings[0] {
            head_client_wait_reports_once(readings.drop_first());
        } else {
            lemma_no_reports_once_logged(readings.drop_first());
        }
    }
}

/// A head client that is there is used at once, however long the wait has
/// been and whether or not it was reported; one that is not there makes the
/// request wait, and the wait counts as reported afterwards.
pub proof fn a_ready_head_client_is_used(logged: bool)
    ensures
        wait_step(logged, true).0 == HeadClientStep::Use,
        wait_step(logged, true).1 == logged,
        wait_step(logged, false).0 is Wait,
        wait_step(logged, false).1,
{
}

// ---------------------------------------------------------------------------
// Choosing how a failed request is handled.

/// The methods whose reverts may be saved.
pub open spec fn saves_reverts(method: Seq<char>) -> bool {
    method == "eth_call"@ || method == "eth_estimateGas"@
}

/// The handler for a failed request, or the need for a random draw.
#[derive(Clone, Copy, Debug, PartialEq, Eq, Structural)]
pub enum RevertDecision {
    Use(RequestRevertHandler),
    /// Draw a number between 0 and 1: below the revert chance, the revert is
    /// saved (see `handler_after_draw`).
    Draw,
}

/// Only `Save` handlers change: a method whose reverts are not saved, a missing
/// database, or a chance of 0 turn them into trace logging; a chance of 1 keeps
/// them; any other chance is settled by a random draw.
pub open spec fn spec_revert_decision(
    handler: RequestRevertHandler,
    method: Seq<char>,
    has_db_conn: bool,
    chance: RevertChance,
) -> RevertDecision {
    if handler != RequestRevertHandler::Save {
        RevertDecision::Use(handler)
    } else if !saves_reverts(method) {
        RevertDecision::Use(RequestRevertHandler::TraceLevel)
    } else if !has_db_conn {
        RevertDecision::Use(RequestRevertHandler::TraceLevel)
    } else {
        match chance {
            RevertChance::Never => RevertDecision::Use(RequestRevertHandler::TraceLevel),
            RevertChance::Always => RevertDecision::Use(RequestRevertHandler::Save),
            RevertChance::Sometimes => RevertDecision::Draw,
        }
    }
}

impl OpenRequestHandle {
    /// Settles the handler of a failed request for `method`.
    pub fn revert_decision(&self, handler: RequestRevertHandler, method: &str) -> (d:
        RevertDecision)
        ensures
            d == spec_revert_decision(
                handler,
                method@,
                self.authorization().has_db_conn,
                self.authorization().checks.log_revert_chance,
            ),
    {
        if handler != RequestRevertHandler::Save {
            return RevertDecision::Use(handler);
        }
        if !(str_equals(method, "eth_call") || str_equals(method, "eth_estimateGas")) {
            return RevertDecision::Use(RequestRevertHandler::TraceLevel);
        }
        if !self.authorization.has_db_conn {
            return RevertDecision::Use(RequestRevertHandler::TraceLevel);
        }
        match self.authorization.checks.log_revert_chance {
            RevertChance::Never => RevertDecision::Use(RequestRevertHandler::TraceLevel),
            RevertChance::Always => RevertDecision::Use(RequestRevertHandler::Save),
            RevertChance::Sometimes => RevertDecision::Draw,
        }
    }
}

/// The handler after a random draw between 0 and 1: a draw below the chance
/// saves the revert, so that reverts are saved as often as the chance says.
pub fn handler_after_draw(below_chance: bool) -> (h: RequestRevertHandler)
    ensures
        h == (if below_chance {
            RequestRevertHandler::Save
        } else {
            RequestRevertHandler::TraceLevel
        }),
{
    if below_chance {
        RequestRevertHandler::Save
    } else {
        RequestRevertHandler::TraceLevel
    }
}

/// The handler that a decision leads to, with the outcome of the draw where
/// one is made.
pub open spec fn decided_handler(d: RevertDecision, below_chance: bool) -> RequestRevertHandler {
    match d {
        RevertDecision::Use(h) => h,
        RevertDecision::Draw => if below_chance {
            RequestRevertHandler::Save
        } else {
            RequestRevertHandler::TraceLevel
        },
    }
}

/// Reverts are only ever saved for `eth_call` and `eth_estimateGas`, with a
/// database at hand, from a `Save` handler, and never with a chance of 0; any
/// other handler is kept as it is. Where they can be saved, they are saved
/// always with a chance of 1, and otherwise exactly when the draw falls below
/// the chance, so the chance is how often reverts are saved.
pub proof fn saving_needs_method_database_and_chance(
    handler: RequestRevertHandler,
    method: Seq<char>,
    has_db_conn: bool,
    chance: RevertChance,
    below_chance: bool,
)
    ensures
        decided_handler(spec_revert_decision(handler, method, has_db_conn, chance), below_chance)
            == RequestRevertHandler::Save ==> handler == RequestRevertHandler::Save && saves_reverts(
            method,
        ) && has_db_conn && chance != RevertChance::Never && method_from_value(method) is Some,
        handler != RequestRevertHandler::Save ==> decided_handler(
            spec_revert_decision(handler, method, has_db_conn, chance),
            below_chance,
        ) == handler,
        handler == RequestRevertHandler::Save && saves_reverts(method) && has_db_conn ==> (
        decided_handler(spec_revert_decision(handler, method, has_db_conn, chance), below_chance)
            == RequestRevertHandler::Save <==> (chance == RevertChance::Always || (chance
            == RevertChance::Sometimes && below_chance))),
{
    if saves_reverts(method) {
        lemma_saved_methods_are_stored(method);
    }
}

proof fn lemma_saved_methods_are_stored(method: Seq<char>)
    requires
        saves_reverts(method),
    ensures
        method_from_value(method) is Some,
{
    reveal_strlit("eth_call");
    reveal_strlit("eth_estimateGas");
    assert("eth_call"@.len() == 8);
    assert("eth_estimateGas"@.len() == 15);
}

// ---------------------------------------------------------------------------
// Classifying a failed response.

/// The kind of provider a request went through.
#[derive(Clone, Copy, Debug, PartialEq, Eq, Structural)]
pub enum ProviderKind {
    Http,
    Ws,
    /// An http and a websocket provider together.
    Both,
}

/// A failed response, as far as its classification reads it.
#[derive(Clone, Debug, PartialEq, Eq)]
pub enum ProviderErrorInfo {
    /// An error of the JSON-RPC client. `http_message` is the message of the
    /// JSON-RPC error when the error is an http client's JSON-RPC error,
    /// `ws_message` likewise for a websocket client.
    JsonRpcClientError { http_message: Option<String>, ws_message: Option<String> },
    /// Any other error.
    Other,
}

/// What kind of failure a response is.
#[derive(Clone, Copy, Debug, PartialEq, Eq, Structural)]
pub enum ResponseType {
    /// The call reverted.
    Revert,
    /// The server refused because of a rate limit.
    RateLimit,
    /// Anything else.
    Other,
}

pub open spec fn opt_view(o: Option<String>) -> Option<Seq<char>> {
    match o {
        Some(s) => Some(s@),
        None => None,
    }
}

/// The JSON-RPC error message that a failure carries for the provider it went
/// through: the http one for http providers, the websocket one for websocket
/// providers, and the http one, else the websocket one, for both together.
pub open spec fn spec_error_message(kind: ProviderKind, err: ProviderErrorInfo) -> Option<
    Seq<char>,
> {
    match err {
        ProviderErrorInfo::Other => None,
        ProviderErrorInfo::JsonRpcClientError { http_message, ws_message } => match kind {
            ProviderKind::Http => opt_view(http_message),
            ProviderKind::Ws => opt_view(ws_message),
            ProviderKind::Both => if http_message is Some {
                opt_view(http_message)
            } else {
                opt_view(ws_message)
            },
        },
    }
}

/// A message that starts with "execution reverted" is a revert; one that
/// mentions "limit" or "request" is a rate limit.
pub open spec fn spec_classify_message(msg: Seq<char>) -> ResponseType {
    if seq_starts_with(msg, "execution reverted"@) {
        ResponseType::Revert
    } else if seq_contains(msg, "limit"@) || seq_contains(msg, "request"@) {
        ResponseType::RateLimit
    } else {
        ResponseType::Other
    }
}

/// The kind of a failure: judged by its JSON-RPC error message, `Other` when it has none.
pub open spec fn spec_response_type(kind: ProviderKind, err: ProviderErrorInfo) -> ResponseType {
    match spec_error_message(kind, err) {
        Some(msg) => spec_classify_message(msg),
        None => ResponseType::Other,
    }
}

fn error_message(kind: ProviderKind, err: &ProviderErrorInfo) -> (m: Option<&String>)
    ensures
        match m {
            Some(s) => spec_error_message(kind, *err) == Some(s@),
            None => spec_error_message(kind, *err) is None,
        },
{
    match err {
        ProviderErrorInfo::Other => None,
        ProviderErrorInfo::JsonRpcClientError { http_message, ws_message } => match kind {
            ProviderKind::Http => http_message.as_ref(),
            ProviderKind::Ws => ws_message.as_ref(),
            ProviderKind::Both => {
                if http_message.is_some() {
                    http_message.as_ref()
                } else {
                    ws_message.as_ref()
                }
            },
        },
    }
}

/// Classifies a JSON-RPC error message.
pub fn classify_message(msg: &str) -> (t: ResponseType)
    ensures
        t == spec_classify_message(msg@),
{
    if starts_with(msg, "execution reverted") {
        ResponseType::Revert
    } else if contains(msg, "limit") || contains(msg, "request") {
        ResponseType::RateLimit
    } else {
        ResponseType::Other
    }
}

/// Classifies a failure that came through a provider of kind `kind`.
pub fn response_type(kind: ProviderKind, err: &ProviderErrorInfo) -> (t: ResponseType)
    ensures
        t == spec_response_type(kind, *err),
{
    match error_message(kind, err) {
        Some(msg) => classify_message(msg.as_str()),
        None => ResponseType::Other,
    }
}

// ---------------------------------------------------------------------------
// Handling a failed response.

/// How a failed response is logged.
#[derive(Clone, Copy, Debug, PartialEq, Eq, Structural)]
pub enum ErrorLog {
    /// At the debug level, with the request's params.
    Debug,
    /// At the trace level, with the request's params.
    Trace,
    /// At the error level, without the params.
    Error,
    /// At the warn level, without the params.
    Warn,
}

/// The seconds for which a rate-limited server is left alone.
pub const RATE_LIMIT_RETRY_SECONDS: u64 = 1;

/// What to do about a failed response.
#[derive(Clone, Copy, Debug, PartialEq, Eq, Structural)]
pub struct ErrorPlan {
    pub response_type: ResponseType,
    /// Mark the server rate limited for `RATE_LIMIT_RETRY_SECONDS`.
    pub mark_rate_limited: bool,
    pub log: ErrorLog,
    /// Save the revert as a call of this method.
    pub save_as: Option<Method>,
}

/// The log level of each handler: every failed response is logged, at the
/// level that the handler names (a `Save` handler logs at the trace level).
pub open spec fn spec_error_log(handler: RequestRevertHandler) -> ErrorLog {
    match handler {
        RequestRevertHandler::DebugLevel => ErrorLog::Debug,
        RequestRevertHandler::TraceLevel => ErrorLog::Trace,
        RequestRevertHandler::ErrorLevel => ErrorLog::Error,
        RequestRevertHandler::WarnLevel => ErrorLog::Warn,
        RequestRevertHandler::Save => ErrorLog::Trace,
    }
}

/// The plan for a failed response: a rate limit marks a server that can be
/// marked, the handler sets the log level, and a `Save` handler saves the
/// revert under the request's method.
pub open spec fn spec_error_plan(
    handler: RequestRevertHandler,
    method: Seq<char>,
    kind: ProviderKind,
    err: ProviderErrorInfo,
    has_hard_limit: bool,
) -> ErrorPlan {
    let t = spec_response_type(kind, err);
    ErrorPlan {
        response_type: t,
        mark_rate_limited: t == ResponseType::RateLimit && has_hard_limit,
        log: spec_error_log(handler),
        save_as: if handler == RequestRevertHandler::Save {
            method_from_value(method)
        } else {
            None
        },
    }
}

impl OpenRequestHandle {
    /// Plans what to do about a failed response to `method`, handled by
    /// `handler` (as settled by `revert_decision`).
    pub fn error_plan(
        &self,
        handler: RequestRevertHandler,
        method: &str,
        kind: ProviderKind,
        err: &ProviderErrorInfo,
    ) -> (plan: ErrorPlan)
        requires
            handler == RequestRevertHandler::Save ==> method_from_value(method@) is Some,
        ensures
            plan == spec_error_plan(handler, method@, kind, *err, self.connection().has_hard_limit),
    {
        let t = response_type(kind, err);
        let mark_rate_limited = t == ResponseType::RateLimit && self.conn.has_hard_limit;
        let log = match handler {
            RequestRevertHandler::DebugLevel => ErrorLog::Debug,
            RequestRevertHandler::TraceLevel => ErrorLog::Trace,
            RequestRevertHandler::ErrorLevel => ErrorLog::Error,
            RequestRevertHandler::WarnLevel => ErrorLog::Warn,
            RequestRevertHandler::Save => ErrorLog::Trace,
        };
        let save_as = match handler {
            RequestRevertHandler::Save => match Method::try_from_value(method) {
                Ok(m) => Some(m),
                Err(_) => None,
            },
            _ => None,
        };
        ErrorPlan { response_type: t, mark_rate_limited, log, save_as }
    }
}

/// Only rate limits mark a server, and only one that can be marked.
pub proof fn only_rate_limits_mark_servers(
    handler: RequestRevertHandler,
    method: Seq<char>,
    kind: ProviderKind,
    err: ProviderErrorInfo,
    has_hard_limit: bool,
)
    ensures
        spec_error_plan(handler, method, kind, err, has_hard_limit).mark_rate_limited
            <==> spec_error_plan(handler, method, kind, err, has_hard_limit).response_type
            == ResponseType::RateLimit && has_hard_limit,
        err == ProviderErrorInfo::Other ==> spec_error_plan(
            handler,
            method,
            kind,
            err,
            has_hard_limit,
        ).response_type == ResponseType::Other,
{
}

/// Only a `Save` handler saves a revert, and it saves it as a call of the
/// request's own method; every other handler only logs.
pub proof fn only_save_handlers_save(
    handler: RequestRevertHandler,
    method: Seq<char>,
    kind: ProviderKind,
    err: ProviderErrorInfo,
    has_hard_limit: bool,
)
    ensures
        handler != RequestRevertHandler::Save ==> spec_error_plan(
            handler,
            method,
            kind,
            err,
            has_hard_limit,
        ).save_as is None,
        handler == RequestRevertHandler::Save ==> match spec_error_plan(
            handler,
            method,
            kind,
            err,
            has_hard_limit,
        ).save_as {
            Some(m) => method_from_value(method) == Some(m),
            None => method_from_value(method) is None,
        },
{
}

// ---------------------------------------------------------------------------
// Saving a revert.

/// The first parameter of an `eth_call`: the address called and the call data.
#[derive(Clone, Debug)]
pub struct EthCallFirstParams {
    pub to: [u8; 20],
    pub data: Option<Vec<u8>>,
}

/// A revert to be stored; the time it is saved at is added when it is stored.
#[derive(Clone, Debug)]
pub struct RevertLog {
    pub rpc_key_id: u64,
    pub method: Method,
    pub to: Vec<u8>,
    /// The call data as `0x` and lower-case hex digits.
    pub call_data: Option<String>,
}

/// Why a revert could not be saved.
#[derive(Clone, Copy, Debug, PartialEq, Eq, Structural)]
pub enum SaveRevertError {
    NoDatabaseConnection,
}

impl SaveRevertError {
    /// A short description of the error.
    pub fn message(&self) -> (m: &'static str)
        ensures
            m@ == "no database connection"@,
    {
        match self {
            SaveRevertError::NoDatabaseConnection => "no database connection",
        }
    }
}

/// `r` is what saving a revert of a call of `method` with `params` gives for
/// `auth`: nothing without a secret key, an error without a database, and
/// otherwise a record of the key, the method, the address called and the call
/// data in hex.
pub open spec fn is_revert_log_for(
    auth: Authorization,
    method: Method,
    params: EthCallFirstParams,
    r: Result<Option<RevertLog>, SaveRevertError>,
) -> bool {
    match auth.checks.rpc_secret_key_id {
        None => r matches Ok(None),
        Some(id) => if !auth.has_db_conn {
            r == Err::<Option<RevertLog>, SaveRevertError>(SaveRevertError::NoDatabaseConnection)
        } else {
            r matches Ok(Some(log)) && log.rpc_key_id == id && log.method == method && log.to@
                == params.to@ && match params.data {
                None => log.call_data is None,
                Some(d) => log.call_data matches Some(c) && c@ == hex_prefixed(d@),
            }
        },
    }
}

impl Authorization {
    /// The record of a revert of a call of `method` with `params`: none when the
    /// request came without a secret key, an error when there is no database to
    /// save it in.
    pub fn revert_log(&self, method: Method, params: &EthCallFirstParams) -> (r: Result<
        Option<RevertLog>,
        SaveRevertError,
    >)
        ensures
            is_revert_log_for(*self, method, *params, r),
    {
        let rpc_key_id = match self.checks.rpc_secret_key_id {
            Some(id) => id,
            None => {
                return Ok(None);
            },
        };
        if !self.has_db_conn {
            return Err(SaveRevertError::NoDatabaseConnection);
        }
        let mut to: Vec<u8> = Vec::new();
        let mut i: usize = 0;
        while i < 20
            invariant
                i <= 20,
                to@ == params.to@.take(i as int),
            decreases 20 - i,
        {
            to.push(params.to[i]);
            assert(params.to@.take(i + 1) =~= params.to@.take(i as int).push(params.to@[i as int]));
            i = i + 1;
        }
        assert(params.to@.take(20) =~= params.to@);
        let call_data = match &params.data {
            Some(d) => Some(to_hex_prefixed(d.as_slice())),
            None => None,
        };
        Ok(Some(RevertLog { rpc_key_id, method, to, call_data }))
    }
}

impl OpenRequestHandle {
    /// The record of a revert on this handle's request: see `Authorization::revert_log`.
    pub fn revert_log(&self, method: Method, params: &EthCallFirstParams) -> (r: Result<
        Option<RevertLog>,
        SaveRevertError,
    >)
        ensures
            is_revert_log_for(self.authorization(), method, *params, r),
    {
        self.authorization.revert_log(method, params)
    }
}

} // verus!
