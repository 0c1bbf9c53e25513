//! Reading the query parameters of the user statistics endpoints.
use vstd::prelude::*;
use crate::clock::{
    is_clock_result, naive_datetime_exists, read_clock, timestamp_in_range, Timestamp,
    MAX_TIMESTAMP, MIN_TIMESTAMP, NANOS_PER_SECOND, THIRTY_DAYS_SECONDS,
};
use crate::decimal::{
    decimal_text, i64_decimal_round_trip, int_error_message, parse_i64, parse_u64, spec_parse_i64,
    spec_parse_u64, IntErrorKind,
};
use crate::query_params::{param, QueryParams};
use crate::stats_query::{detailed_response, ResponseKey};

verus! {

/// Why a stats request was refused.
#[derive(Clone, Copy, Debug, PartialEq, Eq, Structural)]
pub enum ParamError {
    /// The `user_id` that came with a bearer token is not a number.
    UserId,
    /// The `user_id` that came without a bearer token is not a number.
    UserIdNumber(IntErrorKind),
    /// `user_id` names another user than the bearer token's.
    PermissionDenied,
    /// `rpc_key_id` is not a number.
    RpcKeyId(IntErrorKind),
    /// `chain_id` is not a number.
    ChainId(IntErrorKind),
    /// `query_start` is not a number.
    QueryStart,
    /// `query_start` is a number but no date-time has that timestamp.
    QueryStartOutOfRange,
    /// `query_start` is absent and the system clock could not be read: it
    /// reads a time before the Unix epoch or past chrono's latest date-time.
    ClockUnreadable,
    /// `page` is not a number.
    Page,
    /// `query_window_seconds` is not a number.
    QueryWindowSeconds,
}

/// The description of a `ParamError`: what was being read, or, for the
/// numbers read without further context, the number parser's own description.
pub open spec fn param_error_message(e: ParamError) -> Seq<char> {
    match e {
        ParamError::UserId => "Parsing user_id param"@,
        ParamError::UserIdNumber(k) => int_error_message(k),
        ParamError::PermissionDenied => "permission denied"@,
        ParamError::RpcKeyId(k) => int_error_message(k),
        ParamError::ChainId(k) => int_error_message(k),
        ParamError::QueryStart => "parsing timestamp query param"@,
        ParamError::QueryStartOutOfRange => "parsing timestamp query param"@,
        ParamError::ClockUnreadable => "reading the system clock"@,
        ParamError::Page => "parsing page query from params"@,
        ParamError::QueryWindowSeconds => "parsing query window seconds from params"@,
    }
}

impl ParamError {
    /// A short description of the error.
    pub fn message(&self) -> (m: &'static str)
        ensures
            m@ == param_error_message(*self),
    {
        match self {
            ParamError::UserId => "Parsing user_id param",
            ParamError::UserIdNumber(k) => k.message(),
            ParamError::PermissionDenied => "permission denied",
            ParamError::RpcKeyId(k) => k.message(),
            ParamError::ChainId(k) => k.message(),
            ParamError::QueryStart => "parsing timestamp query param",
            ParamError::QueryStartOutOfRange => "parsing timestamp query param",
            ParamError::ClockUnreadable => "reading the system clock",
            ParamError::Page => "parsing page query from params",
            ParamError::QueryWindowSeconds => "parsing query window seconds from params",
        }
    }
}

/// The settings of the proxy that the stats queries read.
pub struct AppConfig {
    /// The chain that requests go to when they name none.
    pub chain_id: u64,
}

/// The proxy application, as far as the stats queries read it.
pub struct Web3ProxyApp {
    pub config: AppConfig,
}

/// A number parameter: `default` when absent, else its value as a `u64`, or
/// why it is not one.
pub open spec fn spec_u64_value(p: Map<Seq<char>, Seq<char>>, key: Seq<char>, default: u64) -> Result<
    u64,
    IntErrorKind,
> {
    match param(p, key) {
        None => Ok(default),
        Some(v) => spec_parse_u64(v),
    }
}

fn u64_value(params: &QueryParams, key: &str, default: u64) -> (res: Result<u64, IntErrorKind>)
    ensures
        res == spec_u64_value(params@, key@, default),
{
    match params.get(key) {
        None => Ok(default),
        Some(v) => parse_u64(v.as_str()),
    }
}

/// The rpc key named by the parameters: only read when a user is named, so
/// that nobody reads another's keys; 0 means none.
pub open spec fn spec_rpc_key_id(user_id: u64, p: Map<Seq<char>, Seq<char>>) -> Result<
    u64,
    ParamError,
> {
    if user_id > 0 {
        match spec_u64_value(p, "rpc_key_id"@, 0) {
            Ok(n) => Ok(n),
            Err(k) => Err(ParamError::RpcKeyId(k)),
        }
    } else {
        Ok(0)
    }
}

/// Only allows an rpc key to be set if a user id is also set, which keeps
/// people from reading someone else's keys. 0 means none.
pub fn get_rpc_key_id_from_params(user_id: u64, params: &QueryParams) -> (res: Result<
    u64,
    ParamError,
>)
    ensures
        res == spec_rpc_key_id(user_id, params@),
        user_id == 0 ==> res == Ok::<u64, ParamError>(0),
{
    if user_id > 0 {
        match u64_value(params, "rpc_key_id", 0) {
            Ok(n) => Ok(n),
            Err(k) => Err(ParamError::RpcKeyId(k)),
        }
    } else {
        Ok(0)
    }
}

/// The chain named by the parameters, the proxy's own chain when none is named.
pub open spec fn spec_chain_id(app_chain_id: u64, p: Map<Seq<char>, Seq<char>>) -> Result<
    u64,
    ParamError,
> {
    match spec_u64_value(p, "chain_id"@, app_chain_id) {
        Ok(n) => Ok(n),
        Err(k) => Err(ParamError::ChainId(k)),
    }
}

/// The chain to report on: `chain_id` when given, else the proxy's configured chain.
pub fn get_chain_id_from_params(app: &Web3ProxyApp, params: &QueryParams) -> (res: Result<
    u64,
    ParamError,
>)
    ensures
        res == spec_chain_id(app.config.chain_id, params@),
{
    match u64_value(params, "chain_id", app.config.chain_id) {
        Ok(n) => Ok(n),
        Err(k) => Err(ParamError::ChainId(k)),
    }
}

/// The page of results asked for, 0 when none is named.
pub open spec fn spec_page(p: Map<Seq<char>, Seq<char>>) -> Result<u64, ParamError> {
    match spec_u64_value(p, "page"@, 0) {
        Ok(n) => Ok(n),
        Err(_) => Err(ParamError::Page),
    }
}

/// The page of results asked for; 0 when `page` is absent.
pub fn get_page_from_params(params: &QueryParams) -> (res: Result<u64, ParamError>)
    ensures
        res == spec_page(params@),
{
    match u64_value(params, "page", 0) {
        Ok(n) => Ok(n),
        Err(_) => Err(ParamError::Page),
    }
}

/// The width of the time windows to group by, 0 (no grouping) when none is named.
pub open spec fn spec_query_window_seconds(p: Map<Seq<char>, Seq<char>>) -> Result<
    u64,
    ParamError,
> {
    match spec_u64_value(p, "query_window_seconds"@, 0) {
        Ok(n) => Ok(n),
        Err(_) => Err(ParamError::QueryWindowSeconds),
    }
}

/// The width of the time windows to group by; 0 when `query_window_seconds` is absent.
pub fn get_query_window_seconds_from_params(params: &QueryParams) -> (res: Result<
    u64,
    ParamError,
>)
    ensures
        res == spec_query_window_seconds(params@),
{
    match u64_value(params, "query_window_seconds", 0) {
        Ok(n) => Ok(n),
        Err(_) => Err(ParamError::QueryWindowSeconds),
    }
}

/// A given `query_start`: a timestamp that a date-time exists for, at its whole second.
pub open spec fn spec_query_start_given(v: Seq<char>) -> Result<Timestamp, ParamError> {
    match spec_parse_i64(v) {
        Err(_) => Err(ParamError::QueryStart),
        Ok(t) => if timestamp_in_range(t) {
            Ok(Timestamp { secs: t, nanos: 0 })
        } else {
            Err(ParamError::QueryStartOutOfRange)
        },
    }
}

/// The default start of the period: thirty days before `now`.
pub open spec fn thirty_days_before(now: Timestamp) -> Timestamp {
    Timestamp { secs: (now.secs - THIRTY_DAYS_SECONDS) as i64, nanos: now.nanos }
}

/// The start of the period to report on: `query_start` when given, else
/// thirty days before the time `now` that the clock gave, or a refusal when
/// the clock could not be read.
pub open spec fn spec_query_start(p: Map<Seq<char>, Seq<char>>, now: Option<Timestamp>) -> Result<
    Timestamp,
    ParamError,
> {
    match param(p, "query_start"@) {
        None => match now {
            Some(t) => Ok(thirty_days_before(t)),
            None => Err(ParamError::ClockUnreadable),
        },
        Some(v) => spec_query_start_given(v),
    }
}

fn query_start_given(v: &str) -> (res: Result<Timestamp, ParamError>)
    ensures
        res == spec_query_start_given(v@),
{
    match parse_i64(v) {
        Err(_) => Err(ParamError::QueryStart),
        Ok(t) => {
            if naive_datetime_exists(t) {
                Ok(Timestamp { secs: t, nanos: 0 })
            } else {
                Err(ParamError::QueryStartOutOfRange)
            }
        },
    }
}

/// A time at which the default start of the period exists as a date-time.
pub open spec fn now_admits_default_start(now: Timestamp) -> bool {
    MIN_TIMESTAMP + THIRTY_DAYS_SECONDS <= now.secs <= MAX_TIMESTAMP && now.nanos
        < NANOS_PER_SECOND
}

/// The start of the period to report on, given the current time `now`.
pub fn query_start_from_params_at(params: &QueryParams, now: Timestamp) -> (res: Result<
    Timestamp,
    ParamError,
>)
    requires
        now_admits_default_start(now),
    ensures
        res == spec_query_start(params@, Some(now)),
{
    match params.get("query_start") {
        None => Ok(Timestamp { secs: now.secs - THIRTY_DAYS_SECONDS, nanos: now.nanos }),
        Some(v) => query_start_given(v.as_str()),
    }
}

/// The start of the period to report on: `query_start` when given (the clock is
/// then not read), else thirty days before the current time.
pub fn get_query_start_from_params(params: &QueryParams) -> (res: Result<Timestamp, ParamError>)
    ensures
        exists|now: Option<Timestamp>|
            is_clock_result(now) && res == #[trigger] spec_query_start(params@, now),
        param(params@, "query_start"@) matches Some(v) ==> res == spec_query_start_given(v),
{
    match params.get("query_start") {
        None => {
            let now = read_clock();
            let res = match now {
                None => Err(ParamError::ClockUnreadable),
                Some(t) => query_start_from_params_at(params, t),
            };
            assert(is_clock_result(now) && res == spec_query_start(params@, now));
            res
        },
        Some(v) => {
            let res = query_start_given(v.as_str());
            assert(is_clock_result(None) && res == spec_query_start(params@, None));
            res
        },
    }
}

/// How the user to report on is found.
#[derive(Debug, PartialEq, Eq)]
pub enum UserIdLookup {
    /// Known without asking anyone: the user id, or why the request is refused.
    Resolved(Result<u64, ParamError>),
    /// A bearer token came with `user_id`: the user that the token belongs to
    /// must be looked up and compared with this `user_id` text.
    CheckBearer(String),
}

/// The user asked for, as far as it is known without looking up the bearer
/// token: no `user_id` means every user (0); a `user_id` without a token is
/// taken as given; a `user_id` with a token must match the token's user.
pub fn start_user_id_lookup(has_bearer: bool, params: &QueryParams) -> (res: UserIdLookup)
    ensures
        match param(params@, "user_id"@) {
            None => res == UserIdLookup::Resolved(Ok(0)),
            Some(v) => if has_bearer {
                res matches UserIdLookup::CheckBearer(s) && s@ == v
            } else {
                res == UserIdLookup::Resolved(
                    match spec_parse_u64(v) {
                        Ok(n) => Ok(n),
                        Err(k) => Err(ParamError::UserIdNumber(k)),
                    },
                )
            },
        },
{
    match params.get("user_id") {
        None => UserIdLookup::Resolved(Ok(0)),
        Some(v) => {
            if has_bearer {
                UserIdLookup::CheckBearer(v.clone())
            } else {
                match parse_u64(v.as_str()) {
                    Ok(n) => UserIdLookup::Resolved(Ok(n)),
                    Err(k) => UserIdLookup::Resolved(Err(ParamError::UserIdNumber(k))),
                }
            }
        },
    }
}

/// The user of a bearer token against the `user_id` asked for: the id when
/// they agree, a refusal when they do not.
pub open spec fn spec_bearer_user_id(bearer_user_id: u64, user_id: Seq<char>) -> Result<
    u64,
    ParamError,
> {
    match spec_parse_u64(user_id) {
        Err(_) => Err(ParamError::UserId),
        Ok(n) => if n == bearer_user_id {
            Ok(n)
        } else {
            Err(ParamError::PermissionDenied)
        },
    }
}

/// Completes the lookup once the bearer token's user is known.
pub fn finish_user_id_lookup(bearer_user_id: u64, user_id: &str) -> (res: Result<
    u64,
    ParamError,
>)
    ensures
        res == spec_bearer_user_id(bearer_user_id, user_id@),
{
    match parse_u64(user_id) {
        Err(_) => Err(ParamError::UserId),
        Ok(n) => {
            if n != bearer_user_id {
                Err(ParamError::PermissionDenied)
            } else {
                Ok(n)
            }
        },
    }
}

/// The parameters of the aggregate stats query, read in the order the endpoint reads them.
#[derive(Clone, Copy, Debug, PartialEq, Eq, Structural)]
pub struct AggregateStatsParams {
    pub page: u64,
    pub query_window_seconds: u64,
    pub query_start: Timestamp,
    pub chain_id: u64,
}

/// The aggregate query's parameters at time `now`, or the first refusal among
/// page, window width, start and chain, in that order.
pub open spec fn spec_aggregate_stats_params(
    app_chain_id: u64,
    p: Map<Seq<char>, Seq<char>>,
    now: Option<Timestamp>,
) -> Result<AggregateStatsParams, ParamError> {
    match spec_page(p) {
        Err(e) => Err(e),
        Ok(page) => match spec_query_window_seconds(p) {
            Err(e) => Err(e),
            Ok(query_window_seconds) => match spec_query_start(p, now) {
                Err(e) => Err(e),
                Ok(query_start) => match spec_chain_id(app_chain_id, p) {
                    Err(e) => Err(e),
                    Ok(chain_id) => Ok(
                        AggregateStatsParams { page, query_window_seconds, query_start, chain_id },
                    ),
                },
            },
        },
    }
}

/// Reads the parameters of the aggregate stats query, given the current time `now`.
pub fn aggregate_stats_params_at(app: &Web3ProxyApp, params: &QueryParams, now: Timestamp) -> (res:
    Result<AggregateStatsParams, ParamError>)
    requires
        now_admits_default_start(now),
    ensures
        res == spec_aggregate_stats_params(app.config.chain_id, params@, Some(now)),
{
    let page = get_page_from_params(params)?;
    let query_window_seconds = get_query_window_seconds_from_params(params)?;
    let query_start = query_start_from_params_at(params, now)?;
    let chain_id = get_chain_id_from_params(app, params)?;
    Ok(AggregateStatsParams { page, query_window_seconds, query_start, chain_id })
}

/// Reads the parameters of the aggregate stats query; the clock is read only
/// when `query_start` is absent.
pub fn get_aggregate_stats_params(app: &Web3ProxyApp, params: &QueryParams) -> (res: Result<
    AggregateStatsParams,
    ParamError,
>)
    ensures
        exists|now: Option<Timestamp>|
            is_clock_result(now) && res == #[trigger] spec_aggregate_stats_params(
                app.config.chain_id,
                params@,
                now,
            ),
{
    let ghost some_time: Option<Timestamp> = None;
    let page = match get_page_from_params(params) {
        Ok(v) => v,
        Err(e) => {
            assert(spec_aggregate_stats_params(app.config.chain_id, params@, some_time) == Err::<
                AggregateStatsParams,
                ParamError,
            >(e));
            return Err(e);
        },
    };
    let query_window_seconds = match get_query_window_seconds_from_params(params) {
        Ok(v) => v,
        Err(e) => {
            assert(spec_aggregate_stats_params(app.config.chain_id, params@, some_time) == Err::<
                AggregateStatsParams,
                ParamError,
            >(e));
            return Err(e);
        },
    };
    let start = get_query_start_from_params(params);
    let ghost now = choose|now: Option<Timestamp>|
        is_clock_result(now) && start == #[trigger] spec_query_start(params@, now);
    let query_start = match start {
        Ok(v) => v,
        Err(e) => {
            assert(spec_aggregate_stats_params(app.config.chain_id, params@, now) == Err::<
                AggregateStatsParams,
                ParamError,
            >(e));
            return Err(e);
        },
    };
    let res = match get_chain_id_from_params(app, params) {
        Ok(chain_id) => Ok(AggregateStatsParams { page, query_window_seconds, query_start, chain_id }),
        Err(e) => Err(e),
    };
    assert(res == spec_aggregate_stats_params(app.config.chain_id, params@, now));
    res
}

/// The parameters of the detailed stats query, read in the order the endpoint reads them.
#[derive(Clone, Copy, Debug, PartialEq, Eq, Structural)]
pub struct DetailedStatsParams {
    pub user_id: u64,
    pub rpc_key_id: u64,
    pub chain_id: u64,
    pub query_start: Timestamp,
    pub query_window_seconds: u64,
    pub page: u64,
}

/// The detailed query's parameters for user `user_id` at time `now`, or the
/// first refusal among rpc key, chain, start, window width and page, in that order.
pub open spec fn spec_detailed_stats_params(
    user_id: u64,
    app_chain_id: u64,
    p: Map<Seq<char>, Seq<char>>,
    now: Option<Timestamp>,
) -> Result<DetailedStatsParams, ParamError> {
    match spec_rpc_key_id(user_id, p) {
        Err(e) => Err(e),
        Ok(rpc_key_id) => match spec_chain_id(app_chain_id, p) {
            Err(e) => Err(e),
            Ok(chain_id) => match spec_query_start(p, now) {
                Err(e) => Err(e),
                Ok(query_start) => match spec_query_window_seconds(p) {
                    Err(e) => Err(e),
                    Ok(query_window_seconds) => match spec_page(p) {
                        Err(e) => Err(e),
                        Ok(page) => Ok(
                            DetailedStatsParams {
                                user_id,
                                rpc_key_id,
                                chain_id,
                                query_start,
                                query_window_seconds,
                                page,
                            },
                        ),
                    },
                },
            },
        },
    }
}

/// Reads the parameters of the detailed stats query for the user `user_id`
/// (already looked up), given the current time `now`.
pub fn detailed_stats_params_at(
    app: &Web3ProxyApp,
    params: &QueryParams,
    user_id: u64,
    now: Timestamp,
) -> (res: Result<DetailedStatsParams, ParamError>)
    requires
        now_admits_default_start(now),
    ensures
        res == spec_detailed_stats_params(user_id, app.config.chain_id, params@, Some(now)),
        res matches Ok(d) ==> (d.rpc_key_id != 0 ==> d.user_id != 0),
{
    let rpc_key_id = get_rpc_key_id_from_params(user_id, params)?;
    let chain_id = get_chain_id_from_params(app, params)?;
    let query_start = query_start_from_params_at(params, now)?;
    let query_window_seconds = get_query_window_seconds_from_params(params)?;
    let page = get_page_from_params(params)?;
    Ok(DetailedStatsParams { user_id, rpc_key_id, chain_id, query_start, query_window_seconds, page })
}

/// Reads the parameters of the detailed stats query for the user `user_id`
/// (already looked up); the clock is read only when `query_start` is absent.
pub fn get_detailed_stats_params(app: &Web3ProxyApp, params: &QueryParams, user_id: u64) -> (res:
    Result<DetailedStatsParams, ParamError>)
    ensures
        exists|now: Option<Timestamp>|
            is_clock_result(now) && res == #[trigger] spec_detailed_stats_params(
                user_id,
                app.config.chain_id,
                params@,
                now,
            ),
        res matches Ok(d) ==> (d.rpc_key_id != 0 ==> d.user_id != 0),
{
    let ghost some_time: Option<Timestamp> = None;
    let rpc_key_id = match get_rpc_key_id_from_params(user_id, params) {
        Ok(v) => v,
        Err(e) => {
            assert(spec_detailed_stats_params(user_id, app.config.chain_id, params@, some_time)
                == Err::<DetailedStatsParams, ParamError>(e));
            return Err(e);
        },
    };
    let chain_id = match get_chain_id_from_params(app, params) {
        Ok(v) => v,
        Err(e) => {
            assert(spec_detailed_stats_params(user_id, app.config.chain_id, params@, some_time)
                == Err::<DetailedStatsParams, ParamError>(e));
            return Err(e);
        },
    };
    let start = get_query_start_from_params(params);
    let ghost now = choose|now: Option<Timestamp>|
        is_clock_result(now) && start == #[trigger] spec_query_start(params@, now);
    let query_start = match start {
        Ok(v) => v,
        Err(e) => {
            assert(spec_detailed_stats_params(user_id, app.config.chain_id, params@, now) == Err::<
                DetailedStatsParams,
                ParamError,
            >(e));
            return Err(e);
        },
    };
    let res = match get_query_window_seconds_from_params(params) {
        Err(e) => Err(e),
        Ok(query_window_seconds) => match get_page_from_params(params) {
            Err(e) => Err(e),
            Ok(page) => Ok(
                DetailedStatsParams {
                    user_id,
                    rpc_key_id,
                    chain_id,
                    query_start,
                    query_window_seconds,
                    page,
                },
            ),
        },
    };
    assert(res == spec_detailed_stats_params(user_id, app.config.chain_id, params@, now));
    res
}

// ---------------------------------------------------------------------------
// Each parameter comes from its own entry.

/// The detailed parameters, once read, hold the user they were read for and,
/// field by field, what each parameter read on its own gives: the key from
/// `rpc_key_id` (for that user), the chain from `chain_id`, the start from
/// `query_start` (or the clock), the window from `query_window_seconds` and
/// the page from `page`. They are read exactly when every one of those reads
/// succeeds.
pub proof fn detailed_fields_come_from_their_parameters(
    user_id: u64,
    app_chain_id: u64,
    p: Map<Seq<char>, Seq<char>>,
    now: Option<Timestamp>,
)
    ensures
        spec_detailed_stats_params(user_id, app_chain_id, p, now) matches Ok(d) ==> {
            &&& d.user_id == user_id
            &&& spec_rpc_key_id(user_id, p) == Ok::<u64, ParamError>(d.rpc_key_id)
            &&& spec_chain_id(app_chain_id, p) == Ok::<u64, ParamError>(d.chain_id)
            &&& spec_query_start(p, now) == Ok::<Timestamp, ParamError>(d.query_start)
            &&& spec_query_window_seconds(p) == Ok::<u64, ParamError>(d.query_window_seconds)
            &&& spec_page(p) == Ok::<u64, ParamError>(d.page)
        },
        spec_detailed_stats_params(user_id, app_chain_id, p, now) is Ok <==> {
            &&& spec_rpc_key_id(user_id, p) is Ok
            &&& spec_chain_id(app_chain_id, p) is Ok
            &&& spec_query_start(p, now) is Ok
            &&& spec_query_window_seconds(p) is Ok
            &&& spec_page(p) is Ok
        },
{
}

/// The aggregate parameters, once read, hold field by field what each
/// parameter read on its own gives: the page from `page`, the window from
/// `query_window_seconds`, the start from `query_start` (or the clock) and
/// the chain from `chain_id`. They are read exactly when every one of those
/// reads succeeds.
pub proof fn aggregate_fields_come_from_their_parameters(
    app_chain_id: u64,
    p: Map<Seq<char>, Seq<char>>,
    now: Option<Timestamp>,
)
    ensures
        spec_aggregate_stats_params(app_chain_id, p, now) matches Ok(a) ==> {
            &&& spec_page(p) == Ok::<u64, ParamError>(a.page)
            &&& spec_query_window_seconds(p) == Ok::<u64, ParamError>(a.query_window_seconds)
            &&& spec_query_start(p, now) == Ok::<Timestamp, ParamError>(a.query_start)
            &&& spec_chain_id(app_chain_id, p) == Ok::<u64, ParamError>(a.chain_id)
        },
        spec_aggregate_stats_params(app_chain_id, p, now) is Ok <==> {
            &&& spec_page(p) is Ok
            &&& spec_query_window_seconds(p) is Ok
            &&& spec_query_start(p, now) is Ok
            &&& spec_chain_id(app_chain_id, p) is Ok
        },
{
}

// ---------------------------------------------------------------------------
// What `rpc_key_id` can and cannot change.

/// `p` and `p2` hold the same parameters, but for `key`, which either may
/// lack, hold, or hold with another value.
pub open spec fn agree_except(
    p: Map<Seq<char>, Seq<char>>,
    p2: Map<Seq<char>, Seq<char>>,
    key: Seq<char>,
) -> bool {
    forall|k: Seq<char>| k != key ==> #[trigger] param(p, k) == param(p2, k)
}

proof fn lemma_other_keys_agree(p: Map<Seq<char>, Seq<char>>, p2: Map<Seq<char>, Seq<char>>)
    requires
        agree_except(p, p2, "rpc_key_id"@),
    ensures
        param(p, "page"@) == param(p2, "page"@),
        param(p, "query_window_seconds"@) == param(p2, "query_window_seconds"@),
        param(p, "query_start"@) == param(p2, "query_start"@),
        param(p, "chain_id"@) == param(p2, "chain_id"@),
        param(p, "user_id"@) == param(p2, "user_id"@),
{
    reveal_strlit("rpc_key_id");
    reveal_strlit("page");
    reveal_strlit("query_window_seconds");
    reveal_strlit("query_start");
    reveal_strlit("chain_id");
    reveal_strlit("user_id");
    assert("page"@.len() != "rpc_key_id"@.len());
    assert("query_window_seconds"@.len() != "rpc_key_id"@.len());
    assert("query_start"@.len() != "rpc_key_id"@.len());
    assert("chain_id"@.len() != "rpc_key_id"@.len());
    assert("user_id"@.len() != "rpc_key_id"@.len());
}

/// The aggregate stats never read `rpc_key_id`: adding, changing or removing
/// it, whatever its text, leaves the parameters (or the refusal) as they were.
pub proof fn aggregate_params_ignore_rpc_key_id(
    app_chain_id: u64,
    p: Map<Seq<char>, Seq<char>>,
    p2: Map<Seq<char>, Seq<char>>,
    now: Option<Timestamp>,
)
    requires
        agree_except(p, p2, "rpc_key_id"@),
    ensures
        spec_aggregate_stats_params(app_chain_id, p, now) == spec_aggregate_stats_params(
            app_chain_id,
            p2,
            now,
        ),
{
    lemma_other_keys_agree(p, p2);
}

/// Two reads of the aggregate parameters (each with its own reading of the
/// clock) from parameters that differ only in `rpc_key_id`: unless one of them
/// could not read the clock, they give the same refusal, or the same page,
/// window and chain; with `query_start` given they give the same result
/// outright.
pub proof fn aggregate_reads_ignore_rpc_key_id(
    app_chain_id: u64,
    p: Map<Seq<char>, Seq<char>>,
    p2: Map<Seq<char>, Seq<char>>,
    r: Result<AggregateStatsParams, ParamError>,
    r2: Result<AggregateStatsParams, ParamError>,
)
    requires
        agree_except(p, p2, "rpc_key_id"@),
        exists|now: Option<Timestamp>|
            is_clock_result(now) && r == #[trigger] spec_aggregate_stats_params(
                app_chain_id,
                p,
                now,
            ),
        exists|now: Option<Timestamp>|
            is_clock_result(now) && r2 == #[trigger] spec_aggregate_stats_params(
                app_chain_id,
                p2,
                now,
            ),
    ensures
        param(p, "query_start"@) is Some ==> r2 == r,
        r != Err::<AggregateStatsParams, ParamError>(ParamError::ClockUnreadable) && r2 != Err::<
            AggregateStatsParams,
            ParamError,
        >(ParamError::ClockUnreadable) ==> {
            &&& r is Err ==> r2 == r
            &&& r is Ok <==> r2 is Ok
            &&& r matches Ok(a) ==> (r2 matches Ok(b) && a.page == b.page && a.query_window_seconds
                == b.query_window_seconds && a.chain_id == b.chain_id)
        },
{
    let now = choose|now: Option<Timestamp>|
        is_clock_result(now) && r == #[trigger] spec_aggregate_stats_params(app_chain_id, p, now);
    let now2 = choose|now: Option<Timestamp>|
        is_clock_result(now) && r2 == #[trigger] spec_aggregate_stats_params(
            app_chain_id,
            p2,
            now,
        );
    aggregate_params_ignore_rpc_key_id(app_chain_id, p, p2, now2);
    lemma_other_keys_agree(p, p2);
}

/// Without a user (no `user_id` parameter resolves to user 0), `rpc_key_id`
/// is neither read nor reported: adding, changing or removing it leaves the
/// detailed parameters (or the refusal) as they were, the key id read is 0,
/// and the response names no key.
pub proof fn detailed_params_ignore_rpc_key_id_without_user(
    app_chain_id: u64,
    p: Map<Seq<char>, Seq<char>>,
    p2: Map<Seq<char>, Seq<char>>,
    now: Option<Timestamp>,
)
    requires
        agree_except(p, p2, "rpc_key_id"@),
    ensures
        spec_detailed_stats_params(0, app_chain_id, p, now) == spec_detailed_stats_params(
            0,
            app_chain_id,
            p2,
            now,
        ),
        spec_detailed_stats_params(0, app_chain_id, p, now) matches Ok(d) ==> {
            &&& d.rpc_key_id == 0
            &&& forall|i: int|
                0 <= i < detailed_response(
                    d.page,
                    d.chain_id,
                    d.query_start,
                    d.user_id,
                    d.rpc_key_id,
                    d.query_window_seconds,
                ).len() ==> (#[trigger] detailed_response(
                    d.page,
                    d.chain_id,
                    d.query_start,
                    d.user_id,
                    d.rpc_key_id,
                    d.query_window_seconds,
                )[i]).key != ResponseKey::RpcKeyId
        },
{
    lemma_other_keys_agree(p, p2);
    if let Ok(d) = spec_detailed_stats_params(0, app_chain_id, p, now) {
        let resp = detailed_response(
            d.page,
            d.chain_id,
            d.query_start,
            d.user_id,
            d.rpc_key_id,
            d.query_window_seconds,
        );
        assert forall|i: int| 0 <= i < resp.len() implies (#[trigger] resp[i]).key
            != ResponseKey::RpcKeyId by {
            if i >= 4 {
                assert(d.query_window_seconds != 0);
            }
        }
    }
}

/// Two reads of the detailed parameters for user 0 (each with its own reading
/// of the clock) from parameters that differ only in `rpc_key_id`: unless one
/// of them could not read the clock, they give the same refusal, or the same
/// user, key (0), chain, window and page; with `query_start` given they give
/// the same result outright.
pub proof fn detailed_reads_ignore_rpc_key_id_without_user(
    app_chain_id: u64,
    p: Map<Seq<char>, Seq<char>>,
    p2: Map<Seq<char>, Seq<char>>,
    r: Result<DetailedStatsParams, ParamError>,
    r2: Result<DetailedStatsParams, ParamError>,
)
    requires
        agree_except(p, p2, "rpc_key_id"@),
        exists|now: Option<Timestamp>|
            is_clock_result(now) && r == #[trigger] spec_detailed_stats_params(
                0,
                app_chain_id,
                p,
                now,
            ),
        exists|now: Option<Timestamp>|
            is_clock_result(now) && r2 == #[trigger] spec_detailed_stats_params(
                0,
                app_chain_id,
                p2,
                now,
            ),
    ensures
        param(p, "query_start"@) is Some ==> r2 == r,
        r != Err::<DetailedStatsParams, ParamError>(ParamError::ClockUnreadable) && r2 != Err::<
            DetailedStatsParams,
            ParamError,
        >(ParamError::ClockUnreadable) ==> {
            &&& r is Err ==> r2 == r
            &&& r is Ok <==> r2 is Ok
            &&& r matches Ok(a) ==> (r2 matches Ok(b) && a.user_id == b.user_id && a.rpc_key_id
                == 0 && b.rpc_key_id == 0 && a.chain_id == b.chain_id && a.query_window_seconds
                == b.query_window_seconds && a.page == b.page)
        },
{
    let now = choose|now: Option<Timestamp>|
        is_clock_result(now) && r == #[trigger] spec_detailed_stats_params(
            0,
            app_chain_id,
            p,
            now,
        );
    let now2 = choose|now: Option<Timestamp>|
        is_clock_result(now) && r2 == #[trigger] spec_detailed_stats_params(
            0,
            app_chain_id,
            p2,
            now,
        );
    detailed_params_ignore_rpc_key_id_without_user(app_chain_id, p, p2, now2);
    lemma_other_keys_agree(p, p2);
}

/// A `query_start` given as the decimal text of a timestamp that a date-time
/// exists for is read back as that timestamp, at its whole second, whatever
/// the clock gives.
pub proof fn given_query_start_round_trip(
    p: Map<Seq<char>, Seq<char>>,
    n: i64,
    now: Option<Timestamp>,
)
    requires
        timestamp_in_range(n),
        param(p, "query_start"@) == Some(decimal_text(n as int)),
    ensures
        spec_query_start_given(decimal_text(n as int)) == Ok::<Timestamp, ParamError>(
            Timestamp { secs: n, nanos: 0 },
        ),
        spec_query_start(p, now) == Ok::<Timestamp, ParamError>(Timestamp { secs: n, nanos: 0 }),
{
    i64_decimal_round_trip(n);
}

} // verus!
