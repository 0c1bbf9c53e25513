//! Plans of the database queries behind the stats endpoints: which columns are
//! selected, summed and grouped, which tables are joined, which conditions filter
//! the rows, and which fields the response reports beside the rows.
use vstd::prelude::*;
use crate::clock::Timestamp;

verus! {

/// The number of rows on one page of stats.
pub const PAGE_SIZE: u64 = 200;

/// A column of the accounting table, or of the rpc key table joined to it.
#[derive(Clone, Copy, Debug, PartialEq, Eq, Structural)]
pub enum StatsColumn {
    /// `rpc_accounting.id`
    AccountingId,
    /// `rpc_accounting.error_response`
    ErrorResponse,
    /// `rpc_accounting.method`
    Method,
    /// `rpc_accounting.archive_request`: whether the request needed an archive node.
    ArchiveRequest,
    /// `rpc_accounting.rpc_key_id`: the key that the row counts requests of.
    AccountingRpcKeyId,
    /// `rpc_accounting.chain_id`
    ChainId,
    /// `rpc_accounting.period_datetime`
    PeriodDatetime,
    /// `rpc_accounting.frontend_requests`
    FrontendRequests,
    /// `rpc_accounting.backend_requests`
    BackendRequests,
    /// `rpc_accounting.cache_misses`
    CacheMisses,
    /// `rpc_accounting.cache_hits`
    CacheHits,
    /// `rpc_accounting.sum_response_bytes`
    SumResponseBytes,
    /// `rpc_accounting.sum_response_millis`
    SumResponseMillis,
    /// `rpc_key.id`
    RpcKeyId,
    /// `rpc_key.user_id`
    RpcKeyUserId,
}

/// The name under which a summed column is reported.
#[derive(Clone, Copy, Debug, PartialEq, Eq, Structural)]
pub enum SumAlias {
    TotalRequests,
    TotalBackendRetries,
    TotalBackendRequests,
    TotalCacheMisses,
    TotalCacheHits,
    TotalResponseBytes,
    TotalErrorResponses,
    TotalResponseMillis,
}

/// The name of a `SumAlias`.
pub open spec fn sum_alias_name(x: SumAlias) -> Seq<char> {
    match x {
        SumAlias::TotalRequests => "total_requests"@,
        SumAlias::TotalBackendRetries => "total_backend_retries"@,
        SumAlias::TotalBackendRequests => "total_backend_requests"@,
        SumAlias::TotalCacheMisses => "total_cache_misses"@,
        SumAlias::TotalCacheHits => "total_cache_hits"@,
        SumAlias::TotalResponseBytes => "total_response_bytes"@,
        SumAlias::TotalErrorResponses => "total_error_responses"@,
        SumAlias::TotalResponseMillis => "total_response_millis"@,
    }
}

impl SumAlias {
    /// The column name in the result rows.
    pub fn name(&self) -> (n: &'static str)
        ensures
            n@ == sum_alias_name(*self),
    {
        match self {
            SumAlias::TotalRequests => "total_requests",
            SumAlias::TotalBackendRetries => "total_backend_retries",
            SumAlias::TotalBackendRequests => "total_backend_requests",
            SumAlias::TotalCacheMisses => "total_cache_misses",
            SumAlias::TotalCacheHits => "total_cache_hits",
            SumAlias::TotalResponseBytes => "total_response_bytes",
            SumAlias::TotalErrorResponses => "total_error_responses",
            SumAlias::TotalResponseMillis => "total_response_millis",
        }
    }
}

/// The name under which the time window of a row is reported.
#[derive(Clone, Copy, Debug, PartialEq, Eq, Structural)]
pub enum WindowAlias {
    QueryWindow,
    QueryWindowSeconds,
}

/// The name of a `WindowAlias`.
pub open spec fn window_alias_name(x: WindowAlias) -> Seq<char> {
    match x {
        WindowAlias::QueryWindow => "query_window"@,
        WindowAlias::QueryWindowSeconds => "query_window_seconds"@,
    }
}

impl WindowAlias {
    /// The column name in the result rows.
    pub fn name(&self) -> (n: &'static str)
        ensures
            n@ == window_alias_name(*self),
    {
        match self {
            WindowAlias::QueryWindow => "query_window",
            WindowAlias::QueryWindowSeconds => "query_window_seconds",
        }
    }
}

/// One step in building the select statement, in the order the steps are taken.
#[derive(Clone, Copy, Debug, PartialEq, Eq, Structural)]
pub enum QueryStep {
    /// Select only the columns named afterwards.
    SelectOnly,
    /// Select a column.
    Column(StatsColumn),
    /// Group the rows by a column.
    GroupBy(StatsColumn),
    /// Select the sum of a column under a name.
    SumAs(StatsColumn, SumAlias),
    /// Order ascending by the smallest value of a column in each group.
    OrderByMinAsc(StatsColumn),
    /// Inner join the rpc key of each accounting row.
    JoinRpcKey,
    /// Inner join the user of each rpc key.
    JoinUser,
    /// Select `FLOOR(UNIX_TIMESTAMP(period_datetime) / w) * w` for the given
    /// window width `w`, under a name.
    WindowColumn(u64, WindowAlias),
    /// Group the rows by the named window column.
    GroupByWindow(WindowAlias),
    /// Order ascending by the named window column.
    OrderByWindowAsc(WindowAlias),
}

/// A condition that every counted row meets.
#[derive(Clone, Copy, Debug, PartialEq, Eq, Structural)]
pub enum StatsCondition {
    /// The row's period starts at or after this time.
    PeriodAtLeast(Timestamp),
    /// The row is for this chain.
    ChainIdIs(u64),
    /// The row's rpc key belongs to this user.
    UserIdIs(u64),
}

/// A field reported beside the rows.
#[derive(Clone, Copy, Debug, PartialEq, Eq, Structural)]
pub enum ResponseKey {
    Page,
    PageSize,
    QueryWindowSeconds,
    QueryStart,
    ChainId,
    RpcKeyId,
}

/// The name of a `ResponseKey`.
pub open spec fn response_key_name(x: ResponseKey) -> Seq<char> {
    match x {
        ResponseKey::Page => "page"@,
        ResponseKey::PageSize => "page_size"@,
        ResponseKey::QueryWindowSeconds => "query_window_seconds"@,
        ResponseKey::QueryStart => "query_start"@,
        ResponseKey::ChainId => "chain_id"@,
        ResponseKey::RpcKeyId => "rpc_key_id"@,
    }
}

impl ResponseKey {
    /// The field's name in the response.
    pub fn name(&self) -> (n: &'static str)
        ensures
            n@ == response_key_name(*self),
    {
        match self {
            ResponseKey::Page => "page",
            ResponseKey::PageSize => "page_size",
            ResponseKey::QueryWindowSeconds => "query_window_seconds",
            ResponseKey::QueryStart => "query_start",
            ResponseKey::ChainId => "chain_id",
            ResponseKey::RpcKeyId => "rpc_key_id",
        }
    }
}

/// A field reported beside the rows, with its value.
#[derive(Clone, Copy, Debug, PartialEq, Eq, Structural)]
pub struct ResponseEntry {
    pub key: ResponseKey,
    pub value: u64,
}

/// The field under which the rows are reported.
#[derive(Clone, Copy, Debug, PartialEq, Eq, Structural)]
pub enum RowsKey {
    Aggregate,
    DetailedAggregate,
}

/// The name of a `RowsKey`.
pub open spec fn rows_key_name(x: RowsKey) -> Seq<char> {
    match x {
        RowsKey::Aggregate => "aggregate"@,
        RowsKey::DetailedAggregate => "detailed_aggregate"@,
    }
}

impl RowsKey {
    /// The field's name in the response.
    pub fn name(&self) -> (n: &'static str)
        ensures
            n@ == rows_key_name(*self),
    {
        match self {
            RowsKey::Aggregate => "aggregate",
            RowsKey::DetailedAggregate => "detailed_aggregate",
        }
    }
}

/// A planned stats query and the response around its rows.
pub struct StatsQueryPlan {
    /// The steps that build the select statement, in order.
    pub steps: Vec<QueryStep>,
    /// The conditions that filter the rows, in order.
    pub conditions: Vec<StatsCondition>,
    /// The fields reported beside the rows, in the order they are added.
    pub response: Vec<ResponseEntry>,
    /// The page of rows to fetch.
    pub page: u64,
    /// The number of rows on a page.
    pub page_size: u64,
    /// The field that the rows are reported under.
    pub rows_key: RowsKey,
}

pub open spec fn entry(key: ResponseKey, value: u64) -> ResponseEntry {
    ResponseEntry { key, value }
}

/// `s` when `b` holds, nothing otherwise.
pub open spec fn only_if<A>(b: bool, s: Seq<A>) -> Seq<A> {
    if b {
        s
    } else {
        Seq::empty()
    }
}

/// The seven sums that both stats queries select.
pub open spec fn sum_steps(backend_alias: SumAlias) -> Seq<QueryStep> {
    seq![
        QueryStep::SumAs(StatsColumn::FrontendRequests, SumAlias::TotalRequests),
        QueryStep::SumAs(StatsColumn::BackendRequests, backend_alias),
        QueryStep::SumAs(StatsColumn::CacheMisses, SumAlias::TotalCacheMisses),
        QueryStep::SumAs(StatsColumn::CacheHits, SumAlias::TotalCacheHits),
        QueryStep::SumAs(StatsColumn::SumResponseBytes, SumAlias::TotalResponseBytes),
        QueryStep::SumAs(StatsColumn::ErrorResponse, SumAlias::TotalErrorResponses),
        QueryStep::SumAs(StatsColumn::SumResponseMillis, SumAlias::TotalResponseMillis),
    ]
}

/// The timestamp as the response reports it: its bits read as an unsigned number.
pub open spec fn reported_timestamp(t: i64) -> u64 {
    if t >= 0 {
        t as u64
    } else {
        (t + 0x1_0000_0000_0000_0000) as u64
    }
}

fn push_sums(steps: &mut Vec<QueryStep>, backend_alias: SumAlias)
    ensures
        final(steps)@ == old(steps)@ + sum_steps(backend_alias),
{
    steps.push(QueryStep::SumAs(StatsColumn::FrontendRequests, SumAlias::TotalRequests));
    steps.push(QueryStep::SumAs(StatsColumn::BackendRequests, backend_alias));
    steps.push(QueryStep::SumAs(StatsColumn::CacheMisses, SumAlias::TotalCacheMisses));
    steps.push(QueryStep::SumAs(StatsColumn::CacheHits, SumAlias::TotalCacheHits));
    steps.push(QueryStep::SumAs(StatsColumn::SumResponseBytes, SumAlias::TotalResponseBytes));
    steps.push(QueryStep::SumAs(StatsColumn::ErrorResponse, SumAlias::TotalErrorResponses));
    steps.push(QueryStep::SumAs(StatsColumn::SumResponseMillis, SumAlias::TotalResponseMillis));
    assert(final(steps)@ =~= old(steps)@ + sum_steps(backend_alias));
}

fn report_timestamp(t: i64) -> (r: u64)
    ensures
        r == reported_timestamp(t),
{
    if t >= 0 {
        t as u64
    } else {
        let magnitude: u64 = if t == i64::MIN {
            0x8000_0000_0000_0000u64
        } else {
            (-t) as u64
        };
        u64::MAX - magnitude + 1
    }
}

// ---------------------------------------------------------------------------
// Aggregate stats: totals over the period, optionally per time window.

/// The steps of the aggregate query.
pub open spec fn aggregate_steps(window: u64, user_id: u64) -> Seq<QueryStep> {
    seq![QueryStep::SelectOnly] + sum_steps(SumAlias::TotalBackendRetries) + only_if(
        window != 0,
        seq![
            QueryStep::WindowColumn(window, WindowAlias::QueryWindow),
            QueryStep::GroupByWindow(WindowAlias::QueryWindow),
            QueryStep::OrderByWindowAsc(WindowAlias::QueryWindow),
        ],
    ) + only_if(
        user_id != 0,
        seq![
            QueryStep::JoinRpcKey,
            QueryStep::Column(StatsColumn::AccountingId),
            QueryStep::Column(StatsColumn::RpcKeyId),
            QueryStep::JoinUser,
            QueryStep::Column(StatsColumn::RpcKeyUserId),
        ],
    )
}

/// A window width other than 0 splits the aggregate totals into windows of
/// that width, in time order, for every user and for everyone alike; with no
/// width the totals are not split.
pub proof fn aggregate_windows_do_not_depend_on_the_user(window: u64, user_id: u64)
    ensures
        window != 0 ==> {
            &&& aggregate_steps(window, user_id).contains(
                QueryStep::WindowColumn(window, WindowAlias::QueryWindow),
            )
            &&& aggregate_steps(window, user_id).contains(
                QueryStep::GroupByWindow(WindowAlias::QueryWindow),
            )
            &&& aggregate_steps(window, user_id).contains(
                QueryStep::OrderByWindowAsc(WindowAlias::QueryWindow),
            )
        },
        window == 0 ==> !aggregate_steps(window, user_id).contains(
            QueryStep::GroupByWindow(WindowAlias::QueryWindow),
        ),
{
    let s = aggregate_steps(window, user_id);
    let base = seq![QueryStep::SelectOnly] + sum_steps(SumAlias::TotalBackendRetries);
    if window != 0 {
        assert(s[base.len() as int] == QueryStep::WindowColumn(window, WindowAlias::QueryWindow));
        assert(s[base.len() as int + 1] == QueryStep::GroupByWindow(WindowAlias::QueryWindow));
        assert(s[base.len() as int + 2] == QueryStep::OrderByWindowAsc(WindowAlias::QueryWindow));
    } else {
        assert forall|i: int| 0 <= i < s.len() implies s[i] != QueryStep::GroupByWindow(
            WindowAlias::QueryWindow,
        ) by {
            if i >= base.len() {
                assert(user_id != 0);
            }
        }
    }
}

/// The conditions of the aggregate query.
pub open spec fn aggregate_conditions(query_start: Timestamp, chain_id: u64, user_id: u64) -> Seq<
    StatsCondition,
> {
    seq![StatsCondition::PeriodAtLeast(query_start)] + only_if(
        chain_id != 0,
        seq![StatsCondition::ChainIdIs(chain_id)],
    ) + only_if(user_id != 0, seq![StatsCondition::UserIdIs(user_id)])
}

/// The fields reported beside the aggregate rows.
pub open spec fn aggregate_response(page: u64, window: u64, query_start: Timestamp, chain_id: u64) -> Seq<
    ResponseEntry,
> {
    seq![entry(ResponseKey::Page, page), entry(ResponseKey::PageSize, PAGE_SIZE)] + only_if(
        window != 0,
        seq![entry(ResponseKey::QueryWindowSeconds, window)],
    ) + seq![entry(ResponseKey::QueryStart, reported_timestamp(query_start.secs))] + only_if(
        chain_id != 0,
        seq![entry(ResponseKey::ChainId, chain_id)],
    )
}

/// Plans the aggregate stats query: the totals of every accounting row since
/// `query_start`, for one chain when `chain_id` is not 0 and one user when
/// `user_id` is not 0, grouped by time windows when `window` is not 0.
pub fn aggregate_stats_plan(page: u64, window: u64, query_start: Timestamp, chain_id: u64, user_id: u64) -> (plan: StatsQueryPlan)
    ensures
        plan.steps@ == aggregate_steps(window, user_id),
        plan.conditions@ == aggregate_conditions(query_start, chain_id, user_id),
        plan.response@ == aggregate_response(page, window, query_start, chain_id),
        plan.page == page,
        plan.page_size == PAGE_SIZE,
        plan.rows_key == RowsKey::Aggregate,
{
    let mut response: Vec<ResponseEntry> = Vec::new();
    response.push(ResponseEntry { key: ResponseKey::Page, value: page });
    response.push(ResponseEntry { key: ResponseKey::PageSize, value: PAGE_SIZE });

    let mut steps: Vec<QueryStep> = Vec::new();
    steps.push(QueryStep::SelectOnly);
    push_sums(&mut steps, SumAlias::TotalBackendRetries);

    let ghost steps_before_window = steps@;
    let ghost response_before_window = response@;
    if window != 0 {
        steps.push(QueryStep::WindowColumn(window, WindowAlias::QueryWindow));
        steps.push(QueryStep::GroupByWindow(WindowAlias::QueryWindow));
        steps.push(QueryStep::OrderByWindowAsc(WindowAlias::QueryWindow));
        response.push(ResponseEntry { key: ResponseKey::QueryWindowSeconds, value: window });
    }
    assert(steps@ =~= steps_before_window + only_if(
        window != 0,
        seq![
            QueryStep::WindowColumn(window, WindowAlias::QueryWindow),
            QueryStep::GroupByWindow(WindowAlias::QueryWindow),
            QueryStep::OrderByWindowAsc(WindowAlias::QueryWindow),
        ],
    ));
    assert(response@ =~= response_before_window + only_if(
        window != 0,
        seq![entry(ResponseKey::QueryWindowSeconds, window)],
    ));

    response.push(ResponseEntry { key: ResponseKey::QueryStart, value: report_timestamp(query_start.secs) });
    let mut conditions: Vec<StatsCondition> = Vec::new();
    conditions.push(StatsCondition::PeriodAtLeast(query_start));

    let ghost response_before_chain = response@;
    if chain_id != 0 {
        conditions.push(StatsCondition::ChainIdIs(chain_id));
        response.push(ResponseEntry { key: ResponseKey::ChainId, value: chain_id });
    }
    assert(response@ =~= response_before_chain + only_if(
        chain_id != 0,
        seq![entry(ResponseKey::ChainId, chain_id)],
    ));

    let ghost steps_before_user = steps@;
    if user_id != 0 {
        steps.push(QueryStep::JoinRpcKey);
        steps.push(QueryStep::Column(StatsColumn::AccountingId));
        steps.push(QueryStep::Column(StatsColumn::RpcKeyId));
        steps.push(QueryStep::JoinUser);
        steps.push(QueryStep::Column(StatsColumn::RpcKeyUserId));
        conditions.push(StatsCondition::UserIdIs(user_id));
    }
    assert(steps@ =~= steps_before_user + only_if(
        user_id != 0,
        seq![
            QueryStep::JoinRpcKey,
            QueryStep::Column(StatsColumn::AccountingId),
            QueryStep::Column(StatsColumn::RpcKeyId),
            QueryStep::JoinUser,
            QueryStep::Column(StatsColumn::RpcKeyUserId),
        ],
    ));
    assert(steps@ =~= aggregate_steps(window, user_id));
    assert(conditions@ =~= aggregate_conditions(query_start, chain_id, user_id));
    assert(response@ =~= aggregate_response(page, window, query_start, chain_id));
    StatsQueryPlan {
        steps,
        conditions,
        response,
        page,
        page_size: PAGE_SIZE,
        rows_key: RowsKey::Aggregate,
    }
}

// ---------------------------------------------------------------------------
// Detailed stats: totals grouped by rpc key, error response, method and archive flag.

/// The steps of the detailed query.
pub open spec fn detailed_steps(chain_id: u64, user_id: u64, rpc_key_id: u64, window: u64) -> Seq<
    QueryStep,
> {
    seq![
        QueryStep::SelectOnly,
        QueryStep::Column(StatsColumn::AccountingRpcKeyId),
        QueryStep::GroupBy(StatsColumn::AccountingRpcKeyId),
        QueryStep::Column(StatsColumn::ErrorResponse),
        QueryStep::GroupBy(StatsColumn::ErrorResponse),
        QueryStep::Column(StatsColumn::Method),
        QueryStep::GroupBy(StatsColumn::Method),
        QueryStep::Column(StatsColumn::ArchiveRequest),
        QueryStep::GroupBy(StatsColumn::ArchiveRequest),
    ] + sum_steps(SumAlias::TotalBackendRequests) + seq![
        QueryStep::OrderByMinAsc(StatsColumn::PeriodDatetime),
    ] + only_if(
        chain_id == 0,
        seq![QueryStep::Column(StatsColumn::ChainId), QueryStep::GroupBy(StatsColumn::ChainId)],
    ) + only_if(
        user_id != 0 || rpc_key_id != 0,
        seq![QueryStep::JoinRpcKey, QueryStep::Column(StatsColumn::RpcKeyId)],
    ) + only_if(
        user_id != 0,
        seq![
            QueryStep::JoinRpcKey,
            QueryStep::Column(StatsColumn::RpcKeyId),
            QueryStep::GroupBy(StatsColumn::RpcKeyId),
        ] + if rpc_key_id == 0 {
            seq![
                QueryStep::Column(StatsColumn::RpcKeyUserId),
                QueryStep::GroupBy(StatsColumn::RpcKeyUserId),
            ]
        } else {
            seq![QueryStep::Column(StatsColumn::RpcKeyId), QueryStep::GroupBy(StatsColumn::RpcKeyId)]
        },
    ) + only_if(
        window != 0,
        seq![
            QueryStep::WindowColumn(window, WindowAlias::QueryWindowSeconds),
            QueryStep::GroupByWindow(WindowAlias::QueryWindowSeconds),
        ],
    )
}

/// Every detailed plan groups its rows by the key that the requests were made
/// with, by error response, by method and by whether an archive node was
/// needed, whoever and whatever is asked for.
pub proof fn detailed_rows_group_by_key_error_and_method(
    chain_id: u64,
    user_id: u64,
    rpc_key_id: u64,
    window: u64,
)
    ensures
        detailed_steps(chain_id, user_id, rpc_key_id, window).contains(
            QueryStep::GroupBy(StatsColumn::AccountingRpcKeyId),
        ),
        detailed_steps(chain_id, user_id, rpc_key_id, window).contains(
            QueryStep::GroupBy(StatsColumn::ErrorResponse),
        ),
        detailed_steps(chain_id, user_id, rpc_key_id, window).contains(
            QueryStep::GroupBy(StatsColumn::Method),
        ),
        detailed_steps(chain_id, user_id, rpc_key_id, window).contains(
            QueryStep::GroupBy(StatsColumn::ArchiveRequest),
        ),
{
    let s = detailed_steps(chain_id, user_id, rpc_key_id, window);
    assert(s[2] == QueryStep::GroupBy(StatsColumn::AccountingRpcKeyId));
    assert(s[4] == QueryStep::GroupBy(StatsColumn::ErrorResponse));
    assert(s[6] == QueryStep::GroupBy(StatsColumn::Method));
    assert(s[8] == QueryStep::GroupBy(StatsColumn::ArchiveRequest));
}

/// Detailed rows are grouped by chain exactly when no chain is named, into
/// windows of the asked width exactly when one is asked for, and joined with
/// the rpc keys whenever a user is named.
pub proof fn detailed_groupings_follow_the_request(
    chain_id: u64,
    user_id: u64,
    rpc_key_id: u64,
    window: u64,
)
    ensures
        chain_id == 0 <==> detailed_steps(chain_id, user_id, rpc_key_id, window).contains(
            QueryStep::GroupBy(StatsColumn::ChainId),
        ),
        window != 0 ==> detailed_steps(chain_id, user_id, rpc_key_id, window).contains(
            QueryStep::WindowColumn(window, WindowAlias::QueryWindowSeconds),
        ),
        window != 0 <==> detailed_steps(chain_id, user_id, rpc_key_id, window).contains(
            QueryStep::GroupByWindow(WindowAlias::QueryWindowSeconds),
        ),
        user_id != 0 ==> detailed_steps(chain_id, user_id, rpc_key_id, window).contains(
            QueryStep::JoinRpcKey,
        ),
{
    let s = detailed_steps(chain_id, user_id, rpc_key_id, window);
    let prefix = seq![
        QueryStep::SelectOnly,
        QueryStep::Column(StatsColumn::AccountingRpcKeyId),
        QueryStep::GroupBy(StatsColumn::AccountingRpcKeyId),
        QueryStep::Column(StatsColumn::ErrorResponse),
        QueryStep::GroupBy(StatsColumn::ErrorResponse),
        QueryStep::Column(StatsColumn::Method),
        QueryStep::GroupBy(StatsColumn::Method),
        QueryStep::Column(StatsColumn::ArchiveRequest),
        QueryStep::GroupBy(StatsColumn::ArchiveRequest),
    ] + sum_steps(SumAlias::TotalBackendRequests) + seq![
        QueryStep::OrderByMinAsc(StatsColumn::PeriodDatetime),
    ];
    let chain_part = only_if(
        chain_id == 0,
        seq![QueryStep::Column(StatsColumn::ChainId), QueryStep::GroupBy(StatsColumn::ChainId)],
    );
    let join_part = only_if(
        user_id != 0 || rpc_key_id != 0,
        seq![QueryStep::JoinRpcKey, QueryStep::Column(StatsColumn::RpcKeyId)],
    );
    let user_part = only_if(
        user_id != 0,
        seq![
            QueryStep::JoinRpcKey,
            QueryStep::Column(StatsColumn::RpcKeyId),
            QueryStep::GroupBy(StatsColumn::RpcKeyId),
        ] + if rpc_key_id == 0 {
            seq![
                QueryStep::Column(StatsColumn::RpcKeyUserId),
                QueryStep::GroupBy(StatsColumn::RpcKeyUserId),
            ]
        } else {
            seq![QueryStep::Column(StatsColumn::RpcKeyId), QueryStep::GroupBy(StatsColumn::RpcKeyId)]
        },
    );
    let window_part = only_if(
        window != 0,
        seq![
            QueryStep::WindowColumn(window, WindowAlias::QueryWindowSeconds),
            QueryStep::GroupByWindow(WindowAlias::QueryWindowSeconds),
        ],
    );
    assert(s =~= prefix + chain_part + join_part + user_part + window_part);
    let n0 = prefix.len() as int;
    let n1 = n0 + chain_part.len();
    let n2 = n1 + join_part.len();
    let n3 = n2 + user_part.len();
    assert forall|i: int| 0 <= i < s.len() && s[i] == QueryStep::GroupBy(StatsColumn::ChainId)
        implies chain_id == 0 by {
        if i >= n0 && i < n1 {
        } else if i >= n1 && i < n3 {
            if i >= n2 {
                assert(user_part[i - n2] == s[i]);
            }
        }
    }
    assert forall|i: int| 0 <= i < s.len() && s[i] == QueryStep::GroupByWindow(
        WindowAlias::QueryWindowSeconds,
    ) implies window != 0 by {
        if i >= n2 && i < n3 {
            assert(user_part[i - n2] == s[i]);
        }
    }
    if chain_id == 0 {
        assert(s[n0 + 1] == QueryStep::GroupBy(StatsColumn::ChainId));
    }
    if window != 0 {
        assert(s[n3] == QueryStep::WindowColumn(window, WindowAlias::QueryWindowSeconds));
        assert(s[n3 + 1] == QueryStep::GroupByWindow(WindowAlias::QueryWindowSeconds));
    }
    if user_id != 0 {
        assert(s[n1] == QueryStep::JoinRpcKey);
    }
}

/// The conditions of the detailed query.
pub open spec fn detailed_conditions(query_start: Timestamp, chain_id: u64, user_id: u64, rpc_key_id: u64) -> Seq<
    StatsCondition,
> {
    seq![StatsCondition::PeriodAtLeast(query_start)] + only_if(
        chain_id != 0,
        seq![StatsCondition::ChainIdIs(chain_id)],
    ) + only_if(user_id != 0 || rpc_key_id != 0, seq![StatsCondition::UserIdIs(user_id)])
        + only_if(user_id != 0, seq![StatsCondition::UserIdIs(user_id)])
}

/// When a user is named, the detailed plan counts only rows of that user's
/// keys, whatever key is named; no condition names another user.
pub proof fn detailed_rows_belong_to_the_named_user(
    query_start: Timestamp,
    chain_id: u64,
    user_id: u64,
    rpc_key_id: u64,
)
    ensures
        user_id != 0 ==> detailed_conditions(query_start, chain_id, user_id, rpc_key_id).contains(
            StatsCondition::UserIdIs(user_id),
        ),
        forall|u: u64|
            #[trigger] detailed_conditions(query_start, chain_id, user_id, rpc_key_id).contains(
                StatsCondition::UserIdIs(u),
            ) ==> u == user_id,
        detailed_conditions(query_start, chain_id, user_id, rpc_key_id)[0]
            == StatsCondition::PeriodAtLeast(query_start),
        chain_id != 0 ==> detailed_conditions(query_start, chain_id, user_id, rpc_key_id).contains(
            StatsCondition::ChainIdIs(chain_id),
        ),
{
    let c = detailed_conditions(query_start, chain_id, user_id, rpc_key_id);
    let head = seq![StatsCondition::PeriodAtLeast(query_start)] + only_if(
        chain_id != 0,
        seq![StatsCondition::ChainIdIs(chain_id)],
    );
    if user_id != 0 {
        assert(c[head.len() as int] == StatsCondition::UserIdIs(user_id));
    }
    if chain_id != 0 {
        assert(c[1] == StatsCondition::ChainIdIs(chain_id));
    }
    assert forall|u: u64| #[trigger] c.contains(StatsCondition::UserIdIs(u)) implies u == user_id by {
        let i = choose|i: int| 0 <= i < c.len() && c[i] == StatsCondition::UserIdIs(u);
        assert(i >= head.len());
    }
}

/// The fields reported beside the detailed rows.
pub open spec fn detailed_response(
    page: u64,
    chain_id: u64,
    query_start: Timestamp,
    user_id: u64,
    rpc_key_id: u64,
    window: u64,
) -> Seq<ResponseEntry> {
    seq![
        entry(ResponseKey::Page, page),
        entry(ResponseKey::PageSize, PAGE_SIZE),
        entry(ResponseKey::ChainId, chain_id),
        entry(ResponseKey::QueryStart, reported_timestamp(query_start.secs)),
    ] + only_if(user_id != 0 && rpc_key_id != 0, seq![entry(ResponseKey::RpcKeyId, rpc_key_id)])
        + only_if(window != 0, seq![entry(ResponseKey::QueryWindowSeconds, window)])
}

/// Plans the detailed stats query: totals since `query_start` grouped by rpc
/// key, error response, method and archive flag, and by chain when `chain_id` is 0 (else
/// only that chain counts); for one user when `user_id` is not 0, with the key
/// joined and grouped by that user or by the key `rpc_key_id`; and by time
/// windows when `window` is not 0.
#[verifier::rlimit(60)]
pub fn detailed_stats_plan(
    page: u64,
    chain_id: u64,
    query_start: Timestamp,
    user_id: u64,
    rpc_key_id: u64,
    window: u64,
) -> (plan: StatsQueryPlan)
    ensures
        plan.steps@ == detailed_steps(chain_id, user_id, rpc_key_id, window),
        plan.conditions@ == detailed_conditions(query_start, chain_id, user_id, rpc_key_id),
        plan.response@ == detailed_response(page, chain_id, query_start, user_id, rpc_key_id, window),
        plan.page == page,
        plan.page_size == PAGE_SIZE,
        plan.rows_key == RowsKey::DetailedAggregate,
{
    let mut response: Vec<ResponseEntry> = Vec::new();
    response.push(ResponseEntry { key: ResponseKey::Page, value: page });
    response.push(ResponseEntry { key: ResponseKey::PageSize, value: PAGE_SIZE });
    response.push(ResponseEntry { key: ResponseKey::ChainId, value: chain_id });
    response.push(ResponseEntry { key: ResponseKey::QueryStart, value: report_timestamp(query_start.secs) });

    let mut steps: Vec<QueryStep> = Vec::new();
    steps.push(QueryStep::SelectOnly);
    steps.push(QueryStep::Column(StatsColumn::AccountingRpcKeyId));
    steps.push(QueryStep::GroupBy(StatsColumn::AccountingRpcKeyId));
    steps.push(QueryStep::Column(StatsColumn::ErrorResponse));
    steps.push(QueryStep::GroupBy(StatsColumn::ErrorResponse));
    steps.push(QueryStep::Column(StatsColumn::Method));
    steps.push(QueryStep::GroupBy(StatsColumn::Method));
    steps.push(QueryStep::Column(StatsColumn::ArchiveRequest));
    steps.push(QueryStep::GroupBy(StatsColumn::ArchiveRequest));
    push_sums(&mut steps, SumAlias::TotalBackendRequests);
    steps.push(QueryStep::OrderByMinAsc(StatsColumn::PeriodDatetime));

    let mut conditions: Vec<StatsCondition> = Vec::new();
    conditions.push(StatsCondition::PeriodAtLeast(query_start));

    let ghost s0 = steps@;
    let ghost c0 = conditions@;
    if chain_id == 0 {
        steps.push(QueryStep::Column(StatsColumn::ChainId));
        steps.push(QueryStep::GroupBy(StatsColumn::ChainId));
    } else {
        conditions.push(StatsCondition::ChainIdIs(chain_id));
    }
    assert(steps@ =~= s0 + only_if(
        chain_id == 0,
        seq![QueryStep::Column(StatsColumn::ChainId), QueryStep::GroupBy(StatsColumn::ChainId)],
    ));
    assert(conditions@ =~= c0 + only_if(chain_id != 0, seq![StatsCondition::ChainIdIs(chain_id)]));

    let ghost s1 = steps@;
    let ghost c1 = conditions@;
    if user_id != 0 || rpc_key_id != 0 {
        steps.push(QueryStep::JoinRpcKey);
        steps.push(QueryStep::Column(StatsColumn::RpcKeyId));
        conditions.push(StatsCondition::UserIdIs(user_id));
    }
    assert(steps@ =~= s1 + only_if(
        user_id != 0 || rpc_key_id != 0,
        seq![QueryStep::JoinRpcKey, QueryStep::Column(StatsColumn::RpcKeyId)],
    ));
    assert(conditions@ =~= c1 + only_if(
        user_id != 0 || rpc_key_id != 0,
        seq![StatsCondition::UserIdIs(user_id)],
    ));

    let ghost s2 = steps@;
    let ghost c2 = conditions@;
    let ghost r2 = response@;
    if user_id != 0 {
        steps.push(QueryStep::JoinRpcKey);
        steps.push(QueryStep::Column(StatsColumn::RpcKeyId));
        steps.push(QueryStep::GroupBy(StatsColumn::RpcKeyId));
        conditions.push(StatsCondition::UserIdIs(user_id));
        if rpc_key_id == 0 {
            steps.push(QueryStep::Column(StatsColumn::RpcKeyUserId));
            steps.push(QueryStep::GroupBy(StatsColumn::RpcKeyUserId));
        } else {
            response.push(ResponseEntry { key: ResponseKey::RpcKeyId, value: rpc_key_id });
            steps.push(QueryStep::Column(StatsColumn::RpcKeyId));
            steps.push(QueryStep::GroupBy(StatsColumn::RpcKeyId));
        }
    }
    assert(steps@ =~= s2 + only_if(
        user_id != 0,
        seq![
            QueryStep::JoinRpcKey,
            QueryStep::Column(StatsColumn::RpcKeyId),
            QueryStep::GroupBy(StatsColumn::RpcKeyId),
        ] + if rpc_key_id == 0 {
            seq![
                QueryStep::Column(StatsColumn::RpcKeyUserId),
                QueryStep::GroupBy(StatsColumn::RpcKeyUserId),
            ]
        } else {
            seq![QueryStep::Column(StatsColumn::RpcKeyId), QueryStep::GroupBy(StatsColumn::RpcKeyId)]
        },
    ));
    assert(conditions@ =~= c2 + only_if(user_id != 0, seq![StatsCondition::UserIdIs(user_id)]));
    assert(response@ =~= r2 + only_if(
        user_id != 0 && rpc_key_id != 0,
        seq![entry(ResponseKey::RpcKeyId, rpc_key_id)],
    ));

    let ghost s3 = steps@;
    let ghost r3 = response@;
    if window != 0 {
        response.push(ResponseEntry { key: ResponseKey::QueryWindowSeconds, value: window });
        steps.push(QueryStep::WindowColumn(window, WindowAlias::QueryWindowSeconds));
        steps.push(QueryStep::GroupByWindow(WindowAlias::QueryWindowSeconds));
    }
    assert(steps@ =~= s3 + only_if(
        window != 0,
        seq![
            QueryStep::WindowColumn(window, WindowAlias::QueryWindowSeconds),
            QueryStep::GroupByWindow(WindowAlias::QueryWindowSeconds),
        ],
    ));
    assert(response@ =~= r3 + only_if(window != 0, seq![entry(ResponseKey::QueryWindowSeconds, window)]));

    assert(steps@ =~= detailed_steps(chain_id, user_id, rpc_key_id, window));
    assert(conditions@ =~= detailed_conditions(query_start, chain_id, user_id, rpc_key_id));
    assert(response@ =~= detailed_response(page, chain_id, query_start, user_id, rpc_key_id, window));
    StatsQueryPlan {
        steps,
        conditions,
        response,
        page,
        page_size: PAGE_SIZE,
        rows_key: RowsKey::DetailedAggregate,
    }
}

/// No two fields of a response share a name.
pub open spec fn keys_distinct(r: Seq<ResponseEntry>) -> bool {
    forall|i: int, j: int| 0 <= i < j < r.len() ==> #[trigger] r[i].key != #[trigger] r[j].key
}

/// Whether a response reports `key` at all.
pub open spec fn reports_key(response: Seq<ResponseEntry>, key: ResponseKey) -> bool {
    exists|i: int| 0 <= i < response.len() && #[trigger] response[i].key == key
}

/// The aggregate query counts rows since the start, of the named chain only
/// when one is named and of the named user only when one is named, and
/// filters on nothing else.
pub proof fn aggregate_filters_follow_the_request(
    query_start: Timestamp,
    chain_id: u64,
    user_id: u64,
)
    ensures
        aggregate_conditions(query_start, chain_id, user_id)[0] == StatsCondition::PeriodAtLeast(
            query_start,
        ),
        forall|c: StatsCondition| #[trigger]
            aggregate_conditions(query_start, chain_id, user_id).contains(c) ==> (c
                == StatsCondition::PeriodAtLeast(query_start) || (chain_id != 0 && c
                == StatsCondition::ChainIdIs(chain_id)) || (user_id != 0 && c
                == StatsCondition::UserIdIs(user_id))),
        chain_id != 0 ==> aggregate_conditions(query_start, chain_id, user_id).contains(
            StatsCondition::ChainIdIs(chain_id),
        ),
        user_id != 0 ==> aggregate_conditions(query_start, chain_id, user_id).contains(
            StatsCondition::UserIdIs(user_id),
        ),
{
    let c = aggregate_conditions(query_start, chain_id, user_id);
    let head = seq![StatsCondition::PeriodAtLeast(query_start)] + only_if(
        chain_id != 0,
        seq![StatsCondition::ChainIdIs(chain_id)],
    );
    if chain_id != 0 {
        assert(c[1] == StatsCondition::ChainIdIs(chain_id));
    }
    if user_id != 0 {
        assert(c[head.len() as int] == StatsCondition::UserIdIs(user_id));
    }
    assert forall|x: StatsCondition| #[trigger] c.contains(x) implies (x
        == StatsCondition::PeriodAtLeast(query_start) || (chain_id != 0 && x
        == StatsCondition::ChainIdIs(chain_id)) || (user_id != 0 && x
        == StatsCondition::UserIdIs(user_id))) by {
        let i = choose|i: int| 0 <= i < c.len() && c[i] == x;
        if i >= head.len() {
            assert(user_id != 0);
        }
    }
}

/// The aggregate response reports the page, the page size and the start, the
/// window width exactly when one is asked for, and the chain exactly when one
/// is named, each with the value asked for.
pub proof fn aggregate_response_reports_the_request(
    page: u64,
    window: u64,
    query_start: Timestamp,
    chain_id: u64,
)
    ensures
        aggregate_response(page, window, query_start, chain_id).contains(
            entry(ResponseKey::Page, page),
        ),
        aggregate_response(page, window, query_start, chain_id).contains(
            entry(ResponseKey::PageSize, PAGE_SIZE),
        ),
        aggregate_response(page, window, query_start, chain_id).contains(
            entry(ResponseKey::QueryStart, reported_timestamp(query_start.secs)),
        ),
        window != 0 ==> aggregate_response(page, window, query_start, chain_id).contains(
            entry(ResponseKey::QueryWindowSeconds, window),
        ),
        window == 0 ==> !reports_key(
            aggregate_response(page, window, query_start, chain_id),
            ResponseKey::QueryWindowSeconds,
        ),
        chain_id != 0 ==> aggregate_response(page, window, query_start, chain_id).contains(
            entry(ResponseKey::ChainId, chain_id),
        ),
        chain_id == 0 ==> !reports_key(
            aggregate_response(page, window, query_start, chain_id),
            ResponseKey::ChainId,
        ),
{
    let r = aggregate_response(page, window, query_start, chain_id);
    let w: int = if window != 0 { 1 } else { 0 };
    assert(r[0] == entry(ResponseKey::Page, page));
    assert(r[1] == entry(ResponseKey::PageSize, PAGE_SIZE));
    assert(r[2 + w] == entry(ResponseKey::QueryStart, reported_timestamp(query_start.secs)));
    if window != 0 {
        assert(r[2] == entry(ResponseKey::QueryWindowSeconds, window));
    }
    if chain_id != 0 {
        assert(r[3 + w] == entry(ResponseKey::ChainId, chain_id));
    }
    assert forall|i: int| 0 <= i < r.len() implies (#[trigger] r[i]).key
        != ResponseKey::QueryWindowSeconds || window != 0 by {
        if window == 0 && i >= 2 {
            assert(i == 2 || chain_id != 0);
        }
    }
    assert forall|i: int| 0 <= i < r.len() implies (#[trigger] r[i]).key != ResponseKey::ChainId
        || chain_id != 0 by {
        if chain_id == 0 {
            assert(i < 3 + w);
        }
    }
}

/// The detailed response reports the page, the page size, the chain and the
/// start, the key exactly when both a user and a key are named, and the
/// window width exactly when one is asked for, each with the value asked for.
pub proof fn detailed_response_reports_the_request(
    page: u64,
    chain_id: u64,
    query_start: Timestamp,
    user_id: u64,
    rpc_key_id: u64,
    window: u64,
)
    ensures
        detailed_response(page, chain_id, query_start, user_id, rpc_key_id, window).contains(
            entry(ResponseKey::Page, page),
        ),
        detailed_response(page, chain_id, query_start, user_id, rpc_key_id, window).contains(
            entry(ResponseKey::PageSize, PAGE_SIZE),
        ),
        detailed_response(page, chain_id, query_start, user_id, rpc_key_id, window).contains(
            entry(ResponseKey::ChainId, chain_id),
        ),
        detailed_response(page, chain_id, query_start, user_id, rpc_key_id, window).contains(
            entry(ResponseKey::QueryStart, reported_timestamp(query_start.secs)),
        ),
        user_id != 0 && rpc_key_id != 0 ==> detailed_response(
            page,
            chain_id,
            query_start,
            user_id,
            rpc_key_id,
            window,
        ).contains(entry(ResponseKey::RpcKeyId, rpc_key_id)),
        !(user_id != 0 && rpc_key_id != 0) ==> !reports_key(
            detailed_response(page, chain_id, query_start, user_id, rpc_key_id, window),
            ResponseKey::RpcKeyId,
        ),
        window != 0 ==> detailed_response(
            page,
            chain_id,
            query_start,
            user_id,
            rpc_key_id,
            window,
        ).contains(entry(ResponseKey::QueryWindowSeconds, window)),
        window == 0 ==> !reports_key(
            detailed_response(page, chain_id, query_start, user_id, rpc_key_id, window),
            ResponseKey::QueryWindowSeconds,
        ),
{
    let r = detailed_response(page, chain_id, query_start, user_id, rpc_key_id, window);
    let k: int = if user_id != 0 && rpc_key_id != 0 { 1 } else { 0 };
    assert(r[0] == entry(ResponseKey::Page, page));
    assert(r[1] == entry(ResponseKey::PageSize, PAGE_SIZE));
    assert(r[2] == entry(ResponseKey::ChainId, chain_id));
    assert(r[3] == entry(ResponseKey::QueryStart, reported_timestamp(query_start.secs)));
    if k == 1 {
        assert(r[4] == entry(ResponseKey::RpcKeyId, rpc_key_id));
    }
    if window != 0 {
        assert(r[4 + k] == entry(ResponseKey::QueryWindowSeconds, window));
    }
    assert forall|i: int| 0 <= i < r.len() implies (#[trigger] r[i]).key != ResponseKey::RpcKeyId
        || k == 1 by {
        if k == 0 && i >= 4 {
            assert(window != 0);
        }
    }
    assert forall|i: int| 0 <= i < r.len() implies (#[trigger] r[i]).key
        != ResponseKey::QueryWindowSeconds || window != 0 by {
        if window == 0 {
            assert(i < 4 + k);
        }
    }
}

/// Each field of a stats response is reported once, so reading the fields into
/// a map loses none of them.
pub proof fn response_fields_are_distinct(
    page: u64,
    window: u64,
    query_start: Timestamp,
    chain_id: u64,
    user_id: u64,
    rpc_key_id: u64,
)
    ensures
        keys_distinct(aggregate_response(page, window, query_start, chain_id)),
        keys_distinct(detailed_response(page, chain_id, query_start, user_id, rpc_key_id, window)),
{
    let a = aggregate_response(page, window, query_start, chain_id);
    let d = detailed_response(page, chain_id, query_start, user_id, rpc_key_id, window);
    assert(keys_distinct(a)) by {
        assert forall|i: int, j: int| 0 <= i < j < a.len() implies #[trigger] a[i].key
            != #[trigger] a[j].key by {
            if window != 0 {
                if chain_id != 0 {
                    assert(a =~= seq![
                        entry(ResponseKey::Page, page),
                        entry(ResponseKey::PageSize, PAGE_SIZE),
                        entry(ResponseKey::QueryWindowSeconds, window),
                        entry(ResponseKey::QueryStart, reported_timestamp(query_start.secs)),
                        entry(ResponseKey::ChainId, chain_id),
                    ]);
                } else {
                    assert(a =~= seq![
                        entry(ResponseKey::Page, page),
                        entry(ResponseKey::PageSize, PAGE_SIZE),
                        entry(ResponseKey::QueryWindowSeconds, window),
                        entry(ResponseKey::QueryStart, reported_timestamp(query_start.secs)),
                    ]);
                }
            } else {
                if chain_id != 0 {
                    assert(a =~= seq![
                        entry(ResponseKey::Page, page),
                        entry(ResponseKey::PageSize, PAGE_SIZE),
                        entry(ResponseKey::QueryStart, reported_timestamp(query_start.secs)),
                        entry(ResponseKey::ChainId, chain_id),
                    ]);
                } else {
                    assert(a =~= seq![
                        entry(ResponseKey::Page, page),
                        entry(ResponseKey::PageSize, PAGE_SIZE),
                        entry(ResponseKey::QueryStart, reported_timestamp(query_start.secs)),
                    ]);
                }
            }
        }
    }
    assert(keys_distinct(d)) by {
        let base = seq![
            entry(ResponseKey::Page, page),
            entry(ResponseKey::PageSize, PAGE_SIZE),
            entry(ResponseKey::ChainId, chain_id),
            entry(ResponseKey::QueryStart, reported_timestamp(query_start.secs)),
        ];
        let key = entry(ResponseKey::RpcKeyId, rpc_key_id);
        let win = entry(ResponseKey::QueryWindowSeconds, window);
        assert forall|i: int, j: int| 0 <= i < j < d.len() implies #[trigger] d[i].key
            != #[trigger] d[j].key by {
            if user_id != 0 && rpc_key_id != 0 {
                if window != 0 {
                    assert(d =~= base.push(key).push(win));
                } else {
                    assert(d =~= base.push(key));
                }
            } else {
                if window != 0 {
                    assert(d =~= base.push(win));
                } else {
                    assert(d =~= base);
                }
            }
        }
    }
}

} // verus!
