use web3_proxy::clock::Timestamp;
use web3_proxy::stats_query::{
    aggregate_stats_plan, detailed_stats_plan, QueryStep, ResponseEntry, ResponseKey, RowsKey,
    StatsColumn, StatsCondition, SumAlias, WindowAlias, PAGE_SIZE,
};

fn at(secs: i64) -> Timestamp {
    Timestamp { secs, nanos: 0 }
}

fn sums(backend: SumAlias) -> Vec<QueryStep> {
    vec![
        QueryStep::SumAs(StatsColumn::FrontendRequests, SumAlias::TotalRequests),
        QueryStep::SumAs(StatsColumn::BackendRequests, backend),
        QueryStep::SumAs(StatsColumn::CacheMisses, SumAlias::TotalCacheMisses),
        QueryStep::SumAs(StatsColumn::CacheHits, SumAlias::TotalCacheHits),
        QueryStep::SumAs(StatsColumn::SumResponseBytes, SumAlias::TotalResponseBytes),
        QueryStep::SumAs(StatsColumn::ErrorResponse, SumAlias::TotalErrorResponses),
        QueryStep::SumAs(StatsColumn::SumResponseMillis, SumAlias::TotalResponseMillis),
    ]
}

#[test]
fn aggregate_plan_for_everyone_on_every_chain() {
    let plan = aggregate_stats_plan(0, 0, Timestamp { secs: 1_000, nanos: 5 }, 0, 0);
    let mut expected = vec![QueryStep::SelectOnly];
    expected.extend(sums(SumAlias::TotalBackendRetries));
    assert_eq!(plan.steps, expected);
    assert_eq!(plan.conditions, vec![StatsCondition::PeriodAtLeast(Timestamp { secs: 1_000, nanos: 5 })]);
    assert_eq!(
        plan.response,
        vec![
            ResponseEntry { key: ResponseKey::Page, value: 0 },
            ResponseEntry { key: ResponseKey::PageSize, value: 200 },
            ResponseEntry { key: ResponseKey::QueryStart, value: 1_000 },
        ]
    );
    assert_eq!(plan.page_size, PAGE_SIZE);
    assert_eq!(plan.rows_key, RowsKey::Aggregate);
    assert_eq!(plan.rows_key.name(), "aggregate");
}

#[test]
fn aggregate_plan_for_one_user_chain_and_window() {
    let plan = aggregate_stats_plan(3, 3600, at(-1), 137, 42);
    let mut expected = vec![QueryStep::SelectOnly];
    expected.extend(sums(SumAlias::TotalBackendRetries));
    expected.extend([
        QueryStep::WindowColumn(3600, WindowAlias::QueryWindow),
        QueryStep::GroupByWindow(WindowAlias::QueryWindow),
        QueryStep::OrderByWindowAsc(WindowAlias::QueryWindow),
        QueryStep::JoinRpcKey,
        QueryStep::Column(StatsColumn::AccountingId),
        QueryStep::Column(StatsColumn::RpcKeyId),
        QueryStep::JoinUser,
        QueryStep::Column(StatsColumn::RpcKeyUserId),
    ]);
    assert_eq!(plan.steps, expected);
    assert_eq!(
        plan.conditions,
        vec![
            StatsCondition::PeriodAtLeast(at(-1)),
            StatsCondition::ChainIdIs(137),
            StatsCondition::UserIdIs(42),
        ]
    );
    assert_eq!(
        plan.response,
        vec![
            ResponseEntry { key: ResponseKey::Page, value: 3 },
            ResponseEntry { key: ResponseKey::PageSize, value: 200 },
            ResponseEntry { key: ResponseKey::QueryWindowSeconds, value: 3600 },
            ResponseEntry { key: ResponseKey::QueryStart, value: u64::MAX },
            ResponseEntry { key: ResponseKey::ChainId, value: 137 },
        ]
    );
    assert_eq!(plan.page, 3);
}

#[test]
fn detailed_plan_groups_by_chain_when_none_is_named() {
    let plan = detailed_stats_plan(0, 0, at(10), 0, 0, 0);
    let mut expected = vec![
        QueryStep::SelectOnly,
        QueryStep::Column(StatsColumn::AccountingRpcKeyId),
        QueryStep::GroupBy(StatsColumn::AccountingRpcKeyId),
        QueryStep::Column(StatsColumn::ErrorResponse),
        QueryStep::GroupBy(StatsColumn::ErrorResponse),
        QueryStep::Column(StatsColumn::Method),
        QueryStep::GroupBy(StatsColumn::Method),
        QueryStep::Column(StatsColumn::ArchiveRequest),
        QueryStep::GroupBy(StatsColumn::ArchiveRequest),
    ];
    expected.extend(sums(SumAlias::TotalBackendRequests));
    expected.push(QueryStep::OrderByMinAsc(StatsColumn::PeriodDatetime));
    expected.push(QueryStep::Column(StatsColumn::ChainId));
    expected.push(QueryStep::GroupBy(StatsColumn::ChainId));
    assert_eq!(plan.steps, expected);
    assert_eq!(plan.conditions, vec![StatsCondition::PeriodAtLeast(at(10))]);
    assert_eq!(
        plan.response,
        vec![
            ResponseEntry { key: ResponseKey::Page, value: 0 },
            ResponseEntry { key: ResponseKey::PageSize, value: 200 },
            ResponseEntry { key: ResponseKey::ChainId, value: 0 },
            ResponseEntry { key: ResponseKey::QueryStart, value: 10 },
        ]
    );
    assert_eq!(plan.rows_key.name(), "detailed_aggregate");
}

#[test]
fn detailed_plan_for_one_key_of_one_user() {
    let plan = detailed_stats_plan(1, 5, at(10), 7, 9, 60);
    let tail: Vec<QueryStep> = plan.steps[17..].to_vec();
    assert_eq!(
        tail,
        vec![
            QueryStep::JoinRpcKey,
            QueryStep::Column(StatsColumn::RpcKeyId),
            QueryStep::JoinRpcKey,
            QueryStep::Column(StatsColumn::RpcKeyId),
            QueryStep::GroupBy(StatsColumn::RpcKeyId),
            QueryStep::Column(StatsColumn::RpcKeyId),
            QueryStep::GroupBy(StatsColumn::RpcKeyId),
            QueryStep::WindowColumn(60, WindowAlias::QueryWindowSeconds),
            QueryStep::GroupByWindow(WindowAlias::QueryWindowSeconds),
        ]
    );
    assert_eq!(
        plan.conditions,
        vec![
            StatsCondition::PeriodAtLeast(at(10)),
            StatsCondition::ChainIdIs(5),
            StatsCondition::UserIdIs(7),
            StatsCondition::UserIdIs(7),
        ]
    );
    assert_eq!(
        plan.response,
        vec![
            ResponseEntry { key: ResponseKey::Page, value: 1 },
            ResponseEntry { key: ResponseKey::PageSize, value: 200 },
            ResponseEntry { key: ResponseKey::ChainId, value: 5 },
            ResponseEntry { key: ResponseKey::QueryStart, value: 10 },
            ResponseEntry { key: ResponseKey::RpcKeyId, value: 9 },
            ResponseEntry { key: ResponseKey::QueryWindowSeconds, value: 60 },
        ]
    );
}

#[test]
fn detailed_plan_for_all_keys_of_one_user() {
    let plan = detailed_stats_plan(0, 1, at(0), 7, 0, 0);
    let tail: Vec<QueryStep> = plan.steps[17..].to_vec();
    assert_eq!(
        tail,
        vec![
            QueryStep::JoinRpcKey,
            QueryStep::Column(StatsColumn::RpcKeyId),
            QueryStep::JoinRpcKey,
            QueryStep::Column(StatsColumn::RpcKeyId),
            QueryStep::GroupBy(StatsColumn::RpcKeyId),
            QueryStep::Column(StatsColumn::RpcKeyUserId),
            QueryStep::GroupBy(StatsColumn::RpcKeyUserId),
        ]
    );
    assert!(!plan.response.iter().any(|e| e.key == ResponseKey::RpcKeyId));
}

#[test]
fn names_of_columns_and_fields() {
    assert_eq!(SumAlias::TotalBackendRetries.name(), "total_backend_retries");
    assert_eq!(SumAlias::TotalBackendRequests.name(), "total_backend_requests");
    assert_eq!(WindowAlias::QueryWindow.name(), "query_window");
    assert_eq!(ResponseKey::QueryWindowSeconds.name(), "query_window_seconds");
    assert_eq!(ResponseKey::PageSize.name(), "page_size");
}

#[test]
fn response_keys_never_repeat() {
    for &(window, chain, user, key) in &[(0u64, 0u64, 0u64, 0u64), (60, 1, 2, 3), (60, 0, 2, 0), (0, 1, 0, 0)] {
        for plan in [aggregate_stats_plan(1, window, at(5), chain, user), detailed_stats_plan(1, chain, at(5), user, key, window)] {
            let keys: Vec<ResponseKey> = plan.response.iter().map(|e| e.key).collect();
            for (i, a) in keys.iter().enumerate() {
                assert!(!keys[i + 1..].contains(a), "{:?} repeats in {:?}", a, keys);
            }
        }
    }
}

#[test]
fn detailed_plan_groups_by_key_error_method_and_archive_flag_for_everyone() {
    for (chain, user, key, window) in [(0u64, 0u64, 0u64, 0u64), (1, 0, 0, 60), (1, 7, 0, 0), (1, 7, 9, 60)] {
        let plan = detailed_stats_plan(0, chain, at(0), user, key, window);
        for column in [
            StatsColumn::AccountingRpcKeyId,
            StatsColumn::ErrorResponse,
            StatsColumn::Method,
            StatsColumn::ArchiveRequest,
        ] {
            assert!(plan.steps.contains(&QueryStep::GroupBy(column)), "{:?}", column);
        }
    }
}
