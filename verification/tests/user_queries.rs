use web3_proxy::clock::{read_clock, timestamp_from_epoch_offset, Timestamp, MAX_TIMESTAMP, MIN_TIMESTAMP, THIRTY_DAYS_SECONDS};
use web3_proxy::decimal::IntErrorKind;
use web3_proxy::query_params::QueryParams;
use web3_proxy::user_queries::{
    aggregate_stats_params_at, detailed_stats_params_at, finish_user_id_lookup,
    get_aggregate_stats_params, get_chain_id_from_params, get_detailed_stats_params,
    get_page_from_params, get_query_start_from_params, get_query_window_seconds_from_params,
    get_rpc_key_id_from_params, query_start_from_params_at, start_user_id_lookup,
    AggregateStatsParams, AppConfig, DetailedStatsParams, ParamError, UserIdLookup, Web3ProxyApp,
};

fn params(pairs: &[(&str, &str)]) -> QueryParams {
    let pairs: Vec<(String, String)> = pairs.iter().map(|(k, v)| (k.to_string(), v.to_string())).collect();
    QueryParams::from_pairs(&pairs)
}

fn app(chain_id: u64) -> Web3ProxyApp {
    Web3ProxyApp { config: AppConfig { chain_id } }
}

fn at(secs: i64) -> Timestamp {
    Timestamp { secs, nanos: 0 }
}

#[test]
fn a_later_pair_replaces_an_earlier_one() {
    let p = params(&[("page", "1"), ("chain_id", "5"), ("page", "2")]);
    assert_eq!(get_page_from_params(&p), Ok(2));
    assert_eq!(get_chain_id_from_params(&app(1), &p), Ok(5));
    let empty = params(&[]);
    assert_eq!(get_page_from_params(&empty), Ok(0));
}

#[test]
fn rpc_key_id_needs_a_user() {
    let p = params(&[("rpc_key_id", "12")]);
    assert_eq!(get_rpc_key_id_from_params(0, &p), Ok(0));
    assert_eq!(get_rpc_key_id_from_params(5, &p), Ok(12));
    let bad = params(&[("rpc_key_id", "twelve")]);
    assert_eq!(get_rpc_key_id_from_params(0, &bad), Ok(0));
    assert_eq!(get_rpc_key_id_from_params(5, &bad), Err(ParamError::RpcKeyId(IntErrorKind::InvalidDigit)));
    assert_eq!(
        get_rpc_key_id_from_params(5, &params(&[("rpc_key_id", "")])),
        Err(ParamError::RpcKeyId(IntErrorKind::Empty))
    );
    assert_eq!(get_rpc_key_id_from_params(5, &params(&[])), Ok(0));
}

#[test]
fn chain_id_defaults_to_the_configured_chain() {
    assert_eq!(get_chain_id_from_params(&app(137), &params(&[])), Ok(137));
    assert_eq!(get_chain_id_from_params(&app(137), &params(&[("chain_id", "1")])), Ok(1));
    assert_eq!(
        get_chain_id_from_params(&app(137), &params(&[("chain_id", "")])),
        Err(ParamError::ChainId(IntErrorKind::Empty))
    );
    assert_eq!(
        get_chain_id_from_params(&app(137), &params(&[("chain_id", "99999999999999999999")])),
        Err(ParamError::ChainId(IntErrorKind::PosOverflow))
    );
}

#[test]
fn page_and_window_default_to_zero() {
    assert_eq!(get_page_from_params(&params(&[])), Ok(0));
    assert_eq!(get_page_from_params(&params(&[("page", "+3")])), Ok(3));
    assert_eq!(get_page_from_params(&params(&[("page", "-3")])), Err(ParamError::Page));
    assert_eq!(get_query_window_seconds_from_params(&params(&[])), Ok(0));
    assert_eq!(get_query_window_seconds_from_params(&params(&[("query_window_seconds", "3600")])), Ok(3600));
    assert_eq!(
        get_query_window_seconds_from_params(&params(&[("query_window_seconds", "1h")])),
        Err(ParamError::QueryWindowSeconds)
    );
}

#[test]
fn query_start_given_or_thirty_days_back() {
    let now = Timestamp { secs: 1_700_000_000, nanos: 250_000_000 };
    assert_eq!(
        query_start_from_params_at(&params(&[]), now),
        Ok(Timestamp { secs: 1_700_000_000 - 2_592_000, nanos: 250_000_000 })
    );
    assert_eq!(query_start_from_params_at(&params(&[("query_start", "1680000000")]), now), Ok(at(1680000000)));
    assert_eq!(query_start_from_params_at(&params(&[("query_start", "-5")]), now), Ok(at(-5)));
    assert_eq!(query_start_from_params_at(&params(&[("query_start", "yesterday")]), now), Err(ParamError::QueryStart));
    assert_eq!(THIRTY_DAYS_SECONDS, 30 * 24 * 60 * 60);
}

#[test]
fn query_start_range_is_chronos() {
    #[allow(deprecated)]
    let exists = |t: i64| chrono::NaiveDateTime::from_timestamp_opt(t, 0).is_some();
    for t in [MIN_TIMESTAMP, MIN_TIMESTAMP - 1, MAX_TIMESTAMP, MAX_TIMESTAMP + 1, 0, i64::MIN, i64::MAX] {
        let p = params(&[("query_start", &t.to_string())]);
        let res = get_query_start_from_params(&p);
        if exists(t) {
            assert_eq!(res, Ok(at(t)));
        } else {
            assert_eq!(res, Err(ParamError::QueryStartOutOfRange));
        }
    }
    assert!(exists(MIN_TIMESTAMP) && exists(MAX_TIMESTAMP));
    assert!(!exists(MIN_TIMESTAMP - 1) && !exists(MAX_TIMESTAMP + 1));
}

#[test]
fn given_query_start_is_read_back() {
    for n in [MIN_TIMESTAMP, -1, 0, 1, 1_680_000_000, MAX_TIMESTAMP] {
        let p = params(&[("query_start", &n.to_string())]);
        assert_eq!(get_query_start_from_params(&p), Ok(at(n)));
    }
}

#[test]
fn query_start_default_uses_the_clock() {
    let before = chrono::Utc::now();
    let start = get_query_start_from_params(&params(&[])).unwrap();
    let after = chrono::Utc::now();
    let start_nanos = start.secs as i128 * 1_000_000_000 + start.nanos as i128;
    let low = (before.timestamp() - 2_592_000) as i128 * 1_000_000_000 + before.timestamp_subsec_nanos() as i128;
    let high = (after.timestamp() - 2_592_000) as i128 * 1_000_000_000 + after.timestamp_subsec_nanos() as i128;
    assert!(low <= start_nanos && start_nanos <= high);
    assert!(start.nanos < 1_000_000_000);
}

#[test]
fn user_id_lookup_cases() {
    assert_eq!(start_user_id_lookup(true, &params(&[])), UserIdLookup::Resolved(Ok(0)));
    assert_eq!(start_user_id_lookup(false, &params(&[])), UserIdLookup::Resolved(Ok(0)));
    assert_eq!(start_user_id_lookup(false, &params(&[("user_id", "9")])), UserIdLookup::Resolved(Ok(9)));
    assert_eq!(
        start_user_id_lookup(false, &params(&[("user_id", "nine")])),
        UserIdLookup::Resolved(Err(ParamError::UserIdNumber(IntErrorKind::InvalidDigit)))
    );
    assert_eq!(
        start_user_id_lookup(true, &params(&[("user_id", "9")])),
        UserIdLookup::CheckBearer("9".to_string())
    );
    assert_eq!(finish_user_id_lookup(9, "9"), Ok(9));
    assert_eq!(finish_user_id_lookup(8, "9"), Err(ParamError::PermissionDenied));
    assert_eq!(finish_user_id_lookup(8, "x"), Err(ParamError::UserId));
}

#[test]
fn aggregate_params_report_the_first_error() {
    let now = at(1_700_000_000);
    let p = params(&[("page", "x"), ("chain_id", "y")]);
    assert_eq!(aggregate_stats_params_at(&app(1), &p, now), Err(ParamError::Page));
    let p = params(&[("query_start", "x"), ("chain_id", "y")]);
    assert_eq!(aggregate_stats_params_at(&app(1), &p, now), Err(ParamError::QueryStart));
    let p = params(&[("page", "2"), ("query_window_seconds", "60"), ("query_start", "100")]);
    assert_eq!(
        aggregate_stats_params_at(&app(1), &p, now),
        Ok(AggregateStatsParams { page: 2, query_window_seconds: 60, query_start: at(100), chain_id: 1 })
    );
    assert!(get_aggregate_stats_params(&app(1), &params(&[])).is_ok());
}

#[test]
fn aggregate_params_ignore_rpc_key_id() {
    let now = at(1_700_000_000);
    let p = params(&[("page", "2"), ("query_start", "100")]);
    let p2 = params(&[("page", "2"), ("query_start", "100"), ("rpc_key_id", "junk")]);
    assert_eq!(aggregate_stats_params_at(&app(1), &p, now), aggregate_stats_params_at(&app(1), &p2, now));
    assert_eq!(get_aggregate_stats_params(&app(1), &p), get_aggregate_stats_params(&app(1), &p2));
}

#[test]
fn detailed_params_report_the_first_error() {
    let now = at(1_700_000_000);
    let p = params(&[("rpc_key_id", "x"), ("page", "y")]);
    assert_eq!(
        detailed_stats_params_at(&app(1), &p, 3, now),
        Err(ParamError::RpcKeyId(IntErrorKind::InvalidDigit))
    );
    assert_eq!(detailed_stats_params_at(&app(1), &p, 0, now), Err(ParamError::Page));
    let p = params(&[("rpc_key_id", "4"), ("chain_id", "0"), ("query_start", "50")]);
    assert_eq!(
        detailed_stats_params_at(&app(1), &p, 3, now),
        Ok(DetailedStatsParams {
            user_id: 3,
            rpc_key_id: 4,
            chain_id: 0,
            query_start: at(50),
            query_window_seconds: 0,
            page: 0
        })
    );
    let d = get_detailed_stats_params(&app(1), &p, 0).unwrap();
    assert_eq!(d.rpc_key_id, 0);
}

#[test]
fn detailed_params_ignore_rpc_key_id_without_user() {
    let p = params(&[("query_start", "50")]);
    let p2 = params(&[("query_start", "50"), ("rpc_key_id", "7")]);
    let p3 = params(&[("query_start", "50"), ("rpc_key_id", "not a number")]);
    let a = get_detailed_stats_params(&app(1), &p, 0);
    assert_eq!(a, get_detailed_stats_params(&app(1), &p2, 0));
    assert_eq!(a, get_detailed_stats_params(&app(1), &p3, 0));
    assert_eq!(a.unwrap().rpc_key_id, 0);
}

#[test]
fn error_messages() {
    assert_eq!(ParamError::PermissionDenied.message(), "permission denied");
    assert_eq!(ParamError::QueryStart.message(), "parsing timestamp query param");
    assert_eq!(
        ParamError::ChainId(IntErrorKind::InvalidDigit).message(),
        "x".parse::<u64>().unwrap_err().to_string()
    );
    assert_eq!(
        ParamError::RpcKeyId(IntErrorKind::Empty).message(),
        "".parse::<u64>().unwrap_err().to_string()
    );
}

#[test]
fn the_clock_reads_the_system_time() {
    let before = std::time::SystemTime::now().duration_since(std::time::UNIX_EPOCH).unwrap();
    let now = read_clock().expect("the system clock is past the epoch");
    let after = std::time::SystemTime::now().duration_since(std::time::UNIX_EPOCH).unwrap();
    let nanos = now.secs as i128 * 1_000_000_000 + now.nanos as i128;
    assert!(before.as_nanos() as i128 <= nanos && nanos <= after.as_nanos() as i128);
    assert!(now.nanos < 1_000_000_000);
    assert_eq!(ParamError::ClockUnreadable.message(), "reading the system clock");
}

#[test]
fn epoch_offsets_become_timestamps() {
    assert_eq!(timestamp_from_epoch_offset(None), None);
    assert_eq!(
        timestamp_from_epoch_offset(Some((1_700_000_000, 123))),
        Some(Timestamp { secs: 1_700_000_000, nanos: 123 })
    );
    assert_eq!(
        timestamp_from_epoch_offset(Some((MAX_TIMESTAMP as u64, 999_999_999))),
        Some(Timestamp { secs: MAX_TIMESTAMP, nanos: 999_999_999 })
    );
    assert_eq!(timestamp_from_epoch_offset(Some((MAX_TIMESTAMP as u64 + 1, 0))), None);
    assert_eq!(timestamp_from_epoch_offset(Some((u64::MAX, 0))), None);
    let since = std::time::SystemTime::now().duration_since(std::time::UNIX_EPOCH).unwrap();
    let t = timestamp_from_epoch_offset(Some((since.as_secs(), since.subsec_nanos()))).unwrap();
    assert_eq!(t.secs as u64, since.as_secs());
}
