use std::sync::Arc;
use web3_proxy::entities::sea_orm_active_enums::{Method, Role, UnknownValue};
use web3_proxy::jsonrpc_error_count::{count_after, count_errors, counts_as_error, RequestOutcome};
use web3_proxy::request::{
    classify_message, handler_after_draw, provider_source, response_type, Authorization,
    AuthorizationChecks, EthCallFirstParams, ErrorLog, HeadClientStep, HeadClientWait, LogLevel,
    OpenRequestHandle, ProviderErrorInfo, ProviderKind, ProviderSource, RequestRevertHandler,
    ResponseType, RevertChance, RevertDecision, SaveRevertError, Web3Rpc,
};

fn handle(has_db_conn: bool, chance: RevertChance, has_hard_limit: bool) -> OpenRequestHandle {
    let authorization = Authorization {
        checks: AuthorizationChecks { rpc_secret_key_id: Some(77), log_revert_chance: chance },
        has_db_conn,
    };
    let conn = Web3Rpc { name: "local".to_string(), has_hard_limit };
    OpenRequestHandle::new(Arc::new(authorization), Arc::new(conn))
}

fn jsonrpc(http: Option<&str>, ws: Option<&str>) -> ProviderErrorInfo {
    ProviderErrorInfo::JsonRpcClientError {
        http_message: http.map(|s| s.to_string()),
        ws_message: ws.map(|s| s.to_string()),
    }
}

#[test]
fn handle_exposes_its_connection() {
    let h = handle(true, RevertChance::Always, false);
    assert_eq!(h.connection_name(), "local");
    let c = h.clone_connection();
    assert_eq!(c.name, "local");
    assert!(Arc::ptr_eq(&c, &h.clone_connection()));
}

#[test]
fn revert_handler_from_log_level() {
    assert_eq!(RequestRevertHandler::from(LogLevel::Trace), RequestRevertHandler::TraceLevel);
    assert_eq!(RequestRevertHandler::from(LogLevel::Debug), RequestRevertHandler::DebugLevel);
    assert_eq!(RequestRevertHandler::from(LogLevel::Error), RequestRevertHandler::ErrorLevel);
    assert_eq!(RequestRevertHandler::from(LogLevel::Warn), RequestRevertHandler::WarnLevel);
}

#[test]
fn only_save_handlers_are_settled() {
    let h = handle(true, RevertChance::Always, false);
    for other in [
        RequestRevertHandler::TraceLevel,
        RequestRevertHandler::DebugLevel,
        RequestRevertHandler::ErrorLevel,
        RequestRevertHandler::WarnLevel,
    ] {
        assert_eq!(h.revert_decision(other, "eth_call"), RevertDecision::Use(other));
    }
    let save = RequestRevertHandler::Save;
    assert_eq!(h.revert_decision(save, "eth_call"), RevertDecision::Use(save));
    assert_eq!(h.revert_decision(save, "eth_estimateGas"), RevertDecision::Use(save));
    assert_eq!(
        h.revert_decision(save, "eth_sendRawTransaction"),
        RevertDecision::Use(RequestRevertHandler::TraceLevel)
    );
    let no_db = handle(false, RevertChance::Always, false);
    assert_eq!(no_db.revert_decision(save, "eth_call"), RevertDecision::Use(RequestRevertHandler::TraceLevel));
    let never = handle(true, RevertChance::Never, false);
    assert_eq!(never.revert_decision(save, "eth_call"), RevertDecision::Use(RequestRevertHandler::TraceLevel));
    let sometimes = handle(true, RevertChance::Sometimes, false);
    assert_eq!(sometimes.revert_decision(save, "eth_call"), RevertDecision::Draw);
    assert_eq!(handler_after_draw(true), RequestRevertHandler::Save);
    assert_eq!(handler_after_draw(false), RequestRevertHandler::TraceLevel);
}

#[test]
fn messages_are_classified() {
    assert_eq!(classify_message("execution reverted: out of gas"), ResponseType::Revert);
    assert_eq!(classify_message("execution reverted, limit"), ResponseType::Revert);
    assert_eq!(classify_message("daily limit exceeded"), ResponseType::RateLimit);
    assert_eq!(classify_message("too many requests"), ResponseType::RateLimit);
    assert_eq!(classify_message("Execution reverted"), ResponseType::Other);
    assert_eq!(classify_message("header not found"), ResponseType::Other);
    assert_eq!(classify_message(""), ResponseType::Other);
}

#[test]
fn messages_are_taken_from_the_providers_client() {
    let err = jsonrpc(Some("execution reverted"), Some("limit"));
    assert_eq!(response_type(ProviderKind::Http, &err), ResponseType::Revert);
    assert_eq!(response_type(ProviderKind::Ws, &err), ResponseType::RateLimit);
    assert_eq!(response_type(ProviderKind::Both, &err), ResponseType::Revert);
    let ws_only = jsonrpc(None, Some("limit"));
    assert_eq!(response_type(ProviderKind::Http, &ws_only), ResponseType::Other);
    assert_eq!(response_type(ProviderKind::Both, &ws_only), ResponseType::RateLimit);
    assert_eq!(response_type(ProviderKind::Both, &ProviderErrorInfo::Other), ResponseType::Other);
}

#[test]
fn error_plans() {
    let limited = handle(true, RevertChance::Always, true);
    let plan = limited.error_plan(RequestRevertHandler::DebugLevel, "eth_call", ProviderKind::Http, &jsonrpc(Some("rate limit"), None));
    assert_eq!(plan.response_type, ResponseType::RateLimit);
    assert!(plan.mark_rate_limited);
    assert_eq!(plan.log, ErrorLog::Debug);
    assert_eq!(plan.save_as, None);

    let unlimited = handle(true, RevertChance::Always, false);
    let plan = unlimited.error_plan(RequestRevertHandler::DebugLevel, "eth_call", ProviderKind::Http, &jsonrpc(Some("rate limit"), None));
    assert!(!plan.mark_rate_limited);

    let plan = unlimited.error_plan(RequestRevertHandler::DebugLevel, "eth_call", ProviderKind::Ws, &jsonrpc(None, Some("execution reverted")));
    assert_eq!(plan.log, ErrorLog::Debug);

    let plan = unlimited.error_plan(RequestRevertHandler::Save, "eth_estimateGas", ProviderKind::Ws, &jsonrpc(None, Some("execution reverted")));
    assert_eq!(plan.log, ErrorLog::Trace);
    assert_eq!(plan.save_as, Some(Method::EthEstimateGas));

    let plan = unlimited.error_plan(RequestRevertHandler::ErrorLevel, "eth_call", ProviderKind::Ws, &ProviderErrorInfo::Other);
    assert_eq!(plan.log, ErrorLog::Error);
    let plan = unlimited.error_plan(RequestRevertHandler::WarnLevel, "eth_call", ProviderKind::Ws, &ProviderErrorInfo::Other);
    assert_eq!(plan.log, ErrorLog::Warn);
    let plan = unlimited.error_plan(RequestRevertHandler::TraceLevel, "eth_call", ProviderKind::Ws, &ProviderErrorInfo::Other);
    assert_eq!(plan.log, ErrorLog::Trace);
    let plan = unlimited.error_plan(RequestRevertHandler::DebugLevel, "eth_call", ProviderKind::Ws, &ProviderErrorInfo::Other);
    assert_eq!(plan.response_type, ResponseType::Other);
    assert_eq!(plan.log, ErrorLog::Debug);
}

#[test]
fn provider_wait_reports_once() {
    assert_eq!(provider_source(true), ProviderSource::Unlocked);
    assert_eq!(provider_source(false), ProviderSource::HeadClient);
    let mut w = HeadClientWait::new();
    assert_eq!(w.step(false), HeadClientStep::Wait { log: true });
    assert_eq!(w.step(false), HeadClientStep::Wait { log: false });
    assert_eq!(w.step(false), HeadClientStep::Wait { log: false });
    assert_eq!(w.step(true), HeadClientStep::Use);
}

#[test]
fn revert_log_records() {
    let mut to = [0u8; 20];
    to[0] = 0xab;
    to[19] = 0x01;
    let params = EthCallFirstParams { to, data: Some(vec![0x12, 0x34]) };
    let auth = Authorization {
        checks: AuthorizationChecks { rpc_secret_key_id: Some(5), log_revert_chance: RevertChance::Always },
        has_db_conn: true,
    };
    let log = auth.revert_log(Method::EthCall, &params).unwrap().unwrap();
    assert_eq!(log.rpc_key_id, 5);
    assert_eq!(log.method, Method::EthCall);
    assert_eq!(log.to, to.to_vec());
    assert_eq!(log.call_data.as_deref(), Some("0x1234"));

    let no_data = EthCallFirstParams { to, data: None };
    assert_eq!(auth.revert_log(Method::EthCall, &no_data).unwrap().unwrap().call_data, None);

    let no_key = Authorization {
        checks: AuthorizationChecks { rpc_secret_key_id: None, log_revert_chance: RevertChance::Always },
        has_db_conn: false,
    };
    assert!(no_key.revert_log(Method::EthCall, &params).unwrap().is_none());

    let no_db = Authorization {
        checks: AuthorizationChecks { rpc_secret_key_id: Some(5), log_revert_chance: RevertChance::Always },
        has_db_conn: false,
    };
    assert_eq!(no_db.revert_log(Method::EthCall, &params).err(), Some(SaveRevertError::NoDatabaseConnection));
    assert_eq!(SaveRevertError::NoDatabaseConnection.message(), "no database connection");
}

#[test]
fn stored_enumerations_round_trip() {
    for m in [Method::EthCall, Method::EthEstimateGas, Method::EthSendRawTransaction] {
        assert_eq!(Method::try_from_value(m.to_value()), Ok(m));
    }
    assert_eq!(Method::try_from_value("eth_call"), Ok(Method::EthCall));
    assert_eq!(Method::try_from_value("eth_getBalance"), Err(UnknownValue));
    for r in [Role::Owner, Role::Admin, Role::Collaborator] {
        assert_eq!(Role::try_from_value(r.to_value()), Ok(r));
    }
    assert_eq!(Role::try_from_value("root"), Err(UnknownValue));
}

#[test]
fn only_jsonrpc_client_errors_are_counted() {
    assert!(counts_as_error(RequestOutcome::JsonRpcClientError));
    assert!(!counts_as_error(RequestOutcome::OtherError));
    assert!(!counts_as_error(RequestOutcome::Success));
}

#[test]
fn error_metric_counts_each_client_error_once() {
    assert_eq!(count_errors(&vec![]), 0);
    let run = vec![
        RequestOutcome::Success,
        RequestOutcome::JsonRpcClientError,
        RequestOutcome::OtherError,
        RequestOutcome::JsonRpcClientError,
        RequestOutcome::Success,
        RequestOutcome::JsonRpcClientError,
    ];
    assert_eq!(count_errors(&run), 3);
    let (a, b) = run.split_at(2);
    assert_eq!(count_errors(&a.to_vec()) + count_errors(&b.to_vec()), count_errors(&run));
    assert_eq!(count_after(5, RequestOutcome::JsonRpcClientError), 6);
    assert_eq!(count_after(5, RequestOutcome::OtherError), 5);
    assert_eq!(count_after(5, RequestOutcome::Success), 5);
    assert_eq!(count_after(u64::MAX, RequestOutcome::JsonRpcClientError), 0);
    assert_eq!(count_after(u64::MAX, RequestOutcome::OtherError), u64::MAX);
}
