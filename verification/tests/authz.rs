use hive_gateway::authz::{
    metric_query, prometheus_endpoint, query_range_url, QueryAction, QueryEvent, QueryPhase, QueryRangeParams,
    QueryRangeRequest,
};

fn params(device: &str) -> QueryRangeParams {
    QueryRangeParams {
        device_id: device.to_string(),
        start: "1700000000".to_string(),
        end: "1700003600".to_string(),
        step: "60".to_string(),
    }
}

fn reply(action: QueryAction) -> (u16, String) {
    match action {
        QueryAction::Respond(r) => (r.status, r.body),
        _ => panic!("expected a reply"),
    }
}

fn authorized_request(device: &str) -> QueryRangeRequest {
    let (mut req, first) =
        QueryRangeRequest::start("http://prometheus:9090/".to_string(), params(device), Some(b"ann@hive.io".to_vec()));
    match first {
        QueryAction::ResolveUser { email } => assert_eq!(email, "ann@hive.io"),
        _ => panic!("expected the user lookup"),
    }
    match req.step(QueryEvent::UserResolved(7)) {
        QueryAction::CheckOwnership { user_id, device_id } => {
            assert_eq!(user_id, 7);
            assert_eq!(device_id, device);
        }
        _ => panic!("expected the ownership check"),
    }
    req
}

#[test]
fn metric_query_selects_the_device() {
    assert_eq!(metric_query("hive-1"), "temperature_celsius{id=\"hive-1\"}");
}

#[test]
fn query_url_carries_the_parameters() {
    assert_eq!(
        query_range_url("http://prometheus:9090/", &params("hive-1")),
        "http://prometheus:9090/api/v1/query_range?query=temperature_celsius{id=\"hive-1\"}&start=1700000000&end=1700003600&step=60"
    );
}

#[test]
fn prometheus_endpoint_is_normalised() {
    assert_eq!(prometheus_endpoint("http://prometheus:9090"), Some("http://prometheus:9090/".to_string()));
    assert_eq!(prometheus_endpoint("HTTP://Prometheus:9090/x/"), Some("http://prometheus:9090/x/".to_string()));
    assert_eq!(prometheus_endpoint("not a url"), None);
}

#[test]
fn missing_user_header_is_unauthorized() {
    let (mut req, first) = QueryRangeRequest::start("http://p/".to_string(), params("d"), None);
    assert_eq!(reply(first), (401, "Missing auth header".to_string()));
    assert_eq!(req.phase(), QueryPhase::Answered);
    assert!(matches!(req.step(QueryEvent::UserResolved(1)), QueryAction::Ignore));
}

#[test]
fn non_text_user_header_is_a_bad_request() {
    let (req, first) = QueryRangeRequest::start("http://p/".to_string(), params("d"), Some(vec![0xff, 0x41]));
    assert_eq!(reply(first), (400, "Invalid user header".to_string()));
    assert_eq!(req.phase(), QueryPhase::Answered);
}

#[test]
fn foreign_device_is_forbidden() {
    let mut req = authorized_request("hive-9");
    assert_eq!(reply(req.step(QueryEvent::OwnershipChecked(Some(false)))), (403, "Forbidden".to_string()));
    assert!(matches!(req.step(QueryEvent::PrometheusAnswered(Some(200))), QueryAction::Ignore));

    let mut req = authorized_request("hive-9");
    assert_eq!(reply(req.step(QueryEvent::OwnershipChecked(None))), (403, "Forbidden".to_string()));
}

#[test]
fn owned_device_is_queried_and_relayed() {
    let mut req = authorized_request("hive-1");
    match req.step(QueryEvent::OwnershipChecked(Some(true))) {
        QueryAction::QueryPrometheus { url } => assert_eq!(
            url,
            "http://prometheus:9090/api/v1/query_range?query=temperature_celsius{id=\"hive-1\"}&start=1700000000&end=1700003600&step=60"
        ),
        _ => panic!("expected the Prometheus query"),
    }
    assert!(matches!(req.step(QueryEvent::PrometheusAnswered(Some(200))), QueryAction::ReadBody));
    let body = "{\"status\":\"success\"}".to_string();
    assert_eq!(reply(req.step(QueryEvent::BodyRead(Some(body.clone())))), (200, body));
    assert_eq!(req.phase(), QueryPhase::Answered);
}

#[test]
fn unreadable_body_becomes_empty_object() {
    let mut req = authorized_request("hive-1");
    req.step(QueryEvent::OwnershipChecked(Some(true)));
    req.step(QueryEvent::PrometheusAnswered(Some(204)));
    assert_eq!(reply(req.step(QueryEvent::BodyRead(None))), (200, "{}".to_string()));
}

#[test]
fn prometheus_failures_are_bad_gateway() {
    let mut req = authorized_request("hive-1");
    req.step(QueryEvent::OwnershipChecked(Some(true)));
    assert_eq!(reply(req.step(QueryEvent::PrometheusAnswered(Some(500)))), (502, "Prometheus query failed".to_string()));

    let mut req = authorized_request("hive-1");
    req.step(QueryEvent::OwnershipChecked(Some(true)));
    assert_eq!(reply(req.step(QueryEvent::PrometheusAnswered(None))), (502, "Failed to contact Prometheus".to_string()));
}

#[test]
fn database_failures_abort() {
    let (mut req, _) = QueryRangeRequest::start("http://p/".to_string(), params("d"), Some(b"a@b".to_vec()));
    assert!(matches!(req.step(QueryEvent::Failed), QueryAction::Abort));
    assert_eq!(req.phase(), QueryPhase::Aborted);

    let mut req = authorized_request("d");
    assert!(matches!(req.step(QueryEvent::Failed), QueryAction::Abort));
}
