//! What the client prints and the REST interface answers.

use dns_guard::client::{
    cmd_client_logs, cmd_client_set_password, cmd_client_start, cmd_client_status,
    cmd_client_stop, LogEvent, Output,
};
use dns_guard::rest::{
    action_code, action_name, config_body, error_body, http_port, logs_body, policy_body,
    queries_body, query_record_json, reply_body, stats_body, status_body, PolicyRule, QueryRecord,
    Totals,
};
use dns_guard::service::StatusReply;

fn shown(o: Output) -> (String, String, i32) {
    (o.stdout.join("\n"), o.stderr.join("\n"), o.code)
}

fn s(t: &str) -> String {
    t.to_string()
}

fn status() -> StatusReply {
    StatusReply {
        running: true,
        pid: 4711,
        mode: s("doh"),
        provider: s("google"),
        strategy: s("single"),
    }
}

#[test]
fn start_output() {
    assert_eq!(shown(cmd_client_start(Ok((true, s("x"))), false)), (s("proxy started"), s(""), 0));
    assert_eq!(shown(cmd_client_start(Ok((false, s("no"))), false)), (s(""), s("no"), 1));
    assert_eq!(
        shown(cmd_client_start(Ok((false, s("n\"o"))), true)),
        (s(r#"{"message":"n\"o","ok":false}"#), s(""), 1)
    );
    assert_eq!(shown(cmd_client_start(Err(s("gone")), false)), (s(""), s("error: gone"), 1));
    assert_eq!(
        shown(cmd_client_start(Err(s("gone")), true)),
        (s(r#"{"message":"gone","ok":false}"#), s(""), 1)
    );
}

#[test]
fn stop_output() {
    assert_eq!(shown(cmd_client_stop(Ok((true, s(""))), false)), (s("proxy stopped"), s(""), 0));
    assert_eq!(shown(cmd_client_stop(Ok((false, s(""))), false)), (s(""), s(""), 1));
    assert_eq!(
        shown(cmd_client_stop(Ok((true, s(""))), true)),
        (s(r#"{"message":"proxy stopped","ok":true}"#), s(""), 0)
    );
    assert_eq!(
        shown(cmd_client_stop(Ok((false, s(""))), true)),
        (s(r#"{"message":"stop failed","ok":false}"#), s(""), 1)
    );
    assert_eq!(
        shown(cmd_client_stop(Ok((false, s("m"))), true)),
        (s(r#"{"message":"m","ok":false}"#), s(""), 1)
    );
    assert_eq!(shown(cmd_client_stop(Err(s("e")), false)), (s(""), s("error: e"), 1));
}

#[test]
fn status_output() {
    assert_eq!(
        shown(cmd_client_status(Ok(status()), false)),
        (s("running: true\npid: 4711\nmode: doh\nprovider: google\nstrategy: single"), s(""), 0)
    );
    assert_eq!(
        shown(cmd_client_status(Ok(status()), true)),
        (
            s(r#"{"mode":"doh","pid":4711,"provider":"google","running":true,"strategy":"single"}"#),
            s(""),
            0
        )
    );
    assert_eq!(shown(cmd_client_status(Err(s("e")), false)), (s(""), s("error: e"), 1));
    assert_eq!(
        shown(cmd_client_status(Err(s("e")), true)),
        (
            s(r#"{"mode":"","pid":0,"provider":"","running":false,"strategy":""}"#),
            s(""),
            1
        )
    );
}

#[test]
fn password_and_log_output() {
    assert_eq!(
        shown(cmd_client_set_password(Ok((true, s("m"))), false)),
        (s("authenticated"), s(""), 0)
    );
    assert_eq!(
        shown(cmd_client_set_password(Ok((false, s("wrong password"))), false)),
        (s(""), s("wrong password"), 1)
    );
    assert_eq!(shown(cmd_client_set_password(Err(s("e")), false)), (s(""), s("error: e"), 1));
    assert_eq!(shown(cmd_client_logs(LogEvent::Line(s("l")))), (s("l"), s(""), 0));
    assert_eq!(shown(cmd_client_logs(LogEvent::Broken(s("b")))), (s(""), s("stream error: b"), 0));
    assert_eq!(shown(cmd_client_logs(LogEvent::Refused(s("r")))), (s(""), s("error: r"), 0));
}

#[test]
fn rest_port() {
    assert_eq!(http_port(None, None), Some(8090));
    assert_eq!(http_port(Some("0"), Some("9000")), None);
    assert_eq!(http_port(Some("1"), Some("9000")), Some(9000));
    assert_eq!(http_port(Some(""), Some("x")), Some(8090));
    assert_eq!(http_port(None, Some("70000")), Some(8090));
    assert_eq!(http_port(None, Some("-1")), Some(8090));
}

#[test]
fn rest_replies() {
    assert_eq!(reply_body(true, "m").to_string(), r#"{"message":"m","ok":true}"#);
    assert_eq!(error_body("e").to_string(), r#"{"message":"e","ok":false}"#);
    assert_eq!(config_body(true).to_string(), r#"{"ok":true}"#);
    let v = status_body(&status());
    assert_eq!(v["pid"], 4711);
    assert_eq!(v["running"], true);
    assert_eq!(v.as_object().unwrap().len(), 5);
}

#[test]
fn rest_queries_logs_and_statistics() {
    let rec = || QueryRecord {
        domain: s("example.com"),
        provider: s("google"),
        mode: s("doh"),
        strategy: s("single"),
        rtt_ms: 12,
        cached: true,
        blocked: false,
        error: s(""),
        ts_ms: 99,
    };
    let v = query_record_json(&rec());
    assert_eq!(
        v.to_string(),
        r#"{"blocked":false,"cached":true,"domain":"example.com","error":"","mode":"doh","provider":"google","rtt_ms":12,"strategy":"single","ts_ms":99}"#
    );
    let q = queries_body(&vec![rec(), rec()]);
    assert_eq!(q["queries"][1], v);
    assert_eq!(q["queries"].as_array().unwrap().len(), 2);
    assert_eq!(logs_body(&vec![s("a"), s("b")]).to_string(), r#"{"lines":["a","b"]}"#);
    let totals = Totals { queries_total: 4, cached_total: 3, blocked_total: 2, errors_total: 1 };
    let v = stats_body(&totals, serde_json::Value::from(7), serde_json::Value::Null);
    assert_eq!(
        v.to_string(),
        r#"{"blocked_total":2,"cached_total":3,"errors_total":1,"per_provider":7,"queries_total":4,"top_domains":null}"#
    );
}

#[test]
fn rest_policy() {
    assert_eq!(action_code("block"), 1);
    assert_eq!(action_code("Block"), 0);
    assert_eq!(action_code(""), 0);
    assert_eq!(action_name(1), "block");
    assert_eq!(action_name(0), "allow");
    assert_eq!(action_name(7), "allow");
    let rules = vec![
        PolicyRule { pattern: s("ads.*"), action: 1 },
        PolicyRule { pattern: s("*"), action: 0 },
    ];
    assert_eq!(
        policy_body(&rules).to_string(),
        r#"{"rules":[{"action":"block","pattern":"ads.*"},{"action":"allow","pattern":"*"}]}"#
    );
}
