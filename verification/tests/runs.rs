use health_agent::protocol::{MAX_BACKOFF_SECS, MAX_REQUESTS};
use health_agent::reporter::{judge, Body, Exchange, ReportOutcome, Reporter, Response, Step};
use health_agent::reporter::{Transient, Verdict};
use health_agent::{
    aggregate, check_service, status_text, ManagerReply, MonitorConfig, ServiceFinding, UnitState,
};

/// Plays a run: each round gives the clock reading at which the next attempt
/// is asked for, and what the request comes to. Returns the outcome, if the
/// run ended, and the number of requests sent.
fn play(reporter: &mut Reporter, rounds: Vec<(u64, Exchange)>) -> (Option<ReportOutcome>, u64) {
    for (elapsed_secs, exchange) in rounds {
        match reporter.next_attempt(elapsed_secs) {
            Step::Stop(outcome) => return (Some(outcome), reporter.requests_sent()),
            Step::Send(_) => {}
        }
        if let Verdict::Settled(outcome) = judge(exchange) {
            return (Some(outcome), reporter.requests_sent());
        }
    }
    (None, reporter.requests_sent())
}

/// Reads the body of an answer as the agent does: a JSON object whose
/// `error` is a string, is null, or is absent.
fn read_body(text: &str) -> Body {
    let fields = match serde_json::from_str::<serde_json::Value>(text) {
        Ok(serde_json::Value::Object(fields)) => fields,
        _ => return Body::Malformed,
    };
    match fields.get("error") {
        None | Some(serde_json::Value::Null) => Body::Parsed(Response { error: None }),
        Some(serde_json::Value::String(reason)) => {
            Body::Parsed(Response { error: Some(reason.clone()) })
        }
        Some(_) => Body::Malformed,
    }
}

fn reporter() -> Reporter {
    let config = MonitorConfig::new(vec!["a.service".to_string()], "https://m/x".to_string());
    Reporter::try_new(&config.unwrap(), "ok", "web1").unwrap()
}

fn success() -> Exchange {
    Exchange::Answered { status_code: 200, body: Body::Parsed(Response { error: None }) }
}

fn rejection(reason: &str) -> Exchange {
    Exchange::Answered {
        status_code: 200,
        body: Body::Parsed(Response { error: Some(reason.to_string()) }),
    }
}

#[test]
fn success_at_once_sends_one_request() {
    let (outcome, sent) = play(&mut reporter(), vec![(0, success())]);
    assert_eq!(outcome, Some(ReportOutcome::Delivered));
    assert_eq!(sent, 1);
}

#[test]
fn transport_failures_then_success_send_one_request_each() {
    for failures in [1u64, 2, 3, 5, 8] {
        let mut rounds: Vec<(u64, Exchange)> =
            (0..failures).map(|round| (round, Exchange::SendFailed)).collect();
        rounds.push((failures, success()));
        let (outcome, sent) = play(&mut reporter(), rounds);
        assert_eq!(outcome, Some(ReportOutcome::Delivered));
        assert_eq!(sent, failures + 1);
    }
}

#[test]
fn mixed_failures_then_success_send_one_request_each() {
    let rounds = vec![
        (0, Exchange::SendFailed),
        (0, Exchange::Answered { status_code: 503, body: Body::Malformed }),
        (2, Exchange::Answered { status_code: 200, body: Body::Unreadable }),
        (5, Exchange::Answered { status_code: 200, body: Body::Malformed }),
        (9, success()),
    ];
    let (outcome, sent) = play(&mut reporter(), rounds);
    assert_eq!(outcome, Some(ReportOutcome::Delivered));
    assert_eq!(sent, 5);
}

#[test]
fn rejection_on_the_first_attempt_ends_the_run() {
    let rounds = vec![(0, rejection("bad host")), (0, success()), (1, success())];
    let (outcome, sent) = play(&mut reporter(), rounds);
    assert_eq!(outcome, Some(ReportOutcome::RejectedByServer("bad host".to_string())));
    assert_eq!(sent, 1);
}

#[test]
fn error_in_the_first_body_ends_the_run_after_one_request() {
    let answer = Exchange::Answered { status_code: 200, body: read_body(r#"{"error": "bad host"}"#) };
    let (outcome, sent) = play(&mut reporter(), vec![(0, answer), (0, success())]);
    assert_eq!(outcome, Some(ReportOutcome::RejectedByServer("bad host".to_string())));
    assert_eq!(sent, 1);
}

#[test]
fn body_without_error_is_delivery() {
    for text in ["{}", r#"{"error": null}"#, r#"{"ok": true, "error": null}"#] {
        let answer = Exchange::Answered { status_code: 200, body: read_body(text) };
        let (outcome, sent) = play(&mut reporter(), vec![(0, answer)]);
        assert_eq!(outcome, Some(ReportOutcome::Delivered));
        assert_eq!(sent, 1);
    }
}

#[test]
fn body_that_is_not_the_expected_json_is_tried_again() {
    for text in ["", "<html>busy</html>", r#"{"error": 7}"#, r#"{"error": "cut"#] {
        let answer = Exchange::Answered { status_code: 200, body: read_body(text) };
        assert_eq!(judge(answer), Verdict::Retry(Transient::MalformedBody));
    }
}

#[test]
fn rejection_after_failures_ends_the_run() {
    let rounds = vec![
        (0, Exchange::SendFailed),
        (1, Exchange::SendFailed),
        (3, rejection("unknown monitor")),
        (6, success()),
    ];
    let (outcome, sent) = play(&mut reporter(), rounds);
    assert_eq!(outcome, Some(ReportOutcome::RejectedByServer("unknown monitor".to_string())));
    assert_eq!(sent, 3);
}

#[test]
fn run_without_a_settling_answer_is_still_open() {
    let rounds = vec![(0, Exchange::SendFailed), (0, Exchange::SendFailed)];
    let (outcome, sent) = play(&mut reporter(), rounds);
    assert_eq!(outcome, None);
    assert_eq!(sent, 2);
}

#[test]
fn success_after_the_deadline_comes_too_late() {
    let rounds = vec![(0, Exchange::SendFailed), (30, success())];
    let (outcome, sent) = play(&mut reporter(), rounds);
    assert_eq!(outcome, Some(ReportOutcome::DeadlineExceeded));
    assert_eq!(sent, 1);
}

#[test]
fn failing_until_the_deadline_ends_with_deadline_exceeded() {
    let mut reporter = reporter();
    let mut clock = 0u64;
    let mut longest_backoff = 0u64;
    let outcome = loop {
        let attempt = match reporter.next_attempt(clock) {
            Step::Stop(outcome) => break outcome,
            Step::Send(attempt) => attempt,
        };
        clock += attempt.backoff_secs;
        longest_backoff = longest_backoff.max(attempt.backoff_secs);
        assert_eq!(judge(Exchange::SendFailed), Verdict::Retry(Transient::Transport));
    };
    assert_eq!(outcome, ReportOutcome::DeadlineExceeded);
    assert_eq!(reporter.requests_sent(), 9);
    assert_eq!(reporter.requests_sent(), MAX_REQUESTS);
    assert_eq!(longest_backoff, 8);
    assert_eq!(longest_backoff, MAX_BACKOFF_SECS);
    assert_eq!(clock, 36);
}

#[test]
fn slow_failures_end_with_fewer_requests() {
    let mut reporter = reporter();
    let mut clock = 0u64;
    let outcome = loop {
        let attempt = match reporter.next_attempt(clock) {
            Step::Stop(outcome) => break outcome,
            Step::Send(attempt) => attempt,
        };
        clock += attempt.backoff_secs + 10;
    };
    assert_eq!(outcome, ReportOutcome::DeadlineExceeded);
    assert_eq!(reporter.requests_sent(), 3);
    assert_eq!(clock, 33);
}

#[test]
fn unhealthy_service_is_reported_in_the_request() {
    let services = vec!["a.service".to_string(), "b.service".to_string()];
    let config = MonitorConfig::new(services, "https://m/x".to_string()).unwrap();
    let mut replies = vec![
        ManagerReply::Loaded(UnitState {
            active_state: "active".to_string(),
            sub_state: "running".to_string(),
            result: "success".to_string(),
        }),
        ManagerReply::Loaded(UnitState {
            active_state: "failed".to_string(),
            sub_state: "failed".to_string(),
            result: "exit-code".to_string(),
        }),
    ]
    .into_iter();
    let mut findings: Vec<ServiceFinding> = Vec::new();
    for name in config.services() {
        findings.push(check_service(name, replies.next().unwrap()).unwrap());
    }
    let status = status_text(aggregate(&findings));
    assert_eq!(status, "b.service active_state=failed sub_state=failed, result=exit-code");
    let mut reporter = Reporter::try_new(&config, &status, "myhost").unwrap();
    let attempt = match reporter.next_attempt(0) {
        Step::Send(attempt) => attempt,
        Step::Stop(outcome) => panic!("stopped with {:?}", outcome),
    };
    assert_eq!(attempt.backoff_secs, 0);
    assert_eq!(
        attempt.url,
        "https://m/x?status=b.service+active_state%3Dfailed+sub_state%3Dfailed%2C+result%3Dexit-code\
         &hostname=myhost"
    );
    let sent = url::Url::parse(&attempt.url).unwrap();
    let pairs: Vec<(String, String)> = sent.query_pairs().into_owned().collect();
    assert_eq!(
        pairs,
        vec![
            (
                "status".to_string(),
                "b.service active_state=failed sub_state=failed, result=exit-code".to_string()
            ),
            ("hostname".to_string(), "myhost".to_string()),
        ]
    );
}

#[test]
fn healthy_services_are_reported_as_ok() {
    let services = vec!["a.service".to_string(), "b.service".to_string()];
    let config = MonitorConfig::new(services, "https://m/x".to_string()).unwrap();
    let mut findings: Vec<ServiceFinding> = Vec::new();
    for name in config.services() {
        let reply = ManagerReply::Loaded(UnitState {
            active_state: "active".to_string(),
            sub_state: "running".to_string(),
            result: "success".to_string(),
        });
        findings.push(check_service(name, reply).unwrap());
    }
    let status = status_text(aggregate(&findings));
    let reporter = Reporter::try_new(&config, &status, "myhost").unwrap();
    assert_eq!(reporter.target_url(), "https://m/x?status=ok&hostname=myhost");
}
