use rust_web::error::Error;
use rust_web::profanity::{
    build_request, classify_response, next_step, run_scripted, APIResponse, BadWord,
    BadWordsResponse, Exchange, ModerationConfig, Step, UpstreamResponse,
};
use rust_web::retry::{backoff_cap, RetryPolicy};

fn success(content: &str, censored: &str) -> UpstreamResponse {
    UpstreamResponse {
        status: 200,
        body: String::new(),
        success_body: Some(BadWordsResponse {
            content: content.to_string(),
            bad_words_total: 0,
            bad_words_list: vec![],
            censored_content: censored.to_string(),
        }),
        error_body: None,
    }
}

fn error_response(status: u16, message: &str) -> UpstreamResponse {
    UpstreamResponse {
        status,
        body: String::new(),
        success_body: None,
        error_body: Some(APIResponse { message: message.to_string() }),
    }
}

#[test]
fn censor_profane_words() {
    let mut resp = success("This is a shitty sentence", "this is a ****** sentence");
    if let Some(body) = resp.success_body.as_mut() {
        body.bad_words_total = 1;
        body.bad_words_list.push(BadWord {
            original: "shitty".to_string(),
            word: "shitty".to_string(),
            deviations: 0,
            info: 2,
            replaced_len: 6,
        });
    }
    let r = classify_response(resp);
    assert_eq!(r.unwrap(), "this is a ****** sentence");
}

#[test]
fn no_profane_words() {
    let r = classify_response(success("this is a sentence", "this is a sentence"));
    assert_eq!(r.unwrap(), "this is a sentence");
}

#[test]
fn every_attempt_fails_in_transport() {
    let script = vec![
        Exchange::TransportFailure,
        Exchange::TransportFailure,
        Exchange::TransportFailure,
        Exchange::TransportFailure,
        Exchange::TransportFailure,
    ];
    let (attempts, result) = run_scripted(&RetryPolicy::new(), script);
    assert_eq!(attempts, 4);
    assert!(matches!(result, Some(Err(Error::TransportError))));
}

#[test]
fn success_on_last_retry() {
    let script = vec![
        Exchange::TransportFailure,
        Exchange::TransportFailure,
        Exchange::TransportFailure,
        Exchange::Response(success("ok", "ok")),
    ];
    let (attempts, result) = run_scripted(&RetryPolicy::new(), script);
    assert_eq!(attempts, 4);
    assert_eq!(result.unwrap().unwrap(), "ok");
}

#[test]
fn one_transport_failure_then_success() {
    let script = vec![
        Exchange::TransportFailure,
        Exchange::Response(success("This is a shitty sentence", "this is a ****** sentence")),
    ];
    let (attempts, result) = run_scripted(&RetryPolicy::new(), script);
    assert_eq!(attempts, 2);
    assert_eq!(result.unwrap().unwrap(), "this is a ****** sentence");
}

#[test]
fn client_error_is_not_retried() {
    let script = vec![
        Exchange::Response(error_response(400, "bad request")),
        Exchange::Response(success("x", "x")),
    ];
    let (attempts, result) = run_scripted(&RetryPolicy::new(), script);
    assert_eq!(attempts, 1);
    match result {
        Some(Err(Error::UpstreamClientError(e))) => {
            assert_eq!(e.status, 400);
            assert_eq!(e.message, "bad request");
        }
        other => panic!("unexpected {:?}", other),
    }
}

#[test]
fn server_error_is_surfaced() {
    let script = vec![Exchange::Response(error_response(500, "internal"))];
    let (attempts, result) = run_scripted(&RetryPolicy::new(), script);
    assert_eq!(attempts, 1);
    match result {
        Some(Err(Error::UpstreamServerError(e))) => {
            assert_eq!(e.status, 500);
            assert_eq!(e.message, "internal");
        }
        other => panic!("unexpected {:?}", other),
    }
}

#[test]
fn redirect_status_is_a_server_error() {
    let r = classify_response(error_response(302, "moved"));
    assert!(matches!(r, Err(Error::UpstreamServerError(e)) if e.status == 302));
}

#[test]
fn undecodable_success_body() {
    let resp = UpstreamResponse {
        status: 200,
        body: "not json".to_string(),
        success_body: None,
        error_body: None,
    };
    let (attempts, result) = run_scripted(&RetryPolicy::new(), vec![Exchange::Response(resp)]);
    assert_eq!(attempts, 1);
    assert!(matches!(result, Some(Err(Error::ResponseDecodeError))));
}

#[test]
fn undecodable_error_body_keeps_status() {
    let resp = UpstreamResponse {
        status: 404,
        body: "Not Found".to_string(),
        success_body: None,
        error_body: None,
    };
    match classify_response(resp) {
        Err(Error::UpstreamClientError(e)) => {
            assert_eq!(e.status, 404);
            assert_eq!(e.message, "Not Found");
        }
        other => panic!("unexpected {:?}", other),
    }
    let resp = UpstreamResponse {
        status: 503,
        body: "unavailable".to_string(),
        success_body: None,
        error_body: None,
    };
    match classify_response(resp) {
        Err(Error::UpstreamServerError(e)) => {
            assert_eq!(e.status, 503);
            assert_eq!(e.message, "unavailable");
        }
        other => panic!("unexpected {:?}", other),
    }
}

#[test]
fn script_runs_out() {
    let (attempts, result) =
        run_scripted(&RetryPolicy::new(), vec![Exchange::TransportFailure]);
    assert_eq!(attempts, 1);
    assert!(result.is_none());
}

#[test]
fn no_retries_policy() {
    let policy = RetryPolicy::with_max_retries(0);
    let (attempts, result) = run_scripted(&policy, vec![Exchange::TransportFailure]);
    assert_eq!(attempts, 1);
    assert!(matches!(result, Some(Err(Error::TransportError))));
}

#[test]
fn missing_configuration() {
    let no_url = ModerationConfig::new(None, Some("key".to_string()));
    assert!(matches!(no_url, Err(Error::ConfigurationError)));
    let no_key = ModerationConfig::new(Some("http://127.0.0.1:3030".to_string()), None);
    assert!(matches!(no_key, Err(Error::ConfigurationError)));
    assert!(matches!(ModerationConfig::new(None, None), Err(Error::ConfigurationError)));
    let both = ModerationConfig::new(Some("http://h".to_string()), Some("k".to_string())).unwrap();
    assert_eq!(both.api_layer_url, "http://h");
    assert_eq!(both.api_key, "k");
}

#[test]
fn request_is_built_from_configuration() {
    let config =
        ModerationConfig::new(Some("http://127.0.0.1:3030".to_string()), Some("YES".to_string()))
            .unwrap();
    let req = build_request(&config, "this is a sentence".to_string());
    assert_eq!(req.url, "http://127.0.0.1:3030/bad_words?censor_character=*");
    assert_eq!(req.header_name, "apikey");
    assert_eq!(req.header_value, "YES");
    assert_eq!(req.body, "this is a sentence");
}

#[test]
fn retry_policy_budget() {
    let policy = RetryPolicy::new();
    assert_eq!(policy.max_retries, 3);
    assert!(policy.next_wait(0).unwrap() <= 1000);
    assert!(policy.next_wait(2).unwrap() <= 4000);
    assert!(policy.next_wait(3).is_none());
}

#[test]
fn backoff_bounds_double_up_to_the_cap() {
    assert_eq!(backoff_cap(0), 1000);
    assert_eq!(backoff_cap(1), 2000);
    assert_eq!(backoff_cap(2), 4000);
    assert_eq!(backoff_cap(10), 1_024_000);
    assert_eq!(backoff_cap(11), 1_800_000);
    assert_eq!(backoff_cap(u32::MAX), 1_800_000);
}

#[test]
fn next_step_after_transport_failure() {
    let policy = RetryPolicy::new();
    assert!(matches!(next_step(&policy, 0, Exchange::TransportFailure), Step::Retry { .. }));
    assert!(matches!(
        next_step(&policy, 3, Exchange::TransportFailure),
        Step::Done(Err(Error::TransportError))
    ));
    match next_step(&policy, 3, Exchange::Response(success("a", "a"))) {
        Step::Done(Ok(s)) => assert_eq!(s, "a"),
        other => panic!("unexpected {:?}", other),
    }
}
