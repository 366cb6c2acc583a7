use proton_pass_broker::config::{
    env_u64, parse_u64, Config, ConfigError, Environment, NumberError, Variable,
};
use proton_pass_broker::error::{BrokerError, Cause};
use proton_pass_broker::healthcheck::{
    healthcheck, HealthcheckAction, HealthcheckError, HealthcheckEvent, HealthcheckState,
};
use proton_pass_broker::http::{
    body_or_fallback, handle_body, handle_payload, handle_request, handle_resolved, internal_error,
    json_response, BodyPart, BodyStep, HeadStep, HttpResponse, LimitedBody, PayloadStep,
    ResolveRequest, Status,
};
use proton_pass_broker::server::{serve, ServeError, ServerAction, ServerEvent, ServerState};
use proton_pass_broker::text::{is_white_space, to_lower, trim, trim_line_end};

fn set(variables: &[(&str, &[u8])]) -> Environment {
    Environment {
        variables: variables
            .iter()
            .map(|(name, value)| Variable {
                name: name.as_bytes().to_vec(),
                value: value.to_vec(),
                quoted: format!("{value:?}"),
            })
            .collect(),
    }
}

#[test]
fn unset_variables_have_defaults() {
    let config = Config::from_env(&set(&[("HOME", b"/root")])).unwrap();
    assert_eq!(config.socket, b"/run/proton-pass/broker.sock".to_vec());
    assert_eq!(config.session_dir, b"/var/lib/proton-pass/session".to_vec());
    assert_eq!(config.token_file, b"/run/secrets/proton_pass_agent_token".to_vec());
    assert_eq!(config.pass_cli, b"/usr/local/bin/pass-cli".to_vec());
    assert_eq!(config.command_timeout, 60);
    assert_eq!(config.session_check_interval, 300);
}

#[test]
fn set_variables_are_taken() {
    let config = Config::from_env(&set(&[
        ("PROTON_PASS_SOCKET", &[b'/', 0xff]),
        ("PROTON_PASS_SESSION_DIR", b""),
        ("PROTON_PASS_TOKEN_FILE", b"token"),
        ("PROTON_PASS_CLI", b"cli"),
        ("PROTON_PASS_COMMAND_TIMEOUT_SECONDS", b"+7"),
        ("PROTON_PASS_SESSION_CHECK_SECONDS", b"0008"),
        ("PROTON_PASS_CLI", b"another"),
    ]))
    .unwrap();
    assert_eq!(config.socket, vec![b'/', 0xff]);
    assert_eq!(config.session_dir, Vec::<u8>::new());
    assert_eq!(config.token_file, b"token".to_vec());
    assert_eq!(config.pass_cli, b"cli".to_vec());
    assert_eq!(config.command_timeout, 7);
    assert_eq!(config.session_check_interval, 8);
}

#[test]
fn bad_numbers_are_reported() {
    let environment = set(&[("PROTON_PASS_SESSION_CHECK_SECONDS", b"5m")]);
    let error = Config::from_env(&environment).unwrap_err();
    assert_eq!(
        error,
        ConfigError::NotAnInteger(
            "PROTON_PASS_SESSION_CHECK_SECONDS".to_string(),
            NumberError::InvalidDigit
        )
    );
    assert_eq!(
        error.message(),
        "PROTON_PASS_SESSION_CHECK_SECONDS must be a positive integer"
    );
    assert_eq!(error.source(), Some("invalid digit found in string".to_string()));
    assert_eq!(environment.get("PROTON_PASS_CLI"), None);
}

#[test]
fn a_number_that_is_not_unicode_is_quoted() {
    let mut environment = set(&[("PROTON_PASS_SESSION_CHECK_SECONDS", b"5m")]);
    environment.variables.push(Variable {
        name: b"PROTON_PASS_COMMAND_TIMEOUT_SECONDS".to_vec(),
        value: vec![b'1', 0xff],
        quoted: "\"1\\xFF\"".to_string(),
    });
    let error = Config::from_env(&environment).unwrap_err();
    assert_eq!(error, ConfigError::NotUnicode("\"1\\xFF\"".to_string()));
    assert_eq!(error.message(), "environment variable was not valid unicode: \"1\\xFF\"");
    assert_eq!(error.source(), None);
}

#[test]
fn the_first_bad_number_is_reported() {
    let environment = set(&[
        ("PROTON_PASS_SESSION_CHECK_SECONDS", b"5m"),
        ("PROTON_PASS_COMMAND_TIMEOUT_SECONDS", b""),
    ]);
    let error = Config::from_env(&environment).unwrap_err();
    assert_eq!(
        error,
        ConfigError::NotAnInteger(
            "PROTON_PASS_COMMAND_TIMEOUT_SECONDS".to_string(),
            NumberError::Empty
        )
    );
    assert_eq!(env_u64(&environment, "HOME", 7), Ok(7));
}

#[test]
fn numbers_are_read_like_the_standard_library_reads_them() {
    for text in [
        "",
        "+",
        "-",
        "-0",
        "-1",
        "0",
        "+0",
        "++1",
        "00",
        "7",
        "12",
        " 1",
        "1 ",
        "1_0",
        "0x1",
        "\u{661}",
        "18446744073709551615",
        "18446744073709551616",
        "18446744073709551620",
        "99999999999999999999",
        "000000000000000000000000000001",
        "1844674407370955161x",
        "18446744073709551615x",
        "18446744073709551616x",
        "+99999999999999999999999 ",
        "x99999999999999999999999",
    ] {
        let read = parse_u64(text).map_err(|error| error.message());
        assert_eq!(read, text.parse::<u64>().map_err(|error| error.to_string()), "{text}");
    }
    assert_eq!(parse_u64(""), Err(NumberError::Empty));
    assert_eq!(parse_u64("-1"), Err(NumberError::InvalidDigit));
    assert_eq!(parse_u64("18446744073709551616"), Err(NumberError::TooLarge));
}

#[test]
fn white_space_is_that_of_the_standard_library() {
    for c in '\0'..=char::MAX {
        assert_eq!(is_white_space(c), c.is_whitespace());
    }
}

#[test]
fn letters_are_lowered_like_ascii() {
    for c in '\0'..='\u{2ff}' {
        assert_eq!(to_lower(c), c.to_ascii_lowercase());
    }
}

#[test]
fn trimming_is_that_of_the_standard_library() {
    for text in ["", " ", "\u{2003}a b\u{85}", "a", " a", "a\r\n", "\n\u{fc}\n\r", "\u{200b} x"] {
        assert_eq!(trim(text), text.trim());
        assert_eq!(trim_line_end(text), text.trim_end_matches(['\r', '\n']));
    }
}

fn body(response: &HttpResponse) -> &str {
    std::str::from_utf8(&response.body).unwrap()
}

fn expect(response: &HttpResponse, status: u16, text: &str) {
    assert_eq!(response.status.code(), status);
    assert_eq!(body(response), text);
    let header = |name: &str, value: &str| (name.to_string(), value.to_string());
    assert_eq!(
        response.headers,
        vec![header("content-type", "application/json"), header("cache-control", "no-store")]
    );
}

fn head(method: &str, path: &str, healthy: bool) -> HttpResponse {
    match handle_request(method, path, healthy) {
        HeadStep::Respond(response) => response,
        HeadStep::ReadBody => panic!("no answer"),
    }
}

#[test]
fn health_is_answered() {
    expect(&head("GET", "/healthz", true), 200, "{\"status\":\"ok\"}");
    expect(&head("GET", "/healthz", false), 503, "{\"status\":\"unhealthy\"}");
}

#[test]
fn unknown_requests_are_not_found() {
    for (method, path) in [
        ("POST", "/healthz"),
        ("GET", "/v1/resolve"),
        ("get", "/healthz"),
        ("POST", "/v1/resolve/"),
        ("PUT", "/v1/resolve"),
        ("", ""),
    ] {
        expect(&head(method, path, true), 404, "{\"error\":\"not found\"}");
    }
}

#[test]
fn a_request_for_a_secret_goes_through_body_and_payload() {
    assert_eq!(handle_request("POST", "/v1/resolve", false), HeadStep::ReadBody);
    assert_eq!(handle_body(Ok(b"{}".to_vec())), BodyStep::Parse(b"{}".to_vec()));
    let request = || ResolveRequest {
        reference: "pass://a/b/c".to_string(),
        reason: "why".to_string(),
    };
    assert_eq!(handle_payload(Some(request())), PayloadStep::Resolve(request()));
}

#[test]
fn requests_that_cannot_be_understood_are_refused() {
    match handle_body(Err(Status::PayloadTooLarge)) {
        BodyStep::Respond(response) => expect(&response, 413, "{\"error\":\"invalid request\"}"),
        BodyStep::Parse(_) => panic!("no answer"),
    }
    match handle_body(Err(Status::BadRequest)) {
        BodyStep::Respond(response) => expect(&response, 400, "{\"error\":\"invalid request\"}"),
        BodyStep::Parse(_) => panic!("no answer"),
    }
    match handle_payload(None) {
        PayloadStep::Respond(response) => expect(&response, 400, "{\"error\":\"invalid request\"}"),
        PayloadStep::Resolve(_) => panic!("no answer"),
    }
}

#[test]
fn a_secret_is_answered() {
    let response = handle_resolved(&Ok("resolved-secret".to_string()));
    expect(&response, 200, "{\"value\":\"resolved-secret\"}");
}

#[test]
fn failures_are_answered_alike() {
    let answer = |cause: Cause| handle_resolved(&Err(BrokerError::new(cause)));
    expect(&answer(Cause::TimedOut), 502, "{\"error\":\"secret resolution failed\"}");
    assert_eq!(answer(Cause::TimedOut), answer(Cause::WaitFailed("super-secret".to_string())));
}

#[test]
fn secrets_are_escaped() {
    let response = handle_resolved(&Ok("a\"b\\c/\u{8}\t\n\u{c}\r\u{1}\u{1f}\u{7f}\u{fc}".to_string()));
    assert_eq!(
        body(&response),
        "{\"value\":\"a\\\"b\\\\c/\\b\\t\\n\\f\\r\\u0001\\u001f\u{7f}\u{fc}\"}"
    );
}

#[test]
fn an_answer_can_be_read_back() {
    let every: String = ('\0'..='\u{ff}').collect();
    for secret in [every.as_str(), "", "\u{1f600}", "{\"value\":1}"] {
        let response = json_response(Status::Success, "value", secret);
        let read: serde_json::Value = serde_json::from_slice(&response.body).unwrap();
        assert_eq!(read.as_object().unwrap().len(), 1);
        assert_eq!(read["value"].as_str(), Some(secret));
    }
}

#[test]
fn the_last_resort_is_an_internal_error() {
    expect(&internal_error(), 500, "{\"error\":\"internal error\"}");
    let failed = serde_json::from_slice::<u8>(b"x").map(|n| vec![n]);
    assert_eq!(body_or_fallback(failed), b"{\"error\":\"internal error\"}".to_vec());
    assert_eq!(body_or_fallback(Ok(vec![1, 2])), vec![1, 2]);
}

#[test]
fn a_body_is_read_up_to_the_limit() {
    let mut whole = LimitedBody::new();
    assert_eq!(whole.take(BodyPart::Data(vec![7; 8192])), Ok(()));
    assert_eq!(whole.take(BodyPart::Other), Ok(()));
    assert_eq!(whole.take(BodyPart::Data(Vec::new())), Ok(()));
    let mut parts = LimitedBody::new();
    for _ in 0..64 {
        assert_eq!(parts.take(BodyPart::Data(vec![7; 128])), Ok(()));
    }
    assert_eq!(parts.take(BodyPart::Data(vec![7])), Err(Status::PayloadTooLarge));
    assert_eq!(parts.take(BodyPart::Broken), Err(Status::BadRequest));
    assert_eq!(whole.into_bytes(), vec![7; 8192]);
    assert_eq!(parts.into_bytes(), vec![7; 8192]);
    let mut large = LimitedBody::new();
    assert_eq!(large.take(BodyPart::Data(vec![7; 8193])), Err(Status::PayloadTooLarge));
}

#[test]
fn the_server_starts_listens_and_stops() {
    let mut actions = Vec::new();
    let (mut state, action) = serve();
    actions.push(action);
    for event in [
        ServerEvent::Done,
        ServerEvent::Done,
        ServerEvent::Done,
        ServerEvent::SocketExists,
        ServerEvent::Done,
        ServerEvent::Done,
        ServerEvent::Done,
        ServerEvent::Failed,
        ServerEvent::Accepted,
        ServerEvent::Shutdown,
        ServerEvent::Failed,
    ] {
        assert!(state.accepts(event));
        let (next, action) = state.advance(true, event);
        state = next;
        actions.push(action);
    }
    assert_eq!(
        actions,
        vec![
            ServerAction::CreateSessionDir,
            ServerAction::SecureSessionDir(0o700),
            ServerAction::CreateSocketDir,
            ServerAction::CheckSocket,
            ServerAction::RemoveStaleSocket,
            ServerAction::Bind,
            ServerAction::SecureSocket(0o660),
            ServerAction::Authenticate,
            ServerAction::StartListening,
            ServerAction::ServeConnection,
            ServerAction::RemoveSocket,
            ServerAction::Stop,
        ]
    );
    assert_eq!(state, ServerState::Stopped);
    assert!(!state.accepts(ServerEvent::Done));
}

#[test]
fn the_server_reports_what_failed() {
    let failing = |state: ServerState, has_socket_dir: bool, event: ServerEvent| {
        match state.advance(has_socket_dir, event) {
            (ServerState::Stopped, ServerAction::Fail(e)) => e,
            other => panic!("unexpected {other:?}"),
        }
    };
    for (state, error) in [
        (ServerState::CreatingSessionDir, ServeError::CannotCreateSessionDir),
        (ServerState::SecuringSessionDir, ServeError::CannotSecureSessionDir),
        (ServerState::CreatingSocketDir, ServeError::CannotCreateSocketDir),
        (ServerState::RemovingStaleSocket, ServeError::CannotRemoveStaleSocket),
        (ServerState::Binding, ServeError::CannotBind),
        (ServerState::SecuringSocket, ServeError::CannotSecureSocket),
    ] {
        assert_eq!(failing(state, true, ServerEvent::Failed), error);
    }
    assert_eq!(
        failing(ServerState::SecuringSessionDir, false, ServerEvent::Done),
        ServeError::NoSocketDir
    );
    assert_eq!(
        failing(ServerState::Listening, true, ServerEvent::AcceptFailed).message(),
        "Unable to accept broker connection"
    );
    assert_eq!(
        failing(ServerState::Listening, true, ServerEvent::SignalFailed).message(),
        "Unable to listen for shutdown signal"
    );
    assert_eq!(
        ServerState::CheckingSocket.advance(true, ServerEvent::SocketAbsent),
        (ServerState::Binding, ServerAction::Bind)
    );
}

/// The result of a healthcheck that ends with this event.
fn finished(state: HealthcheckState, event: HealthcheckEvent) -> Result<(), HealthcheckError> {
    assert!(state.accepts(&event));
    match state.advance(event) {
        (HealthcheckState::Finished, HealthcheckAction::Finish(result)) => result,
        other => panic!("unexpected {other:?}"),
    }
}

#[test]
fn the_healthcheck_connects_sends_and_receives() {
    let (state, action) = healthcheck();
    assert_eq!(action, HealthcheckAction::Connect { seconds: 5 });
    assert!(!state.accepts(&HealthcheckEvent::Sent));
    assert!(state.accepts(&HealthcheckEvent::Connected));
    let (state, action) = state.advance(HealthcheckEvent::Connected);
    let request = "GET /healthz HTTP/1.1\r\nHost: localhost\r\nConnection: close\r\n\r\n";
    assert_eq!(action, HealthcheckAction::Send(request.as_bytes().to_vec()));
    assert!(!state.accepts(&HealthcheckEvent::TimedOut(String::new())));
    let (state, action) = state.advance(HealthcheckEvent::Sent);
    assert_eq!(action, HealthcheckAction::Receive { seconds: 5 });
    assert_eq!(state, HealthcheckState::Receiving);
    assert!(!HealthcheckState::Finished.accepts(&HealthcheckEvent::Sent));
}

#[test]
fn the_healthcheck_reads_the_status_line() {
    let verdict = |response: &[u8]| {
        finished(HealthcheckState::Receiving, HealthcheckEvent::Received(response.to_vec()))
    };
    assert_eq!(verdict(b"HTTP/1.1 200 OK\r\n\r\n"), Ok(()));
    assert_eq!(verdict(b"HTTP/1.1 200"), Ok(()));
    let unhealthy = || Err(HealthcheckError::Unhealthy);
    assert_eq!(verdict(b"HTTP/1.1 503 Service Unavailable\r\n"), unhealthy());
    assert_eq!(verdict(b"HTTP/1.1 20"), unhealthy());
    assert_eq!(verdict(b""), unhealthy());
    assert_eq!(HealthcheckError::Unhealthy.message(), "Broker is unhealthy");
    assert_eq!(HealthcheckError::Unhealthy.source(), None);
}

#[test]
fn the_healthcheck_reports_what_failed() {
    let said = |state: HealthcheckState, event: HealthcheckEvent| {
        let error = finished(state, event).unwrap_err();
        (error.message(), error.source())
    };
    let timed_out = || HealthcheckEvent::TimedOut("deadline has elapsed".to_string());
    let failed = || HealthcheckEvent::Failed("refused".to_string());
    let late = || Some("deadline has elapsed".to_string());
    let refused = || "refused".to_string();
    assert_eq!(
        said(HealthcheckState::Connecting, timed_out()),
        ("Broker healthcheck connection timed out".to_string(), late())
    );
    assert_eq!(said(HealthcheckState::Connecting, failed()), (refused(), None));
    assert_eq!(
        said(HealthcheckState::Sending, failed()),
        ("Unable to send healthcheck request".to_string(), Some(refused()))
    );
    assert_eq!(
        said(HealthcheckState::Receiving, timed_out()),
        ("Broker healthcheck response timed out".to_string(), late())
    );
    assert_eq!(said(HealthcheckState::Receiving, failed()), (refused(), None));
}
